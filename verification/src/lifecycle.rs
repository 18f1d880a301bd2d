//! The life of one request as its dispatcher sees it: from dispatch through
//! the queue, the invocation, the prelude and the body to completion or
//! failure.

use vstd::prelude::*;
use crate::error::RequestError;
use crate::host::HostAction;

verus! {

/// Where a request stands.
#[derive(Debug, Clone, Copy, PartialEq, Eq, Structural)]
pub enum RequestState {
    /// Built, and not yet offered to the queue or waiting for room in it.
    Dispatched,
    /// In the queue.
    Queued,
    /// The application is being called for it.
    Invoked,
    /// Its prelude has been published.
    HeaderSet,
    /// At least one chunk of its body has been sent.
    Streaming,
    /// Its body ended as the application ended it.
    Completed,
    /// It failed.
    Failed(RequestError),
}

/// What a request learns of its progress.
#[derive(Debug, Clone, Copy, PartialEq, Eq, Structural)]
pub enum RequestSignal {
    /// The queue took the request.
    Admitted,
    /// The queue turned the request away for good.
    Rejected,
    /// The host invoked the application for the request.
    Invoked,
    /// The host published the prelude.
    Prelude,
    /// The host sent a chunk of the body.
    Chunk,
    /// The host closed the body as complete.
    Closed,
    /// The host failed the request.
    Failed(RequestError),
}

/// Whether a request has reached its end.
pub open spec fn is_final(state: RequestState) -> bool {
    state is Completed || state is Failed
}

/// The state of a request after a signal. A request at its end stays as it
/// is. A failure fails a request wherever it stands. Any other signal moves
/// the request one step along its path where it fits the state, and is
/// ignored where it does not.
pub open spec fn next_state(state: RequestState, signal: RequestSignal) -> RequestState {
    if is_final(state) {
        state
    } else {
        match signal {
            RequestSignal::Failed(error) => RequestState::Failed(error),
            RequestSignal::Rejected => if state is Dispatched {
                RequestState::Failed(RequestError::QueueClosed)
            } else {
                state
            },
            RequestSignal::Admitted => if state is Dispatched {
                RequestState::Queued
            } else {
                state
            },
            RequestSignal::Invoked => if state is Queued {
                RequestState::Invoked
            } else {
                state
            },
            RequestSignal::Prelude => if state is Invoked {
                RequestState::HeaderSet
            } else {
                state
            },
            RequestSignal::Chunk => if state is HeaderSet || state is Streaming {
                RequestState::Streaming
            } else {
                state
            },
            RequestSignal::Closed => if state is HeaderSet || state is Streaming {
                RequestState::Completed
            } else {
                state
            },
        }
    }
}

/// The state of a request after a run of signals.
pub open spec fn state_after(state: RequestState, signals: Seq<RequestSignal>) -> RequestState
    decreases signals.len(),
{
    if signals.len() == 0 {
        state
    } else {
        next_state(state_after(state, signals.drop_last()), signals.last())
    }
}

/// What an action of the host tells the request it is for.
pub open spec fn signal_of(action: HostAction) -> Option<RequestSignal> {
    match action {
        HostAction::Invoke { .. } => Some(RequestSignal::Invoked),
        HostAction::Publish { .. } => Some(RequestSignal::Prelude),
        HostAction::SendChunk { .. } => Some(RequestSignal::Chunk),
        HostAction::CloseClean { .. } => Some(RequestSignal::Closed),
        HostAction::Fail { error, .. } => Some(RequestSignal::Failed(error)),
        HostAction::Stream { .. } => None,
        HostAction::Wait => None,
        HostAction::Exit => None,
        HostAction::Unexpected => None,
    }
}

impl RequestState {
    /// The state after a signal.
    pub fn advance(self, signal: RequestSignal) -> (r: RequestState)
        ensures
            r == next_state(self, signal),
    {
        match self {
            RequestState::Completed => self,
            RequestState::Failed(_) => self,
            _ => match signal {
                RequestSignal::Failed(error) => RequestState::Failed(error),
                RequestSignal::Rejected => match self {
                    RequestState::Dispatched => RequestState::Failed(RequestError::QueueClosed),
                    _ => self,
                },
                RequestSignal::Admitted => match self {
                    RequestState::Dispatched => RequestState::Queued,
                    _ => self,
                },
                RequestSignal::Invoked => match self {
                    RequestState::Queued => RequestState::Invoked,
                    _ => self,
                },
                RequestSignal::Prelude => match self {
                    RequestState::Invoked => RequestState::HeaderSet,
                    _ => self,
                },
                RequestSignal::Chunk => match self {
                    RequestState::HeaderSet => RequestState::Streaming,
                    RequestState::Streaming => RequestState::Streaming,
                    _ => self,
                },
                RequestSignal::Closed => match self {
                    RequestState::HeaderSet => RequestState::Completed,
                    RequestState::Streaming => RequestState::Completed,
                    _ => self,
                },
            },
        }
    }

    /// Whether the request has reached its end.
    pub fn is_final(&self) -> (r: bool)
        ensures
            r == is_final(*self),
    {
        match self {
            RequestState::Completed => true,
            RequestState::Failed(_) => true,
            _ => false,
        }
    }
}

/// The request an action is for, and what the action tells it.
pub fn signal(action: &HostAction) -> (r: Option<(u64, RequestSignal)>)
    ensures
        match r {
            Some((ticket, signal)) => crate::host::ticket_of(*action) == Some(ticket) && signal_of(
                *action,
            ) == Some(signal),
            None => signal_of(*action).is_none(),
        },
{
    match action {
        HostAction::Invoke { ticket, .. } => Some((*ticket, RequestSignal::Invoked)),
        HostAction::Publish { ticket, .. } => Some((*ticket, RequestSignal::Prelude)),
        HostAction::SendChunk { ticket, .. } => Some((*ticket, RequestSignal::Chunk)),
        HostAction::CloseClean { ticket } => Some((*ticket, RequestSignal::Closed)),
        HostAction::Fail { ticket, error } => Some((*ticket, RequestSignal::Failed(*error))),
        _ => None,
    }
}

/// A request that is not at its end fails on a failure, wherever it stands,
/// with the error of that failure.
pub proof fn lemma_failure_reaches_every_state(state: RequestState, error: RequestError)
    requires
        !is_final(state),
    ensures
        next_state(state, RequestSignal::Failed(error)) == RequestState::Failed(error),
{
}

/// A request completes only when its body is closed as complete, after its
/// prelude has been published.
pub proof fn lemma_completed_only_by_close(state: RequestState, signal: RequestSignal)
    requires
        !(state is Completed),
        next_state(state, signal) is Completed,
    ensures
        signal is Closed,
        state is HeaderSet || state is Streaming,
{
}

/// A request at its end stays there, whatever signals follow: one that
/// failed never turns into one that completed.
pub proof fn lemma_end_is_kept(state: RequestState, signals: Seq<RequestSignal>)
    requires
        is_final(state),
    ensures
        state_after(state, signals) == state,
    decreases signals.len(),
{
    if signals.len() > 0 {
        lemma_end_is_kept(state, signals.drop_last());
    }
}

/// A run of signals that holds a failure before the request has reached its
/// end leaves the request failed with that error, whatever follows.
pub proof fn lemma_failed_run_ends_failed(
    state: RequestState,
    signals: Seq<RequestSignal>,
    i: int,
    error: RequestError,
)
    requires
        0 <= i < signals.len(),
        signals[i] == RequestSignal::Failed(error),
        !is_final(state_after(state, signals.subrange(0, i))),
    ensures
        state_after(state, signals) == RequestState::Failed(error),
    decreases signals.len(),
{
    if i == signals.len() - 1 {
        assert(signals.drop_last() =~= signals.subrange(0, i));
    } else {
        assert(signals.drop_last().subrange(0, i) =~= signals.subrange(0, i));
        lemma_failed_run_ends_failed(state, signals.drop_last(), i, error);
    }
}

} // verus!
