//! The host of the application: one serialized loop that takes requests from
//! the queue one at a time, invokes the application, publishes the prelude
//! and streams the body.
//!
//! The loop itself waits and transports, which is left to the caller. Its
//! decisions are here: `bussard` is one turn of it, from the state of the
//! host and an event to the next state and the action to perform.

use vstd::prelude::*;
use crate::environ::{add_per_request_environ, entries_of, environ_of, EnvEntry, EnvVar};
use crate::error::RequestError;
use crate::queue::{BussardMessage, HostQueue, QueueView};
use crate::response::{conclusion, ResponsePrelude, StartResponse, StartView};

verus! {

/// Where the host stands. A request in service is named by its ticket.
#[derive(Debug, Clone, Copy, PartialEq, Eq, Structural)]
pub enum HostPhase {
    /// No request is in service.
    Idle,
    /// The application is being called for the request.
    Invoking(u64),
    /// The prelude of the request is being handed to its consumer.
    Publishing(u64),
    /// The body of the request is being produced and sent.
    Streaming(u64),
    /// The loop has ended.
    Stopped,
}

/// The ticket of the request in service, where there is one.
pub open spec fn in_service(phase: HostPhase) -> Option<u64> {
    match phase {
        HostPhase::Invoking(ticket) => Some(ticket),
        HostPhase::Publishing(ticket) => Some(ticket),
        HostPhase::Streaming(ticket) => Some(ticket),
        HostPhase::Idle => None,
        HostPhase::Stopped => None,
    }
}

/// What the caller reports to the host.
#[derive(Debug)]
pub enum HostEvent {
    /// The host may look at the queue.
    Wake,
    /// The call of the application has ended: with what its response start
    /// holds, and whether the application raised.
    Returned { start_response: StartResponse, raised: bool },
    /// The prelude has reached the consumer.
    Published,
    /// The application produced the next chunk of the body, and every chunk
    /// before it has been sent.
    Chunk(Vec<u8>),
    /// The application has no more chunks.
    BodyEnded,
    /// The application raised while it produced the body.
    BodyFailed,
    /// The consumer of the response went away.
    ConsumerGone,
}

/// What the host asks the caller to do.
#[derive(Debug)]
pub enum HostAction {
    /// Wait until the queue holds a message, then report `Wake`.
    Wait,
    /// Call the application with this environment and response start, then
    /// report `Returned`.
    Invoke { ticket: u64, environ: Vec<EnvEntry>, start_response: StartResponse },
    /// Hand the prelude to the consumer of the request, then report
    /// `Published`, or `ConsumerGone`.
    Publish { ticket: u64, prelude: ResponsePrelude },
    /// Ask the application for the first chunk, then report it.
    Stream { ticket: u64 },
    /// Send the chunk to the consumer, waiting while its channel is full;
    /// then ask the application for the next chunk and report it.
    SendChunk { ticket: u64, chunk: Vec<u8> },
    /// Close the body of the request: it is complete. Then report `Wake`.
    CloseClean { ticket: u64 },
    /// Close the request as failed, so that its consumer can tell the
    /// failure from a complete body. Then report `Wake`.
    Fail { ticket: u64, error: RequestError },
    /// Leave the loop.
    Exit,
    /// The event does not fit the state of the host; nothing has changed.
    Unexpected,
}

/// The host as mathematical data.
pub struct HostView {
    pub phase: HostPhase,
    /// The variables of the process environment that every request inherits.
    pub inherited: Seq<EnvVar>,
}

/// The host: its phase, and what every request inherits.
#[derive(Debug)]
pub struct ApplicationHost {
    phase: HostPhase,
    inherited: Vec<EnvVar>,
}

impl View for ApplicationHost {
    type V = HostView;

    closed spec fn view(&self) -> HostView {
        HostView { phase: self.phase, inherited: self.inherited@ }
    }
}

/// A turn that changes neither host nor queue.
pub open spec fn nothing_changed(
    before: HostView,
    queue_before: QueueView,
    after: HostView,
    queue_after: QueueView,
) -> bool {
    after == before && queue_after == queue_before
}

/// A turn of the idle host: it takes the oldest message from the queue.
/// An envelope is invoked with the environment of its own request and a
/// fresh response start; the sentinel ends the loop; an empty queue means
/// waiting.
pub open spec fn idle_turn(
    before: HostView,
    queue_before: QueueView,
    action: HostAction,
    after: HostView,
    queue_after: QueueView,
) -> bool {
    if queue_before.messages.len() == 0 {
        action is Wait && nothing_changed(before, queue_before, after, queue_after)
    } else {
        &&& queue_after == (QueueView { messages: queue_before.messages.drop_first(), ..queue_before })
        &&& match queue_before.messages[0] {
            BussardMessage::Shutdown => action is Exit && after.phase == HostPhase::Stopped,
            BussardMessage::Envelope(envelope) => {
                &&& action matches HostAction::Invoke { ticket, environ, start_response }
                &&& ticket == envelope@.ticket
                &&& entries_of(environ@) == environ_of(envelope@.req, before.inherited)
                &&& start_response@ == StartView::Unset
                &&& after.phase == HostPhase::Invoking(ticket)
            },
        }
    }
}

/// A turn in which the request in service ends as failed: the host is idle
/// again and the queue untouched.
pub open spec fn fails_with(
    ticket: u64,
    error: RequestError,
    action: HostAction,
    after: HostView,
) -> bool {
    action == (HostAction::Fail { ticket, error }) && after.phase == HostPhase::Idle
}

/// One turn of the host's loop, as a relation between the host and the queue
/// before it, the event, the action, and the host and the queue after it.
pub open spec fn turn(
    before: HostView,
    queue_before: QueueView,
    event: HostEvent,
    action: HostAction,
    after: HostView,
    queue_after: QueueView,
) -> bool {
    &&& after.inherited == before.inherited
    &&& match before.phase {
        HostPhase::Idle => match event {
            HostEvent::Wake => idle_turn(before, queue_before, action, after, queue_after),
            _ => action is Unexpected && nothing_changed(before, queue_before, after, queue_after),
        },
        HostPhase::Invoking(ticket) => match event {
            HostEvent::Returned { start_response, raised } => {
                &&& queue_after == queue_before
                &&& match conclusion(start_response@, raised) {
                    Ok(published) => {
                        &&& action matches HostAction::Publish { ticket: t, prelude }
                        &&& t == ticket
                        &&& prelude@ == published
                        &&& after.phase == HostPhase::Publishing(ticket)
                    },
                    Err(error) => fails_with(ticket, error, action, after),
                }
            },
            _ => action is Unexpected && nothing_changed(before, queue_before, after, queue_after),
        },
        HostPhase::Publishing(ticket) => match event {
            HostEvent::Published => {
                &&& queue_after == queue_before
                &&& action == (HostAction::Stream { ticket })
                &&& after.phase == HostPhase::Streaming(ticket)
            },
            HostEvent::ConsumerGone => {
                &&& queue_after == queue_before
                &&& fails_with(ticket, RequestError::ChannelClosed, action, after)
            },
            _ => action is Unexpected && nothing_changed(before, queue_before, after, queue_after),
        },
        HostPhase::Streaming(ticket) => match event {
            HostEvent::Chunk(bytes) => {
                &&& queue_after == queue_before
                &&& action matches HostAction::SendChunk { ticket: t, chunk }
                &&& t == ticket
                &&& chunk@ == bytes@
                &&& after.phase == HostPhase::Streaming(ticket)
            },
            HostEvent::BodyEnded => {
                &&& queue_after == queue_before
                &&& action == (HostAction::CloseClean { ticket })
                &&& after.phase == HostPhase::Idle
            },
            HostEvent::BodyFailed => {
                &&& queue_after == queue_before
                &&& fails_with(ticket, RequestError::Application, action, after)
            },
            HostEvent::ConsumerGone => {
                &&& queue_after == queue_before
                &&& fails_with(ticket, RequestError::ChannelClosed, action, after)
            },
            _ => action is Unexpected && nothing_changed(before, queue_before, after, queue_after),
        },
        HostPhase::Stopped => action is Exit && nothing_changed(
            before,
            queue_before,
            after,
            queue_after,
        ),
    }
}

impl ApplicationHost {
    /// An idle host whose requests inherit the given variables.
    pub fn new(inherited: Vec<EnvVar>) -> (r: ApplicationHost)
        ensures
            r@ == (HostView { phase: HostPhase::Idle, inherited: inherited@ }),
    {
        ApplicationHost { phase: HostPhase::Idle, inherited }
    }

    pub fn phase(&self) -> (r: HostPhase)
        ensures
            r == self@.phase,
    {
        self.phase
    }

    /// The turn of an idle host that was woken.
    fn serve_next(&mut self, receiver: &mut HostQueue) -> (action: HostAction)
        requires
            old(receiver).wf(),
            old(self)@.phase == HostPhase::Idle,
        ensures
            final(receiver).wf(),
            final(self)@.inherited == old(self)@.inherited,
            idle_turn(old(self)@, old(receiver)@, action, final(self)@, final(receiver)@),
    {
        match receiver.take() {
            None => HostAction::Wait,
            Some(BussardMessage::Shutdown) => {
                self.phase = HostPhase::Stopped;
                HostAction::Exit
            },
            Some(BussardMessage::Envelope(envelope)) => {
                let (req, ticket) = envelope.into_parts();
                let environ = add_per_request_environ(req, &self.inherited);
                self.phase = HostPhase::Invoking(ticket);
                HostAction::Invoke { ticket, environ, start_response: StartResponse::new() }
            },
        }
    }

    /// Ends the request in service as failed.
    fn fail(&mut self, ticket: u64, error: RequestError) -> (action: HostAction)
        ensures
            final(self)@.inherited == old(self)@.inherited,
            fails_with(ticket, error, action, final(self)@),
    {
        self.phase = HostPhase::Idle;
        HostAction::Fail { ticket, error }
    }
}

/// One turn of the host's loop. The caller performs the action returned and
/// reports what came of it as the next event.
///
/// A message leaves the queue only while the host is idle, so the
/// application is never invoked for a request while another is in service.
/// A request that fails ends alone: the host is idle again and the queue is
/// as it was.
pub fn bussard(receiver: &mut HostQueue, host: &mut ApplicationHost, event: HostEvent) -> (action:
    HostAction)
    requires
        old(receiver).wf(),
    ensures
        final(receiver).wf(),
        turn(old(host)@, old(receiver)@, event, action, final(host)@, final(receiver)@),
{
    match host.phase {
        HostPhase::Idle => match event {
            HostEvent::Wake => host.serve_next(receiver),
            _ => HostAction::Unexpected,
        },
        HostPhase::Invoking(ticket) => match event {
            HostEvent::Returned { start_response, raised } => match start_response.conclude(raised) {
                Ok(prelude) => {
                    host.phase = HostPhase::Publishing(ticket);
                    HostAction::Publish { ticket, prelude }
                },
                Err(error) => host.fail(ticket, error),
            },
            _ => HostAction::Unexpected,
        },
        HostPhase::Publishing(ticket) => match event {
            HostEvent::Published => {
                host.phase = HostPhase::Streaming(ticket);
                HostAction::Stream { ticket }
            },
            HostEvent::ConsumerGone => host.fail(ticket, RequestError::ChannelClosed),
            _ => HostAction::Unexpected,
        },
        HostPhase::Streaming(ticket) => match event {
            HostEvent::Chunk(chunk) => HostAction::SendChunk { ticket, chunk },
            HostEvent::BodyEnded => {
                host.phase = HostPhase::Idle;
                HostAction::CloseClean { ticket }
            },
            HostEvent::BodyFailed => host.fail(ticket, RequestError::Application),
            HostEvent::ConsumerGone => host.fail(ticket, RequestError::ChannelClosed),
            _ => HostAction::Unexpected,
        },
        HostPhase::Stopped => HostAction::Exit,
    }
}

/// The ticket of the request that an action is for.
pub open spec fn ticket_of(action: HostAction) -> Option<u64> {
    match action {
        HostAction::Invoke { ticket, .. } => Some(ticket),
        HostAction::Publish { ticket, .. } => Some(ticket),
        HostAction::Stream { ticket } => Some(ticket),
        HostAction::SendChunk { ticket, .. } => Some(ticket),
        HostAction::CloseClean { ticket } => Some(ticket),
        HostAction::Fail { ticket, .. } => Some(ticket),
        HostAction::Wait => None,
        HostAction::Exit => None,
        HostAction::Unexpected => None,
    }
}

/// The error with which an action fails a request.
pub open spec fn error_of(action: HostAction) -> Option<RequestError> {
    match action {
        HostAction::Fail { error, .. } => Some(error),
        _ => None,
    }
}

/// The bytes that an action sends to the consumer.
pub open spec fn chunk_of(action: HostAction) -> Option<Seq<u8>> {
    match action {
        HostAction::SendChunk { chunk, .. } => Some(chunk@),
        _ => None,
    }
}

/// Whether an action ends the service of a request.
pub open spec fn concludes(action: HostAction) -> bool {
    action is CloseClean || action is Fail
}

/// At most one request is in service, and it stays in service until an
/// action concludes it. The application is invoked only by an idle host; a
/// message leaves the queue only while the host is idle; and a host with a
/// request in service either keeps that request or concludes that very
/// request and is idle again.
pub proof fn lemma_one_request_at_a_time(
    before: HostView,
    queue_before: QueueView,
    event: HostEvent,
    action: HostAction,
    after: HostView,
    queue_after: QueueView,
)
    requires
        turn(before, queue_before, event, action, after, queue_after),
    ensures
        action is Invoke ==> before.phase == HostPhase::Idle && in_service(after.phase)
            == ticket_of(action),
        queue_after != queue_before ==> before.phase == HostPhase::Idle,
        in_service(before.phase).is_some() ==> {
            ||| in_service(after.phase) == in_service(before.phase) && !concludes(action)
            ||| after.phase == HostPhase::Idle && concludes(action) && ticket_of(action)
                == in_service(before.phase)
        },
        in_service(before.phase).is_none() ==> !concludes(action),
{
}

/// Nothing is delivered across requests. Every action of a host with a
/// request in service is for that request; a chunk is sent on as it was
/// produced; and the application is invoked with the ticket and the
/// environment of the envelope that stood first in the queue.
pub proof fn lemma_actions_follow_their_request(
    before: HostView,
    queue_before: QueueView,
    event: HostEvent,
    action: HostAction,
    after: HostView,
    queue_after: QueueView,
)
    requires
        turn(before, queue_before, event, action, after, queue_after),
    ensures
        in_service(before.phase).is_some() && ticket_of(action).is_some() ==> ticket_of(action)
            == in_service(before.phase),
        before.phase is Streaming ==> (event matches HostEvent::Chunk(bytes) ==> chunk_of(action)
            == Some(bytes@)),
        action matches HostAction::Invoke { ticket, environ, start_response } ==> {
            &&& queue_before.messages.len() > 0
            &&& queue_before.messages[0] matches BussardMessage::Envelope(envelope)
            &&& envelope@.ticket == ticket
            &&& entries_of(environ@) == environ_of(envelope@.req, before.inherited)
            &&& start_response@ == StartView::Unset
        },
        action matches HostAction::Publish { prelude, .. } ==> (
        event matches HostEvent::Returned { start_response, raised } && conclusion(
            start_response@,
            raised,
        ) == Ok::<crate::response::PreludeView, RequestError>(prelude@)),
{
}

/// A failure stays with its request. The turn that fails a request leaves
/// the host idle, not stopped, and the queue exactly as it was: the
/// requests that wait are served as if nothing had happened.
pub proof fn lemma_failure_stays_with_its_request(
    before: HostView,
    queue_before: QueueView,
    event: HostEvent,
    action: HostAction,
    after: HostView,
    queue_after: QueueView,
)
    requires
        turn(before, queue_before, event, action, after, queue_after),
        action is Fail,
    ensures
        ticket_of(action) == in_service(before.phase),
        after.phase == HostPhase::Idle,
        after.inherited == before.inherited,
        queue_after == queue_before,
{
}

/// What the failure of a request is, by the event that brings it about: a
/// refused status line or header, an application that raised, a response
/// that was never started, or a consumer that went away.
pub proof fn lemma_failure_causes(
    before: HostView,
    queue_before: QueueView,
    event: HostEvent,
    action: HostAction,
    after: HostView,
    queue_after: QueueView,
)
    requires
        turn(before, queue_before, event, action, after, queue_after),
    ensures
        in_service(before.phase).is_some() && event is ConsumerGone && !(before.phase
            is Invoking) ==> error_of(action) == Some(RequestError::ChannelClosed),
        before.phase is Invoking ==> (event matches HostEvent::Returned { start_response, raised }
            ==> match start_response@ {
            StartView::Refused(e) => error_of(action) == Some(RequestError::Validation(e)),
            StartView::Unset => error_of(action) == Some(
                if raised {
                    RequestError::Application
                } else {
                    RequestError::ProtocolContract
                },
            ),
            StartView::Started(_) => raised ==> error_of(action) == Some(
                RequestError::Application,
            ),
        }),
{
}

/// An application that raises while it produces the body gives a failed
/// request, never one that looks complete: the action is the failure, and a
/// body is closed as complete only when the application has ended it.
pub proof fn lemma_body_failure_is_told(
    before: HostView,
    queue_before: QueueView,
    event: HostEvent,
    action: HostAction,
    after: HostView,
    queue_after: QueueView,
)
    requires
        turn(before, queue_before, event, action, after, queue_after),
    ensures
        before.phase is Streaming && event is BodyFailed ==> action == (HostAction::Fail {
            ticket: in_service(before.phase).unwrap(),
            error: RequestError::Application,
        }),
        action is CloseClean ==> before.phase is Streaming && event is BodyEnded,
{
}

/// The loop ends only on the sentinel, and leaves nothing behind. The turn
/// in which a running host exits is a turn of the idle host, so no request
/// is in service; the sentinel stood first in the queue, therefore alone in
/// it: every request admitted ahead of it has been taken and concluded, and
/// the queue is empty afterwards.
pub proof fn lemma_exit_leaves_nothing_behind(
    before: HostView,
    queue_before: QueueView,
    event: HostEvent,
    action: HostAction,
    after: HostView,
    queue_after: QueueView,
)
    requires
        queue_before.wf(),
        turn(before, queue_before, event, action, after, queue_after),
        before.phase != HostPhase::Stopped,
        action is Exit,
    ensures
        before.phase == HostPhase::Idle,
        event is Wake,
        queue_before.closed,
        queue_before.messages.len() == 1,
        queue_before.messages[0] is Shutdown,
        queue_after.messages.len() == 0,
        after.phase == HostPhase::Stopped,
{
}

/// While the sentinel has a message ahead of it, the host does not exit:
/// woken, it takes that message, and where it is an envelope invokes the
/// application for it.
pub proof fn lemma_no_exit_before_the_sentinel(
    before: HostView,
    queue_before: QueueView,
    event: HostEvent,
    action: HostAction,
    after: HostView,
    queue_after: QueueView,
)
    requires
        queue_before.wf(),
        turn(before, queue_before, event, action, after, queue_after),
        before.phase != HostPhase::Stopped,
        queue_before.messages.len() >= 2,
    ensures
        !(action is Exit),
        after.phase != HostPhase::Stopped,
        before.phase == HostPhase::Idle && event is Wake ==> action is Invoke && queue_after.messages
            == queue_before.messages.drop_first(),
{
}

} // verus!
