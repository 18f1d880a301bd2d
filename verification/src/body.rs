//! The channel that carries the body of one response from the host to its
//! consumer: bounded, in order, and closed either as complete or as failed,
//! so that a truncated body is never taken for a whole one.

use std::collections::VecDeque;
use vstd::prelude::*;
use crate::error::RequestError;

verus! {

/// How the producer has closed the channel.
#[derive(Debug, Clone, Copy, PartialEq, Eq, Structural)]
pub enum BodyEnd {
    /// Not closed: more chunks may come.
    Open,
    /// Closed after the last chunk: the body is complete.
    Ended,
    /// Closed because the request failed: the body is cut short.
    Failed(RequestError),
}

/// A body channel as mathematical data.
pub struct BodyView {
    /// The chunks sent and not yet received, the oldest first.
    pub pending: Seq<Vec<u8>>,
    /// How many chunks the channel holds at most.
    pub capacity: nat,
    pub end: BodyEnd,
    /// Whether the consumer has gone away.
    pub consumer_gone: bool,
}

impl BodyView {
    pub open spec fn wf(self) -> bool {
        &&& self.pending.len() <= self.capacity
        &&& self.consumer_gone ==> self.pending.len() == 0
    }
}

/// The body channel of one request.
#[derive(Debug)]
pub struct BodyChannel {
    pending: VecDeque<Vec<u8>>,
    capacity: usize,
    end: BodyEnd,
    consumer_gone: bool,
}

impl View for BodyChannel {
    type V = BodyView;

    closed spec fn view(&self) -> BodyView {
        BodyView {
            pending: self.pending@,
            capacity: self.capacity as nat,
            end: self.end,
            consumer_gone: self.consumer_gone,
        }
    }
}

/// What became of a chunk that was sent.
#[derive(Debug, PartialEq, Eq)]
pub enum Sending {
    /// The chunk is in the channel, behind every chunk sent before it.
    Sent,
    /// The channel is full. The chunk comes back: the producer waits until
    /// the consumer has received a chunk, and sends it again.
    Full(Vec<u8>),
    /// The consumer has gone away: the producer stops producing.
    ConsumerGone,
    /// The channel has been closed by the producer; the chunk is discarded.
    Closed,
}

/// What the consumer receives.
#[derive(Debug, PartialEq, Eq)]
pub enum Receiving {
    /// The oldest chunk that was pending.
    Chunk(Vec<u8>),
    /// Nothing is pending and the channel is open: the consumer waits.
    Pending,
    /// Every chunk has been received and the body is complete.
    Ended,
    /// Every chunk sent has been received, and the request failed.
    Failed(RequestError),
}

/// What sending a chunk does to a channel.
pub open spec fn sending(before: BodyView, chunk: Vec<u8>, result: Sending, after: BodyView) -> bool {
    if before.consumer_gone {
        result == Sending::ConsumerGone && after == before
    } else if before.end != BodyEnd::Open {
        result == Sending::Closed && after == before
    } else if before.pending.len() >= before.capacity {
        result == Sending::Full(chunk) && after == before
    } else {
        result == Sending::Sent && after == (BodyView {
            pending: before.pending.push(chunk),
            ..before
        })
    }
}

/// What receiving does to a channel. Pending chunks come first, in order,
/// also after the channel was closed; only then is the end told.
pub open spec fn receiving(before: BodyView, result: Receiving, after: BodyView) -> bool {
    if before.pending.len() > 0 {
        result == Receiving::Chunk(before.pending[0]) && after == (BodyView {
            pending: before.pending.drop_first(),
            ..before
        })
    } else {
        &&& after == before
        &&& result == match before.end {
            BodyEnd::Open => Receiving::Pending,
            BodyEnd::Ended => Receiving::Ended,
            BodyEnd::Failed(error) => Receiving::Failed(error),
        }
    }
}

/// What closing does to a channel: the first close decides, a later one
/// changes nothing.
pub open spec fn closed_as(before: BodyView, end: BodyEnd, after: BodyView) -> bool {
    if before.end == BodyEnd::Open {
        after == (BodyView { end, ..before })
    } else {
        after == before
    }
}

impl BodyChannel {
    pub open spec fn wf(&self) -> bool {
        self@.wf()
    }

    /// An open, empty channel that holds at most `capacity` chunks.
    pub fn new(capacity: usize) -> (r: BodyChannel)
        ensures
            r.wf(),
            r@ == (BodyView {
                pending: Seq::empty(),
                capacity: capacity as nat,
                end: BodyEnd::Open,
                consumer_gone: false,
            }),
    {
        BodyChannel {
            pending: VecDeque::new(),
            capacity,
            end: BodyEnd::Open,
            consumer_gone: false,
        }
    }

    /// Sends a chunk. A full channel hands the chunk back and keeps what it
    /// holds.
    pub fn send(&mut self, chunk: Vec<u8>) -> (r: Sending)
        requires
            old(self).wf(),
        ensures
            final(self).wf(),
            sending(old(self)@, chunk, r, final(self)@),
    {
        if self.consumer_gone {
            return Sending::ConsumerGone;
        }
        match self.end {
            BodyEnd::Open => {},
            _ => {
                return Sending::Closed;
            },
        }
        if self.pending.len() >= self.capacity {
            return Sending::Full(chunk);
        }
        self.pending.push_back(chunk);
        Sending::Sent
    }

    /// Closes the channel after the last chunk: the body is complete.
    pub fn close(&mut self)
        requires
            old(self).wf(),
        ensures
            final(self).wf(),
            closed_as(old(self)@, BodyEnd::Ended, final(self)@),
    {
        match self.end {
            BodyEnd::Open => {
                self.end = BodyEnd::Ended;
            },
            _ => {},
        }
    }

    /// Closes the channel because the request failed.
    pub fn fail(&mut self, error: RequestError)
        requires
            old(self).wf(),
        ensures
            final(self).wf(),
            closed_as(old(self)@, BodyEnd::Failed(error), final(self)@),
    {
        match self.end {
            BodyEnd::Open => {
                self.end = BodyEnd::Failed(error);
            },
            _ => {},
        }
    }

    /// Receives the next chunk, or learns how the body ended.
    pub fn recv(&mut self) -> (r: Receiving)
        requires
            old(self).wf(),
        ensures
            final(self).wf(),
            receiving(old(self)@, r, final(self)@),
    {
        let ghost before = self@;
        match self.pending.pop_front() {
            Some(chunk) => {
                assert(self@.pending =~= before.pending.drop_first());
                Receiving::Chunk(chunk)
            },
            None => match self.end {
                BodyEnd::Open => Receiving::Pending,
                BodyEnd::Ended => Receiving::Ended,
                BodyEnd::Failed(error) => Receiving::Failed(error),
            },
        }
    }

    /// The consumer goes away: what is pending is discarded, and the
    /// producer learns of it at its next send.
    pub fn hang_up(&mut self)
        requires
            old(self).wf(),
        ensures
            final(self).wf(),
            final(self)@ == (BodyView {
                pending: Seq::empty(),
                consumer_gone: true,
                ..old(self)@
            }),
    {
        self.pending.clear();
        self.consumer_gone = true;
    }

    pub fn end(&self) -> (r: BodyEnd)
        ensures
            r == self@.end,
    {
        self.end
    }

    pub fn len(&self) -> (r: usize)
        ensures
            r == self@.pending.len(),
    {
        self.pending.len()
    }
}

/// What a consumer has of a body after some receives: the chunks it got, in
/// order, and how the body ended for it, where it has learned that.
pub struct Received {
    pub chunks: Seq<Vec<u8>>,
    pub end: BodyEnd,
}

/// What the consumer has after one more receive.
pub open spec fn after_receiving(got: Received, result: Receiving) -> Received {
    match result {
        Receiving::Chunk(chunk) => Received { chunks: got.chunks.push(chunk), ..got },
        Receiving::Pending => got,
        Receiving::Ended => Received { end: BodyEnd::Ended, ..got },
        Receiving::Failed(error) => Received { end: BodyEnd::Failed(error), ..got },
    }
}

/// A body that failed is never taken for a complete one. Once the producer
/// has closed the channel as failed, no receive tells the consumer that the
/// body ended, and no later close turns the failure into an end.
pub proof fn lemma_failed_body_never_ends(
    before: BodyView,
    error: RequestError,
    result: Receiving,
    after: BodyView,
)
    requires
        before.end == BodyEnd::Failed(error),
        receiving(before, result, after),
    ensures
        result != Receiving::Ended,
        after.end == BodyEnd::Failed(error),
        before.pending.len() == 0 ==> result == Receiving::Failed(error),
        forall|closed: BodyView| #[trigger]
            closed_as(after, BodyEnd::Ended, closed) ==> closed.end == BodyEnd::Failed(error),
{
}

/// Chunks arrive in the order in which they were produced, none lost and
/// none twice: what the consumer has got, followed by what is pending, is
/// what was sent. A send keeps this, with the chunk added where it was
/// taken.
pub proof fn lemma_send_keeps_order(
    sent: Seq<Vec<u8>>,
    got: Received,
    before: BodyView,
    chunk: Vec<u8>,
    result: Sending,
    after: BodyView,
)
    requires
        sent == got.chunks + before.pending,
        sending(before, chunk, result, after),
    ensures
        got.chunks + after.pending == if result == Sending::Sent {
            sent.push(chunk)
        } else {
            sent
        },
{
    if result == Sending::Sent {
        assert(sent.push(chunk) =~= got.chunks + after.pending);
    }
}

/// A receive keeps the order too: the chunk it hands out is the oldest that
/// was pending, and moves from what is pending to what the consumer has.
pub proof fn lemma_receive_keeps_order(
    sent: Seq<Vec<u8>>,
    got: Received,
    before: BodyView,
    result: Receiving,
    after: BodyView,
)
    requires
        sent == got.chunks + before.pending,
        receiving(before, result, after),
    ensures
        after_receiving(got, result).chunks + after.pending == sent,
{
    assert(after_receiving(got, result).chunks + after.pending =~= got.chunks + before.pending);
}

/// The consumer is told that the body ended only when the producer closed
/// it as complete and every chunk has been received.
pub proof fn lemma_end_means_complete(before: BodyView, result: Receiving, after: BodyView)
    requires
        receiving(before, result, after),
        result == Receiving::Ended,
    ensures
        before.end == BodyEnd::Ended,
        before.pending.len() == 0,
{
}

} // verus!
