//! The bounded queue between the dispatching side and the host: first in,
//! first out, never dropping, with the shutdown sentinel as its last message.

use std::collections::VecDeque;
use vstd::prelude::*;
use crate::header::HeaderField;
use crate::request::{BussardRequest, RequestView};

verus! {

/// A request under way to the host, with the ticket that names it. Every
/// action the host takes for the request carries that ticket.
#[derive(Debug)]
pub struct AsyncBussardRequest {
    req: BussardRequest,
    ticket: u64,
}

/// A queued request as mathematical data.
pub struct EnvelopeView {
    pub req: RequestView,
    pub ticket: u64,
}

impl View for AsyncBussardRequest {
    type V = EnvelopeView;

    closed spec fn view(&self) -> EnvelopeView {
        EnvelopeView { req: self.req@, ticket: self.ticket }
    }
}

impl AsyncBussardRequest {
    pub fn new(req: BussardRequest, ticket: u64) -> (r: AsyncBussardRequest)
        ensures
            r@ == (EnvelopeView { req: req@, ticket }),
    {
        AsyncBussardRequest { req, ticket }
    }

    pub fn ticket(&self) -> (r: u64)
        ensures
            r == self@.ticket,
    {
        self.ticket
    }

    /// Takes the envelope apart into the request and its ticket.
    pub fn into_parts(self) -> (r: (BussardRequest, u64))
        ensures
            r.0@ == self@.req,
            r.1 == self@.ticket,
    {
        (self.req, self.ticket)
    }
}

/// What travels through the queue.
#[derive(Debug)]
pub enum BussardMessage {
    /// A request to serve.
    Envelope(AsyncBussardRequest),
    /// The sentinel that ends the host's loop.
    Shutdown,
}

/// A queue as mathematical data.
pub struct QueueView {
    /// The messages, the oldest first.
    pub messages: Seq<BussardMessage>,
    /// How many messages the queue holds at most.
    pub capacity: nat,
    /// The ticket that the next admitted request gets.
    pub next_ticket: nat,
    /// Whether the shutdown sentinel has been admitted.
    pub closed: bool,
}

impl QueueView {
    /// The ticket of the message at position `i`, where it is an envelope.
    pub open spec fn ticket_at(self, i: int) -> Option<u64> {
        match self.messages[i] {
            BussardMessage::Envelope(envelope) => Some(envelope@.ticket),
            BussardMessage::Shutdown => None,
        }
    }

    /// What holds of every queue: it is within its capacity; the sentinel
    /// stands only at its end, and only in a closed queue; the tickets of its
    /// envelopes rise strictly from the front to the back and lie below the
    /// next ticket.
    pub open spec fn wf(self) -> bool {
        &&& self.messages.len() <= self.capacity
        &&& self.next_ticket <= u64::MAX
        &&& forall|i: int|
            0 <= i < self.messages.len() && (#[trigger] self.messages[i]) is Shutdown ==> i
                == self.messages.len() - 1 && self.closed
        &&& forall|i: int|
            0 <= i < self.messages.len() ==> match #[trigger] self.ticket_at(i) {
                Some(ticket) => ticket < self.next_ticket,
                None => true,
            }
        &&& forall|i: int, j: int|
            0 <= i < j < self.messages.len() ==> match (
                #[trigger] self.ticket_at(i),
                #[trigger] self.ticket_at(j),
            ) {
                (Some(earlier), Some(later)) => earlier < later,
                _ => true,
            }
    }

    /// Whether a new request is turned away for good: after the sentinel,
    /// or when the tickets have run out.
    pub open spec fn turns_away(self) -> bool {
        self.closed || self.next_ticket >= u64::MAX
    }

    pub open spec fn is_full(self) -> bool {
        self.messages.len() >= self.capacity
    }
}

/// The bounded first-in-first-out queue of the host.
#[derive(Debug)]
pub struct HostQueue {
    messages: VecDeque<BussardMessage>,
    capacity: usize,
    next_ticket: u64,
    closed: bool,
}

impl View for HostQueue {
    type V = QueueView;

    closed spec fn view(&self) -> QueueView {
        QueueView {
            messages: self.messages@,
            capacity: self.capacity as nat,
            next_ticket: self.next_ticket as nat,
            closed: self.closed,
        }
    }
}

/// What became of a request that was offered to the queue.
#[derive(Debug)]
pub enum Dispatch {
    /// The request is in the queue, under this ticket.
    Queued(u64),
    /// The queue is full. The request comes back unchanged: the caller waits
    /// until the host has taken a message, and offers it again.
    Full(BussardRequest),
    /// The queue takes no more requests. The request comes back unchanged.
    Rejected(BussardRequest),
}

/// What became of the shutdown sentinel that was offered to the queue.
#[derive(Debug, Clone, Copy, PartialEq, Eq, Structural)]
pub enum Closing {
    /// The sentinel is in the queue, behind everything admitted before it.
    Queued,
    /// The queue is full: the caller waits and offers the sentinel again.
    Full,
    /// The sentinel was admitted before.
    AlreadyClosed,
}

/// What offering a request with the view `req` does to a queue.
pub open spec fn admission(before: QueueView, req: RequestView, result: Dispatch, after: QueueView) -> bool {
    if before.turns_away() {
        &&& result matches Dispatch::Rejected(back)
        &&& back@ == req
        &&& after == before
    } else if before.is_full() {
        &&& result matches Dispatch::Full(back)
        &&& back@ == req
        &&& after == before
    } else {
        &&& result == Dispatch::Queued(before.next_ticket as u64)
        &&& after.messages.len() == before.messages.len() + 1
        &&& after.messages.drop_last() == before.messages
        &&& after.messages.last() matches BussardMessage::Envelope(envelope)
        &&& envelope@ == (EnvelopeView { req, ticket: before.next_ticket as u64 })
        &&& after.capacity == before.capacity
        &&& after.next_ticket == before.next_ticket + 1
        &&& after.closed == before.closed
    }
}

/// What offering the shutdown sentinel does to a queue.
pub open spec fn closing(before: QueueView, result: Closing, after: QueueView) -> bool {
    if before.closed {
        result == Closing::AlreadyClosed && after == before
    } else if before.is_full() {
        result == Closing::Full && after == before
    } else {
        &&& result == Closing::Queued
        &&& after == (QueueView {
            messages: before.messages.push(BussardMessage::Shutdown),
            closed: true,
            ..before
        })
    }
}

/// What taking a message does to a queue: the oldest message leaves, the
/// others keep their order.
pub open spec fn taking(before: QueueView, result: Option<BussardMessage>, after: QueueView) -> bool {
    if before.messages.len() == 0 {
        result.is_none() && after == before
    } else {
        &&& result == Some(before.messages[0])
        &&& after == (QueueView { messages: before.messages.drop_first(), ..before })
    }
}

impl HostQueue {
    /// Whether the queue is what every queue built by this module is.
    pub open spec fn wf(&self) -> bool {
        self@.wf()
    }

    /// An empty, open queue that holds at most `capacity` messages.
    pub fn new(capacity: usize) -> (r: HostQueue)
        ensures
            r@ == (QueueView {
                messages: Seq::empty(),
                capacity: capacity as nat,
                next_ticket: 0,
                closed: false,
            }),
            r.wf(),
    {
        HostQueue { messages: VecDeque::new(), capacity, next_ticket: 0, closed: false }
    }

    pub fn len(&self) -> (r: usize)
        ensures
            r == self@.messages.len(),
    {
        self.messages.len()
    }

    pub fn capacity(&self) -> (r: usize)
        ensures
            r == self@.capacity,
    {
        self.capacity
    }

    pub fn is_full(&self) -> (r: bool)
        ensures
            r == self@.is_full(),
    {
        self.messages.len() >= self.capacity
    }

    pub fn is_closed(&self) -> (r: bool)
        ensures
            r == self@.closed,
    {
        self.closed
    }

    /// Offers a request to the queue. It is admitted at the back, under a
    /// ticket of its own, where the queue is open and has room. Else it comes
    /// back unchanged and the queue stays as it was: a full queue never
    /// drops a request and never fails it.
    pub fn offer(&mut self, req: BussardRequest) -> (r: Dispatch)
        requires
            old(self).wf(),
        ensures
            final(self).wf(),
            admission(old(self)@, req@, r, final(self)@),
    {
        if self.closed || self.next_ticket == u64::MAX {
            return Dispatch::Rejected(req);
        }
        if self.messages.len() >= self.capacity {
            return Dispatch::Full(req);
        }
        let ticket: u64 = self.next_ticket;
        let ghost before = self@;
        self.next_ticket = ticket + 1;
        self.messages.push_back(BussardMessage::Envelope(AsyncBussardRequest::new(req, ticket)));
        proof {
            let after = self@;
            assert(after.messages.drop_last() =~= before.messages);
            assert forall|i: int| 0 <= i < after.messages.len() - 1 implies after.ticket_at(i)
                == before.ticket_at(i) && after.messages[i] == before.messages[i] by {}
            assert(after.wf());
        }
        Dispatch::Queued(ticket)
    }

    /// Offers the shutdown sentinel to the queue. It is admitted once, behind
    /// every message admitted before it; from then on the queue turns new
    /// requests away.
    pub fn shutdown(&mut self) -> (r: Closing)
        requires
            old(self).wf(),
        ensures
            final(self).wf(),
            closing(old(self)@, r, final(self)@),
    {
        if self.closed {
            return Closing::AlreadyClosed;
        }
        if self.messages.len() >= self.capacity {
            return Closing::Full;
        }
        let ghost before = self@;
        self.closed = true;
        self.messages.push_back(BussardMessage::Shutdown);
        proof {
            let after = self@;
            assert forall|i: int| 0 <= i < after.messages.len() - 1 implies after.ticket_at(i)
                == before.ticket_at(i) && after.messages[i] == before.messages[i] by {}
            assert(after.wf());
        }
        Closing::Queued
    }

    /// Takes the oldest message out of the queue.
    pub fn take(&mut self) -> (r: Option<BussardMessage>)
        requires
            old(self).wf(),
        ensures
            final(self).wf(),
            taking(old(self)@, r, final(self)@),
    {
        let ghost before = self@;
        let r = self.messages.pop_front();
        proof {
            let after = self@;
            if before.messages.len() > 0 {
                assert(after.messages =~= before.messages.drop_first());
                assert forall|i: int| 0 <= i < after.messages.len() implies after.ticket_at(i)
                    == before.ticket_at(i + 1) && after.messages[i] == before.messages[i + 1] by {}
                assert(after.wf());
            }
        }
        r
    }
}

/// The entry point for one request: builds the request from the method,
/// path, headers and fully buffered body, and offers it to the queue.
pub fn dispatch_req(
    path: String,
    header_map: Vec<HeaderField>,
    method: String,
    body: Vec<u8>,
    sender: &mut HostQueue,
) -> (r: Dispatch)
    requires
        old(sender).wf(),
    ensures
        final(sender).wf(),
        admission(
            old(sender)@,
            RequestView {
                path: path@,
                headers: header_map@,
                method: method@,
                body: body@,
                cursor: 0,
            },
            r,
            final(sender)@,
        ),
{
    let req = BussardRequest::new(path, header_map, method, body);
    sender.offer(req)
}

} // verus!
