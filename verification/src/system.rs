//! What holds of the host and its queue together, at every moment of every
//! run: stated as an invariant that each operation keeps.

use vstd::prelude::*;
use crate::host::{in_service, turn, HostAction, HostEvent, HostPhase, HostView};
use crate::queue::{admission, closing, taking, BussardMessage, Closing, Dispatch, QueueView};
use crate::request::RequestView;

verus! {

/// The invariant of host and queue. The queue is well formed; the ticket of
/// the request in service lies below the next ticket, so no request to come
/// will share it; and where the host has stopped, the queue is closed and
/// empty.
pub open spec fn system_inv(host: HostView, queue: QueueView) -> bool {
    &&& queue.wf()
    &&& match in_service(host.phase) {
        Some(ticket) => ticket < queue.next_ticket,
        None => true,
    }
    &&& host.phase == HostPhase::Stopped ==> queue.closed && queue.messages.len() == 0
}

/// A new host and a new queue satisfy the invariant.
pub proof fn lemma_system_starts_well(host: HostView, queue: QueueView)
    requires
        host.phase == HostPhase::Idle,
        queue.messages.len() == 0,
        queue.next_ticket == 0,
        !queue.closed,
    ensures
        system_inv(host, queue),
{
}

/// A turn of the host keeps the invariant.
pub proof fn lemma_turn_keeps_system(
    before: HostView,
    queue_before: QueueView,
    event: HostEvent,
    action: HostAction,
    after: HostView,
    queue_after: QueueView,
)
    requires
        system_inv(before, queue_before),
        turn(before, queue_before, event, action, after, queue_after),
    ensures
        system_inv(after, queue_after),
{
    if queue_after != queue_before {
        assert(queue_before.messages.len() > 0);
        assert(queue_after.messages == queue_before.messages.drop_first());
        assert forall|i: int| 0 <= i < queue_after.messages.len() implies queue_after.ticket_at(i)
            == queue_before.ticket_at(i + 1) && queue_after.messages[i]
            == queue_before.messages[i + 1] by {}
        assert(match queue_before.ticket_at(0) {
            Some(ticket) => ticket < queue_before.next_ticket,
            None => true,
        });
        assert(queue_after.wf());
    }
}

/// Offering a request keeps the invariant.
pub proof fn lemma_admission_keeps_system(
    host: HostView,
    queue_before: QueueView,
    req: RequestView,
    result: Dispatch,
    queue_after: QueueView,
)
    requires
        system_inv(host, queue_before),
        admission(queue_before, req, result, queue_after),
    ensures
        system_inv(host, queue_after),
{
    if queue_after != queue_before {
        assert forall|i: int| 0 <= i < queue_before.messages.len() implies queue_after.ticket_at(i)
            == queue_before.ticket_at(i) && queue_after.messages[i]
            == queue_before.messages[i] by {
            assert(queue_after.messages.drop_last()[i] == queue_after.messages[i]);
        }
        let last = queue_before.messages.len() as int;
        assert(queue_after.messages[last] == queue_after.messages.last());
        assert(queue_after.ticket_at(last) == Some(queue_before.next_ticket as u64));
        assert forall|i: int|
            0 <= i < queue_after.messages.len() && (
            #[trigger] queue_after.messages[i]) is Shutdown implies i == queue_after.messages.len()
            - 1 && queue_after.closed by {
            if i < last {
                assert(queue_before.messages[i] is Shutdown);
            }
        }
        assert forall|i: int| 0 <= i < queue_after.messages.len() implies match #[trigger] queue_after.ticket_at(
            i,
        ) {
            Some(ticket) => ticket < queue_after.next_ticket,
            None => true,
        } by {
            if i < last {
                assert(queue_before.ticket_at(i) == queue_after.ticket_at(i));
            }
        }
        assert forall|i: int, j: int| 0 <= i < j < queue_after.messages.len() implies match (
            #[trigger] queue_after.ticket_at(i),
            #[trigger] queue_after.ticket_at(j),
        ) {
            (Some(earlier), Some(later)) => earlier < later,
            _ => true,
        } by {
            assert(queue_before.ticket_at(i) == queue_after.ticket_at(i));
            if j < last {
                assert(queue_before.ticket_at(j) == queue_after.ticket_at(j));
            }
        }
        assert(queue_after.wf());
    }
}

/// Offering the sentinel keeps the invariant.
pub proof fn lemma_closing_keeps_system(
    host: HostView,
    queue_before: QueueView,
    result: Closing,
    queue_after: QueueView,
)
    requires
        system_inv(host, queue_before),
        closing(queue_before, result, queue_after),
    ensures
        system_inv(host, queue_after),
{
    if queue_after != queue_before {
        assert forall|i: int| 0 <= i < queue_before.messages.len() implies queue_after.ticket_at(i)
            == queue_before.ticket_at(i) && queue_after.messages[i]
            == queue_before.messages[i] by {}
        assert(queue_after.wf());
    }
}

/// Every request has a ticket of its own. The ticket under which a request
/// is admitted is neither the ticket of the request in service nor that of
/// any request that waits in the queue, so what the host does under a ticket
/// reaches the one request that was admitted under it.
pub proof fn lemma_ticket_is_fresh(
    host: HostView,
    queue_before: QueueView,
    req: RequestView,
    result: Dispatch,
    queue_after: QueueView,
    i: int,
)
    requires
        system_inv(host, queue_before),
        admission(queue_before, req, result, queue_after),
        result is Queued,
        0 <= i < queue_before.messages.len(),
    ensures
        result == Dispatch::Queued(queue_before.next_ticket as u64),
        in_service(host.phase) != Some(queue_before.next_ticket as u64),
        queue_before.ticket_at(i) != Some(queue_before.next_ticket as u64),
{
    assert(match queue_before.ticket_at(i) {
        Some(ticket) => ticket < queue_before.next_ticket,
        None => true,
    });
}

/// Two envelopes at different places of a queue have different tickets.
pub proof fn lemma_queued_tickets_differ(queue: QueueView, i: int, j: int)
    requires
        queue.wf(),
        0 <= i < j < queue.messages.len(),
        queue.ticket_at(i).is_some(),
        queue.ticket_at(j).is_some(),
    ensures
        queue.ticket_at(i) != queue.ticket_at(j),
{
}

/// A full queue holds a request back and loses nothing. Offered to an open
/// queue that is full, the request comes back as it was and the queue is
/// unchanged; it is neither admitted, nor rejected, nor dropped.
pub proof fn lemma_full_queue_holds_back(
    queue_before: QueueView,
    req: RequestView,
    result: Dispatch,
    queue_after: QueueView,
)
    requires
        queue_before.wf(),
        !queue_before.turns_away(),
        queue_before.is_full(),
        admission(queue_before, req, result, queue_after),
    ensures
        result is Full,
        result->Full_0@ == req,
        queue_after == queue_before,
{
}

/// Room comes back when the host takes a message: after a take from a queue
/// that held one, the queue is no longer full, and an open queue admits the
/// request that was held back, behind everything that waits.
pub proof fn lemma_take_makes_room(
    queue_before: QueueView,
    taken: Option<BussardMessage>,
    queue_mid: QueueView,
    req: RequestView,
    result: Dispatch,
    queue_after: QueueView,
)
    requires
        queue_before.wf(),
        queue_before.messages.len() > 0,
        taking(queue_before, taken, queue_mid),
        !queue_before.turns_away(),
        admission(queue_mid, req, result, queue_after),
    ensures
        !queue_mid.is_full(),
        result is Queued,
        queue_after.messages.drop_last() == queue_before.messages.drop_first(),
{
}

/// Messages leave the queue in the order in which they were admitted: a
/// take hands out the oldest, and what was admitted later stays behind it in
/// its order.
pub proof fn lemma_first_in_first_out(
    queue_before: QueueView,
    taken: Option<BussardMessage>,
    queue_after: QueueView,
    i: int,
)
    requires
        taking(queue_before, taken, queue_after),
        0 <= i < queue_after.messages.len(),
    ensures
        queue_before.messages.len() == queue_after.messages.len() + 1,
        taken == Some(queue_before.messages[0]),
        queue_after.messages[i] == queue_before.messages[i + 1],
{
}

/// After the sentinel has been admitted the queue takes nothing more: the
/// sentinel is the last message the host will ever take.
pub proof fn lemma_sentinel_is_last(
    queue_before: QueueView,
    req: RequestView,
    result: Dispatch,
    queue_after: QueueView,
)
    requires
        queue_before.closed,
        admission(queue_before, req, result, queue_after),
    ensures
        result is Rejected,
        queue_after == queue_before,
{
}

/// What has happened to the requests so far, by their tickets, each list
/// in the order of the events.
pub struct History {
    /// The requests that the queue admitted.
    pub admitted: Seq<u64>,
    /// The requests for which the application was invoked.
    pub invoked: Seq<u64>,
    /// The requests that were concluded, as complete or as failed.
    pub concluded: Seq<u64>,
}

/// The tickets of the envelopes among the messages, in their order.
pub open spec fn queued_tickets(messages: Seq<BussardMessage>) -> Seq<u64>
    decreases messages.len(),
{
    if messages.len() == 0 {
        Seq::empty()
    } else {
        match messages.last() {
            BussardMessage::Envelope(envelope) => queued_tickets(messages.drop_last()).push(
                envelope@.ticket,
            ),
            BussardMessage::Shutdown => queued_tickets(messages.drop_last()),
        }
    }
}

/// The history after an action of the host.
pub open spec fn after_action(history: History, action: HostAction) -> History {
    match action {
        HostAction::Invoke { ticket, .. } => History {
            invoked: history.invoked.push(ticket),
            ..history
        },
        HostAction::CloseClean { ticket } => History {
            concluded: history.concluded.push(ticket),
            ..history
        },
        HostAction::Fail { ticket, .. } => History {
            concluded: history.concluded.push(ticket),
            ..history
        },
        _ => history,
    }
}

/// The history after a request was offered to the queue.
pub open spec fn after_dispatch(history: History, result: Dispatch) -> History {
    match result {
        Dispatch::Queued(ticket) => History { admitted: history.admitted.push(ticket), ..history },
        _ => history,
    }
}

/// The order that the bridge keeps. Every admitted request has either been
/// invoked or waits in the queue, in the order of admission, none lost and
/// none twice. Every invoked request has been concluded, but for the one in
/// service. Tickets rise with admission, so no two requests share one.
pub open spec fn ordered(history: History, host: HostView, queue: QueueView) -> bool {
    &&& system_inv(host, queue)
    &&& history.admitted == history.invoked + queued_tickets(queue.messages)
    &&& history.invoked == match in_service(host.phase) {
        Some(ticket) => history.concluded.push(ticket),
        None => history.concluded,
    }
    &&& forall|i: int|
        0 <= i < history.admitted.len() ==> (#[trigger] history.admitted[i]) < queue.next_ticket
    &&& forall|i: int, j: int|
        0 <= i < j < history.admitted.len() ==> (#[trigger] history.admitted[i])
            < #[trigger] history.admitted[j]
}

proof fn lemma_tickets_without_first(messages: Seq<BussardMessage>)
    requires
        messages.len() > 0,
    ensures
        queued_tickets(messages) == match messages[0] {
            BussardMessage::Envelope(envelope) => seq![envelope@.ticket],
            BussardMessage::Shutdown => Seq::empty(),
        } + queued_tickets(messages.drop_first()),
    decreases messages.len(),
{
    let head = match messages[0] {
        BussardMessage::Envelope(envelope) => seq![envelope@.ticket],
        BussardMessage::Shutdown => Seq::empty(),
    };
    if messages.len() == 1 {
        assert(messages.drop_last() =~= Seq::empty());
        assert(messages.drop_first() =~= Seq::empty());
        assert(queued_tickets(messages) =~= head + queued_tickets(messages.drop_first()));
    } else {
        let front = messages.drop_last();
        lemma_tickets_without_first(front);
        assert(front.drop_first() =~= messages.drop_first().drop_last());
        assert(messages.drop_first().last() == messages.last());
        assert(front[0] == messages[0]);
        assert(queued_tickets(messages) =~= head + queued_tickets(messages.drop_first()));
    }
}

/// A turn of the host keeps the order.
pub proof fn lemma_turn_keeps_order(
    history: History,
    before: HostView,
    queue_before: QueueView,
    event: HostEvent,
    action: HostAction,
    after: HostView,
    queue_after: QueueView,
)
    requires
        ordered(history, before, queue_before),
        turn(before, queue_before, event, action, after, queue_after),
    ensures
        ordered(after_action(history, action), after, queue_after),
{
    lemma_turn_keeps_system(before, queue_before, event, action, after, queue_after);
    let next = after_action(history, action);
    if queue_after != queue_before {
        lemma_tickets_without_first(queue_before.messages);
        assert(next.admitted =~= next.invoked + queued_tickets(queue_after.messages));
    }
    assert(next.invoked =~= match in_service(after.phase) {
        Some(ticket) => next.concluded.push(ticket),
        None => next.concluded,
    });
}

/// Offering a request keeps the order.
pub proof fn lemma_dispatch_keeps_order(
    history: History,
    host: HostView,
    queue_before: QueueView,
    req: RequestView,
    result: Dispatch,
    queue_after: QueueView,
)
    requires
        ordered(history, host, queue_before),
        admission(queue_before, req, result, queue_after),
    ensures
        ordered(after_dispatch(history, result), host, queue_after),
{
    lemma_admission_keeps_system(host, queue_before, req, result, queue_after);
    let next = after_dispatch(history, result);
    if queue_after != queue_before {
        assert(next.admitted =~= next.invoked + queued_tickets(queue_after.messages));
    }
}

/// Offering the sentinel keeps the order.
pub proof fn lemma_closing_keeps_order(
    history: History,
    host: HostView,
    queue_before: QueueView,
    result: Closing,
    queue_after: QueueView,
)
    requires
        ordered(history, host, queue_before),
        closing(queue_before, result, queue_after),
    ensures
        ordered(history, host, queue_after),
{
    lemma_closing_keeps_system(host, queue_before, result, queue_after);
    if queue_after != queue_before {
        assert(queue_after.messages.drop_last() =~= queue_before.messages);
    }
}

/// One moment of a run: the host, the queue, and what has happened so far.
pub struct Moment {
    pub host: HostView,
    pub queue: QueueView,
    pub history: History,
}

/// The moment at which every run starts: an idle host, an empty and open
/// queue, and nothing admitted yet.
pub open spec fn is_start(moment: Moment) -> bool {
    &&& moment.host.phase == HostPhase::Idle
    &&& moment.queue.messages.len() == 0
    &&& moment.queue.next_ticket == 0
    &&& !moment.queue.closed
    &&& moment.history.admitted.len() == 0
    &&& moment.history.invoked.len() == 0
    &&& moment.history.concluded.len() == 0
}

/// The host takes a turn, on some event.
pub open spec fn host_moves(a: Moment, b: Moment) -> bool {
    exists|event: HostEvent, action: HostAction| #[trigger]
        turn(a.host, a.queue, event, action, b.host, b.queue) && b.history == after_action(
            a.history,
            action,
        )
}

/// A dispatcher offers some request to the queue.
pub open spec fn dispatcher_moves(a: Moment, b: Moment) -> bool {
    &&& b.host == a.host
    &&& exists|req: RequestView, result: Dispatch| #[trigger]
        admission(a.queue, req, result, b.queue) && b.history == after_dispatch(a.history, result)
}

/// The sentinel is offered to the queue.
pub open spec fn closer_moves(a: Moment, b: Moment) -> bool {
    &&& b.host == a.host
    &&& b.history == a.history
    &&& exists|result: Closing| #[trigger] closing(a.queue, result, b.queue)
}

/// A run: it starts at a start, and from each moment to the next either the
/// host takes a turn, or a request is offered, or the sentinel is offered,
/// in any interleaving and with any events.
pub open spec fn is_run(run: Seq<Moment>) -> bool {
    &&& run.len() > 0
    &&& is_start(run[0])
    &&& forall|i: int|
        0 <= i < run.len() - 1 ==> {
            ||| host_moves(#[trigger] run[i], run[i + 1])
            ||| dispatcher_moves(run[i], run[i + 1])
            ||| closer_moves(run[i], run[i + 1])
        }
}

/// Every moment of every run keeps the order.
pub proof fn lemma_every_run_is_ordered(run: Seq<Moment>, i: int)
    requires
        is_run(run),
        0 <= i < run.len(),
    ensures
        ordered(run[i].history, run[i].host, run[i].queue),
    decreases i,
{
    if i == 0 {
        let start = run[0];
        assert(start.history.admitted =~= start.history.invoked + queued_tickets(
            start.queue.messages,
        ));
        assert(start.history.invoked =~= start.history.concluded);
    } else {
        lemma_every_run_is_ordered(run, i - 1);
        let a = run[i - 1];
        let b = run[i];
        if host_moves(a, b) {
            let (event, action) = choose|event: HostEvent, action: HostAction| #[trigger]
                turn(a.host, a.queue, event, action, b.host, b.queue) && b.history
                    == after_action(a.history, action);
            lemma_turn_keeps_order(a.history, a.host, a.queue, event, action, b.host, b.queue);
        } else if dispatcher_moves(a, b) {
            let (req, result) = choose|req: RequestView, result: Dispatch| #[trigger]
                admission(a.queue, req, result, b.queue) && b.history == after_dispatch(
                    a.history,
                    result,
                );
            lemma_dispatch_keeps_order(a.history, a.host, a.queue, req, result, b.queue);
        } else {
            let result = choose|result: Closing| #[trigger] closing(a.queue, result, b.queue);
            lemma_closing_keeps_order(a.history, a.host, a.queue, result, b.queue);
        }
    }
}

/// No two invocations overlap. At every moment of every run all requests
/// invoked so far have been concluded, except the one in service, which is
/// the last that was invoked: the application is not invoked for a request
/// before the request before it has been concluded.
pub proof fn lemma_invocations_never_overlap(run: Seq<Moment>, i: int)
    requires
        is_run(run),
        0 <= i < run.len(),
    ensures
        match in_service(run[i].host.phase) {
            Some(ticket) => run[i].history.invoked == run[i].history.concluded.push(ticket),
            None => run[i].history.invoked == run[i].history.concluded,
        },
        run[i].history.invoked.len() <= run[i].history.concluded.len() + 1,
{
    lemma_every_run_is_ordered(run, i);
}

/// Requests are served in the order of their admission, each once, under a
/// ticket of its own: what has been invoked is the beginning of what has
/// been admitted, what waits in the queue is the rest, and the tickets
/// admitted are pairwise different.
pub proof fn lemma_served_in_admission_order(run: Seq<Moment>, i: int)
    requires
        is_run(run),
        0 <= i < run.len(),
    ensures
        run[i].history.admitted == run[i].history.invoked + queued_tickets(run[i].queue.messages),
        forall|j: int, k: int|
            0 <= j < k < run[i].history.admitted.len() ==> (#[trigger] run[i].history.admitted[j])
                != #[trigger] run[i].history.admitted[k],
{
    lemma_every_run_is_ordered(run, i);
}

/// Shutdown waits for everything queued before it. At a moment at which the
/// host has stopped, every request that was ever admitted has been invoked
/// and concluded, in the order of admission, and the queue is empty.
pub proof fn lemma_stopped_after_all_concluded(run: Seq<Moment>, i: int)
    requires
        is_run(run),
        0 <= i < run.len(),
        run[i].host.phase == HostPhase::Stopped,
    ensures
        run[i].history.concluded == run[i].history.admitted,
        run[i].history.invoked == run[i].history.admitted,
        run[i].queue.messages.len() == 0,
{
    lemma_every_run_is_ordered(run, i);
    assert(run[i].history.admitted =~= run[i].history.invoked);
}

} // verus!
