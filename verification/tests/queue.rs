use bussard::error::RequestError;
use bussard::queue::{
    dispatch_req, AsyncBussardRequest, BussardMessage, Closing, Dispatch, HostQueue,
};
use bussard::lifecycle::{RequestSignal, RequestState};
use bussard::request::BussardRequest;

fn request(path: &str) -> BussardRequest {
    BussardRequest::new(path.to_owned(), Vec::new(), "GET".to_owned(), path.as_bytes().to_vec())
}

fn offer(queue: &mut HostQueue, path: &str) -> Dispatch {
    dispatch_req(path.to_owned(), Vec::new(), "GET".to_owned(), path.as_bytes().to_vec(), queue)
}

fn take_path(queue: &mut HostQueue) -> (String, u64) {
    match queue.take() {
        Some(BussardMessage::Envelope(envelope)) => {
            let (req, ticket) = envelope.into_parts();
            (req.path().to_owned(), ticket)
        }
        other => panic!("{:?}", other),
    }
}

#[test]
fn new_queue_is_empty_and_open() {
    let mut queue = HostQueue::new(1024);
    assert_eq!(queue.len(), 0);
    assert_eq!(queue.capacity(), 1024);
    assert!(!queue.is_full());
    assert!(!queue.is_closed());
    assert!(queue.take().is_none());
}

#[test]
fn messages_leave_in_the_order_they_came() {
    let mut queue = HostQueue::new(8);
    for path in ["/a", "/b", "/c"] {
        assert!(matches!(offer(&mut queue, path), Dispatch::Queued(_)));
    }
    assert_eq!(queue.len(), 3);
    assert_eq!(take_path(&mut queue), ("/a".to_owned(), 0));
    assert!(matches!(offer(&mut queue, "/d"), Dispatch::Queued(3)));
    assert_eq!(take_path(&mut queue), ("/b".to_owned(), 1));
    assert_eq!(take_path(&mut queue), ("/c".to_owned(), 2));
    assert_eq!(take_path(&mut queue), ("/d".to_owned(), 3));
    assert!(queue.take().is_none());
}

#[test]
fn full_queue_hands_the_request_back_and_admits_it_later() {
    let mut queue = HostQueue::new(2);
    assert!(matches!(offer(&mut queue, "/1"), Dispatch::Queued(0)));
    assert!(matches!(offer(&mut queue, "/2"), Dispatch::Queued(1)));
    assert!(queue.is_full());
    let held = match offer(&mut queue, "/3") {
        Dispatch::Full(req) => req,
        other => panic!("{:?}", other),
    };
    assert_eq!(held.path(), "/3");
    assert_eq!(held.method(), "GET");
    assert_eq!(held.body(), b"/3");
    assert_eq!(held.position(), 0);
    assert_eq!(queue.len(), 2);
    let held = match queue.offer(held) {
        Dispatch::Full(req) => req,
        other => panic!("{:?}", other),
    };
    assert_eq!(take_path(&mut queue), ("/1".to_owned(), 0));
    assert!(!queue.is_full());
    assert!(matches!(queue.offer(held), Dispatch::Queued(2)));
    assert_eq!(take_path(&mut queue), ("/2".to_owned(), 1));
    assert_eq!(take_path(&mut queue), ("/3".to_owned(), 2));
}

#[test]
fn queue_without_room_is_always_full() {
    let mut queue = HostQueue::new(0);
    assert!(queue.is_full());
    assert!(matches!(offer(&mut queue, "/"), Dispatch::Full(_)));
    assert_eq!(queue.shutdown(), Closing::Full);
    assert!(!queue.is_closed());
}

#[test]
fn shutdown_goes_behind_what_is_queued_and_closes_the_queue() {
    let mut queue = HostQueue::new(4);
    offer(&mut queue, "/a");
    offer(&mut queue, "/b");
    assert_eq!(queue.shutdown(), Closing::Queued);
    assert!(queue.is_closed());
    assert_eq!(queue.len(), 3);
    match offer(&mut queue, "/late") {
        Dispatch::Rejected(req) => assert_eq!(req.path(), "/late"),
        other => panic!("{:?}", other),
    }
    assert_eq!(queue.shutdown(), Closing::AlreadyClosed);
    assert_eq!(queue.len(), 3);
    assert_eq!(take_path(&mut queue).0, "/a");
    assert_eq!(take_path(&mut queue).0, "/b");
    assert!(matches!(queue.take(), Some(BussardMessage::Shutdown)));
    assert!(queue.take().is_none());
    assert!(matches!(offer(&mut queue, "/later"), Dispatch::Rejected(_)));
}

#[test]
fn shutdown_waits_for_room() {
    let mut queue = HostQueue::new(1);
    offer(&mut queue, "/a");
    assert_eq!(queue.shutdown(), Closing::Full);
    assert!(!queue.is_closed());
    assert!(matches!(offer(&mut queue, "/b"), Dispatch::Full(_)));
    take_path(&mut queue);
    assert_eq!(queue.shutdown(), Closing::Queued);
}

#[test]
fn tickets_rise_with_every_admission() {
    let mut queue = HostQueue::new(1);
    for expected in 0u64..100 {
        assert!(matches!(offer(&mut queue, "/"), Dispatch::Queued(t) if t == expected));
        assert!(matches!(offer(&mut queue, "/"), Dispatch::Full(_)));
        assert_eq!(take_path(&mut queue).1, expected);
    }
}

#[test]
fn envelope_keeps_request_and_ticket() {
    let envelope = AsyncBussardRequest::new(request("/x"), 7);
    assert_eq!(envelope.ticket(), 7);
    let (req, ticket) = envelope.into_parts();
    assert_eq!(ticket, 7);
    assert_eq!(req.path(), "/x");
}

#[test]
fn request_walks_through_its_states() {
    let mut state = RequestState::Dispatched;
    let path = [
        (RequestSignal::Admitted, RequestState::Queued),
        (RequestSignal::Invoked, RequestState::Invoked),
        (RequestSignal::Prelude, RequestState::HeaderSet),
        (RequestSignal::Chunk, RequestState::Streaming),
        (RequestSignal::Chunk, RequestState::Streaming),
        (RequestSignal::Closed, RequestState::Completed),
    ];
    for (signal, expected) in path {
        assert!(!state.is_final());
        state = state.advance(signal);
        assert_eq!(state, expected);
    }
    assert!(state.is_final());
    assert_eq!(
        state.advance(RequestSignal::Failed(RequestError::Application)),
        RequestState::Completed
    );
}

#[test]
fn failure_is_reachable_from_every_state() {
    let states = [
        RequestState::Dispatched,
        RequestState::Queued,
        RequestState::Invoked,
        RequestState::HeaderSet,
        RequestState::Streaming,
    ];
    for state in states {
        for error in [
            RequestError::Application,
            RequestError::ProtocolContract,
            RequestError::ChannelClosed,
        ] {
            let failed = state.advance(RequestSignal::Failed(error));
            assert_eq!(failed, RequestState::Failed(error));
            assert_eq!(failed.advance(RequestSignal::Closed), RequestState::Failed(error));
            assert_eq!(failed.advance(RequestSignal::Chunk), RequestState::Failed(error));
        }
    }
    assert_eq!(
        RequestState::Dispatched.advance(RequestSignal::Rejected),
        RequestState::Failed(RequestError::QueueClosed)
    );
}

#[test]
fn signals_out_of_turn_change_nothing() {
    assert_eq!(RequestState::Dispatched.advance(RequestSignal::Closed), RequestState::Dispatched);
    assert_eq!(RequestState::Queued.advance(RequestSignal::Chunk), RequestState::Queued);
    assert_eq!(RequestState::Queued.advance(RequestSignal::Closed), RequestState::Queued);
    assert_eq!(RequestState::Invoked.advance(RequestSignal::Closed), RequestState::Invoked);
    assert_eq!(RequestState::Invoked.advance(RequestSignal::Admitted), RequestState::Invoked);
    assert_eq!(RequestState::Queued.advance(RequestSignal::Rejected), RequestState::Queued);
    assert_eq!(RequestState::HeaderSet.advance(RequestSignal::Closed), RequestState::Completed);
}
