use bussard::body::{BodyChannel, BodyEnd, Receiving, Sending};
use bussard::error::{RequestError, ValidationError};
use bussard::response::failure_prelude;

#[test]
fn chunks_arrive_in_the_order_sent() {
    let mut body = BodyChannel::new(16);
    for chunk in [&b"one"[..], b"two", b"three"] {
        assert_eq!(body.send(chunk.to_vec()), Sending::Sent);
    }
    assert_eq!(body.len(), 3);
    assert_eq!(body.recv(), Receiving::Chunk(b"one".to_vec()));
    assert_eq!(body.send(b"four".to_vec()), Sending::Sent);
    assert_eq!(body.recv(), Receiving::Chunk(b"two".to_vec()));
    assert_eq!(body.recv(), Receiving::Chunk(b"three".to_vec()));
    assert_eq!(body.recv(), Receiving::Chunk(b"four".to_vec()));
    assert_eq!(body.recv(), Receiving::Pending);
    assert_eq!(body.end(), BodyEnd::Open);
}

#[test]
fn full_channel_hands_the_chunk_back() {
    let mut body = BodyChannel::new(2);
    assert_eq!(body.send(vec![1]), Sending::Sent);
    assert_eq!(body.send(vec![2]), Sending::Sent);
    assert_eq!(body.send(vec![3]), Sending::Full(vec![3]));
    assert_eq!(body.send(vec![3]), Sending::Full(vec![3]));
    assert_eq!(body.len(), 2);
    assert_eq!(body.recv(), Receiving::Chunk(vec![1]));
    assert_eq!(body.send(vec![3]), Sending::Sent);
    assert_eq!(body.recv(), Receiving::Chunk(vec![2]));
    assert_eq!(body.recv(), Receiving::Chunk(vec![3]));
}

#[test]
fn clean_close_is_told_after_the_last_chunk() {
    let mut body = BodyChannel::new(4);
    body.send(b"all".to_vec());
    body.close();
    assert_eq!(body.end(), BodyEnd::Ended);
    assert_eq!(body.recv(), Receiving::Chunk(b"all".to_vec()));
    assert_eq!(body.recv(), Receiving::Ended);
    assert_eq!(body.recv(), Receiving::Ended);
    assert_eq!(body.send(b"late".to_vec()), Sending::Closed);
    assert_eq!(body.recv(), Receiving::Ended);
}

#[test]
fn failure_is_told_after_the_chunks_that_came_before_it() {
    let mut body = BodyChannel::new(4);
    body.send(b"first".to_vec());
    body.fail(RequestError::Application);
    assert_eq!(body.recv(), Receiving::Chunk(b"first".to_vec()));
    assert_eq!(body.recv(), Receiving::Failed(RequestError::Application));
    body.close();
    assert_eq!(body.end(), BodyEnd::Failed(RequestError::Application));
    assert_eq!(body.recv(), Receiving::Failed(RequestError::Application));
}

#[test]
fn first_close_decides() {
    let mut body = BodyChannel::new(1);
    body.close();
    body.fail(RequestError::ChannelClosed);
    assert_eq!(body.end(), BodyEnd::Ended);
    assert_eq!(body.recv(), Receiving::Ended);

    let mut body = BodyChannel::new(1);
    body.fail(RequestError::Validation(ValidationError::StatusLine));
    body.fail(RequestError::Application);
    assert_eq!(
        body.recv(),
        Receiving::Failed(RequestError::Validation(ValidationError::StatusLine))
    );
}

#[test]
fn producer_learns_that_the_consumer_has_gone() {
    let mut body = BodyChannel::new(4);
    body.send(vec![1]);
    body.send(vec![2]);
    body.hang_up();
    assert_eq!(body.len(), 0);
    assert_eq!(body.send(vec![3]), Sending::ConsumerGone);
    assert_eq!(body.len(), 0);
    body.fail(RequestError::ChannelClosed);
    assert_eq!(body.recv(), Receiving::Failed(RequestError::ChannelClosed));
}

#[test]
fn channel_without_room_is_always_full() {
    let mut body = BodyChannel::new(0);
    assert_eq!(body.send(vec![9]), Sending::Full(vec![9]));
    assert_eq!(body.recv(), Receiving::Pending);
}

#[test]
fn response_generated_for_a_failure() {
    for error in [
        RequestError::Application,
        RequestError::ProtocolContract,
        RequestError::ChannelClosed,
        RequestError::Validation(ValidationError::HeaderName(3)),
        RequestError::Validation(ValidationError::StatusLine),
    ] {
        let prelude = failure_prelude(error);
        assert_eq!(prelude.status_code, 500);
        assert_eq!(prelude.reason, b"Internal Server Error");
        assert!(prelude.headers.is_empty());
    }
    let prelude = failure_prelude(RequestError::QueueClosed);
    assert_eq!(prelude.status_code, 503);
    assert_eq!(prelude.reason, b"Service Unavailable");
    assert!(prelude.headers.is_empty());
}
