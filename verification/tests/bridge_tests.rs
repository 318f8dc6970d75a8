use mail_slot::Channel;
use mail_slot::Error;
use mail_slot::bridge::{MessagePoll, bridge_poll, poll_channel};

#[test]
fn async_single_shot_fifo() {
    // N messages sent, none read synchronously: N awaits resolve each
    // exactly once, in FIFO order, and the next poll stays pending.
    let mut channel = Channel::new();
    channel.send(true, b"one").unwrap();
    channel.send(true, b"two").unwrap();
    channel.send(true, b"three").unwrap();
    let expected: Vec<&[u8]> = vec![b"one", b"two", b"three"];
    for want in expected {
        match poll_channel(&mut channel) {
            MessagePoll::Ready(msg) => assert_eq!(msg.as_slice(), want),
            _ => panic!("expected the suspension to resolve with a message"),
        }
    }
    assert!(matches!(poll_channel(&mut channel), MessagePoll::Pending));
}

#[test]
fn poll_on_empty_channel_stays_pending() {
    let mut channel = Channel::new();
    assert!(matches!(poll_channel(&mut channel), MessagePoll::Pending));
    assert!(matches!(poll_channel(&mut channel), MessagePoll::Pending));
}

#[test]
fn bridge_resolves_with_a_pending_message() {
    match bridge_poll(Ok(Some(b"payload".to_vec()))) {
        MessagePoll::Ready(msg) => assert_eq!(msg.as_slice(), b"payload"),
        _ => panic!("expected the suspension to resolve"),
    }
}

#[test]
fn bridge_reports_still_pending_on_no_message() {
    assert!(matches!(bridge_poll(Ok(None)), MessagePoll::Pending));
}

#[test]
fn bridge_resolves_with_the_error_without_retry() {
    let outcome: Result<Option<Vec<u8>>, Error> = Err(Error::Unknown("boom".to_string()));
    match bridge_poll(outcome) {
        MessagePoll::Failed(Error::Unknown(text)) => assert_eq!(text, "boom"),
        _ => panic!("expected the suspension to resolve with the error"),
    }
}
