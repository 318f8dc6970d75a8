use mail_slot::Channel;
use mail_slot::Error;

#[test]
fn round_trip() {
    let messages: Vec<&[u8]> = vec![b"one", b"two", b"three"];
    let mut channel = Channel::new();
    for msg in &messages {
        channel.send(true, msg).unwrap();
    }
    let mut rec = vec![];
    while let Some(msg) = channel.try_receive().unwrap() {
        rec.push(msg);
    }
    assert_eq!(messages[0], rec[0].as_slice());
    assert_eq!(messages[1], rec[1].as_slice());
    assert_eq!(messages[2], rec[2].as_slice());
}

#[test]
fn concurrent_senders_arrival_order() {
    // Sender A writes "a", sender B writes "b", sender A writes "c":
    // the receiver observes arrival order, whichever sender wrote.
    let mut channel = Channel::new();
    channel.send(true, b"a").unwrap();
    channel.send(false, b"b").unwrap();
    channel.send(true, b"c").unwrap();
    let rec = channel.drain();
    assert_eq!(rec.len(), 3);
    assert_eq!(rec[0].as_slice(), b"a");
    assert_eq!(rec[1].as_slice(), b"b");
    assert_eq!(rec[2].as_slice(), b"c");
}

#[test]
fn size_ceiling_rejected_send_names_size() {
    let mut channel = Channel::new();
    let big = vec![7u8; 425];
    match channel.send(true, &big) {
        Err(Error::MessageTooLarge(size)) => assert_eq!(size, 425),
        _ => panic!("expected the over-ceiling send to be rejected"),
    }
}

#[test]
fn size_ceiling_rejected_send_leaves_queue_unchanged() {
    let mut channel = Channel::new();
    let big = vec![7u8; 425];
    assert!(channel.send(true, &big).is_err());
    let rec = channel.drain();
    assert!(rec.is_empty());
}

#[test]
fn size_ceiling_boundary_length_is_accepted() {
    let mut channel = Channel::new();
    let at_ceiling = vec![7u8; 424];
    channel.send(true, &at_ceiling).unwrap();
    let rec = channel.drain();
    assert_eq!(rec.len(), 1);
    assert_eq!(rec[0].len(), 424);
}

#[test]
fn pass_through_sender_performs_no_size_check() {
    let mut channel = Channel::new();
    let big = vec![7u8; 1000];
    channel.send(false, &big).unwrap();
    let rec = channel.drain();
    assert_eq!(rec.len(), 1);
    assert_eq!(rec[0], big);
}

#[test]
fn empty_queue_idempotence() {
    let mut channel = Channel::new();
    for _ in 0..3 {
        let got = channel.try_receive().unwrap();
        assert!(got.is_none());
    }
}

#[test]
fn try_receive_removes_exactly_one_message() {
    let mut channel = Channel::new();
    channel.send(true, b"first").unwrap();
    channel.send(true, b"second").unwrap();
    let first = channel.try_receive().unwrap().unwrap();
    assert_eq!(first.as_slice(), b"first");
    let second = channel.try_receive().unwrap().unwrap();
    assert_eq!(second.as_slice(), b"second");
    assert!(channel.try_receive().unwrap().is_none());
}

#[test]
fn channel_is_usable_after_drain() {
    let mut channel = Channel::new();
    channel.send(true, b"early").unwrap();
    let _ = channel.drain();
    channel.send(true, b"late").unwrap();
    let rec = channel.drain();
    assert_eq!(rec.len(), 1);
    assert_eq!(rec[0].as_slice(), b"late");
}
