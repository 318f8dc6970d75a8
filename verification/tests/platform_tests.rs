use mail_slot::Error;
use mail_slot::mac::{port_outcome, receive_outcome, send_outcome};
use mail_slot::windows::{MAILSLOT_NO_MESSAGE, check_message_size, interpret_mailslot_info};

#[test]
fn info_query_failure_propagates_an_io_error() {
    match interpret_mailslot_info(false, 0, 0) {
        Err(Error::Io { .. }) => {}
        _ => panic!("expected the OS error to propagate"),
    }
}

#[test]
fn info_query_sentinel_means_no_message() {
    let got = interpret_mailslot_info(true, MAILSLOT_NO_MESSAGE, 3).unwrap();
    assert!(got.is_none());
}

#[test]
fn info_query_zero_count_means_no_message() {
    let got = interpret_mailslot_info(true, 16, 0).unwrap();
    assert!(got.is_none());
}

#[test]
fn info_query_reports_the_exact_pending_length() {
    let got = interpret_mailslot_info(true, 42, 2).unwrap();
    assert_eq!(got, Some(42));
}

#[test]
fn size_check_rejects_only_over_ceiling_when_enforcing() {
    assert!(check_message_size(true, 424).is_ok());
    assert!(check_message_size(false, 100_000).is_ok());
    match check_message_size(true, 425) {
        Err(Error::MessageTooLarge(size)) => assert_eq!(size, 425),
        _ => panic!("expected the over-ceiling length to be rejected"),
    }
}

#[test]
fn receive_timeout_is_no_message_not_an_error() {
    let got = receive_outcome(0x1000_4003, vec![1, 2, 3]).unwrap();
    assert!(got.is_none());
}

#[test]
fn receive_success_hands_the_message_out_whole() {
    let got = receive_outcome(0, vec![1, 2, 3]).unwrap();
    assert_eq!(got, Some(vec![1, 2, 3]));
}

#[test]
fn receive_failure_is_translated() {
    match receive_outcome(1100, vec![]) {
        Err(Error::Unknown(text)) => assert_eq!(text, "BOOTSTRAP_NOT_PRIVILEGED"),
        _ => panic!("expected a translated platform error"),
    }
}

#[test]
fn send_outcome_by_code() {
    assert!(send_outcome(0).is_ok());
    match send_outcome(1101) {
        Err(Error::Unknown(text)) => assert_eq!(text, "BOOTSTRAP_NAME_IN_USE"),
        _ => panic!("expected a translated platform error"),
    }
}

#[test]
fn port_outcome_by_code() {
    assert_eq!(port_outcome(0, 7).unwrap(), 7);
    match port_outcome(1103, 7) {
        Err(Error::Unknown(text)) => assert_eq!(text, "BOOTSTRAP_SERVICE_ACTIVE"),
        _ => panic!("expected a translated platform error"),
    }
}
