use tftp_codec::conn::Connection;
use tftp_codec::msg::AcknowledgementMessage;
use tftp_codec::msg::AnyMessage;
use tftp_codec::msg::DataMessage;
use tftp_codec::msg::ErrorMessage;
use tftp_codec::msg::ReadRequestMessage;
use tftp_codec::msg::ReadWriteRequestMessageMode;

#[test]
fn fresh_connection_starts_empty() {
    let c = Connection::new(1069, 69);
    assert_eq!(c.local_tid(), 1069);
    assert_eq!(c.remote_tid(), 69);
    assert_eq!(c.curr_seq(), 0);
    assert!(c.last_msg().is_none());
}

#[test]
fn zero_is_a_legal_identifier() {
    let c = Connection::new(0, 0);
    assert_eq!(c.local_tid(), 0);
    assert_eq!(c.remote_tid(), 0);
    assert_eq!(c.curr_seq(), 0);
}

#[test]
fn sequence_counts_recorded_messages() {
    let mut c = Connection::new(2000, 3000);
    let msgs = [
        AnyMessage::ReadRequest(ReadRequestMessage::new(
            "a.txt".to_owned(),
            ReadWriteRequestMessageMode::Octet,
        )),
        AnyMessage::Data(DataMessage::new(1, vec![1, 2, 3])),
        AnyMessage::Acknowledgement(AcknowledgementMessage::new(1)),
        AnyMessage::Error(ErrorMessage::new(4, "Illegal TFTP operation".to_owned())),
    ];
    let mut expected_seq = 0u16;
    for m in msgs {
        let copy = m.clone();
        c.add_msg(m);
        expected_seq += 1;
        assert_eq!(c.curr_seq(), expected_seq);
        assert_eq!(c.last_msg(), Some(copy));
    }
    // Identifiers are untouched by recording.
    assert_eq!(c.local_tid(), 2000);
    assert_eq!(c.remote_tid(), 3000);
}

#[test]
fn last_msg_returns_an_independent_copy() {
    let mut c = Connection::new(1, 2);
    c.add_msg(AnyMessage::Acknowledgement(AcknowledgementMessage::new(9)));
    let first = c.last_msg();
    let second = c.last_msg();
    assert_eq!(first, second);
    assert_eq!(
        first,
        Some(AnyMessage::Acknowledgement(AcknowledgementMessage::new(9)))
    );
}
