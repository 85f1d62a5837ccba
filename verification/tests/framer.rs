use kameloso::framer::MessageBuffer;
use kameloso::message::{DecodeError, Message};

#[test]
fn test_message_buffer_multiple_lines() {
    let mut msg_buf = MessageBuffer::new();

    let messages = msg_buf.insert(
        br#"{"request_id":1,"error":"success"}
            {"request_id":2,"error":"success"}
            {"request_id":3,"error":"error message"}
            {"request_id":4,"error":"test"}"#,
    );

    assert_eq!(messages.len(), 3);
    match &messages[0] {
        Ok(Message::Response { request_id, data }) => {
            assert_eq!(*request_id, 1);
            assert_eq!(data.as_ref().unwrap(), "null");
        }
        other => panic!("unexpected message: {other:?}"),
    }
    match &messages[1] {
        Ok(Message::Response { request_id, data }) => {
            assert_eq!(*request_id, 2);
            assert_eq!(data.as_ref().unwrap(), "null");
        }
        other => panic!("unexpected message: {other:?}"),
    }
    match &messages[2] {
        Ok(Message::Response { request_id, data }) => {
            assert_eq!(*request_id, 3);
            assert!(data.is_err());
        }
        other => panic!("unexpected message: {other:?}"),
    }

    let messages = msg_buf.insert(b"\n");

    assert_eq!(messages.len(), 1);
    match &messages[0] {
        Ok(Message::Response { request_id, data }) => {
            assert_eq!(*request_id, 4);
            assert_eq!(data.as_ref().unwrap_err(), "test");
        }
        other => panic!("unexpected message: {other:?}"),
    }
}

/// Feeding byte chunks in any split yields the same messages as feeding the
/// concatenation at once.
#[test]
fn chunk_boundaries_are_immaterial() {
    let stream: &[u8] = b"{\"request_id\":1,\"error\":\"success\"}\n{\"event\":\"pause\"}\n";

    let mut whole = MessageBuffer::new();
    let all_at_once = whole.insert(stream);

    // Every two-way split of the same bytes.
    for cut in 0..=stream.len() {
        let mut buf = MessageBuffer::new();
        let mut collected = buf.insert(&stream[..cut]);
        collected.extend(buf.insert(&stream[cut..]));
        assert_eq!(collected.len(), all_at_once.len());
        for (a, b) in collected.iter().zip(all_at_once.iter()) {
            assert_eq!(format!("{a:?}"), format!("{b:?}"));
        }
    }

    // Byte-by-byte as the extreme split.
    let mut buf = MessageBuffer::new();
    let mut collected = Vec::new();
    for b in stream {
        collected.extend(buf.insert(&[*b]));
    }
    assert_eq!(collected.len(), all_at_once.len());
    for (a, b) in collected.iter().zip(all_at_once.iter()) {
        assert_eq!(format!("{a:?}"), format!("{b:?}"));
    }
}

#[test]
fn partial_line_waits_for_its_separator() {
    let mut buf = MessageBuffer::new();
    assert!(buf.insert(b"{\"request_id\":9,\"err").is_empty());
    assert!(buf.insert(b"or\":\"success\"}").is_empty());
    let messages = buf.insert(b"\n");
    assert_eq!(messages.len(), 1);
    match &messages[0] {
        Ok(Message::Response { request_id, .. }) => assert_eq!(*request_id, 9),
        other => panic!("unexpected message: {other:?}"),
    }
}

#[test]
fn undecodable_line_is_reported_in_place() {
    let mut buf = MessageBuffer::new();
    let messages = buf.insert(b"not json\n{\"event\":\"idle\"}\n");
    assert_eq!(messages.len(), 2);
    assert!(matches!(messages[0], Err(DecodeError::NotJson)));
    match &messages[1] {
        Ok(Message::Event { event }) => assert_eq!(event, "idle"),
        other => panic!("unexpected message: {other:?}"),
    }
}

#[test]
fn empty_line_between_separators_is_an_error() {
    let mut buf = MessageBuffer::new();
    let messages = buf.insert(b"\n");
    assert_eq!(messages.len(), 1);
    assert!(messages[0].is_err());
}

#[test]
fn empty_chunk_changes_nothing() {
    let mut buf = MessageBuffer::new();
    assert!(buf.insert(b"").is_empty());
    assert!(buf.insert(b"{\"event\":\"idle\"}").is_empty());
    assert!(buf.insert(b"").is_empty());
    let messages = buf.insert(b"\n");
    assert_eq!(messages.len(), 1);
    assert!(messages[0].is_ok());
}
