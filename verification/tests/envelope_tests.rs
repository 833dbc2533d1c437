use longport_core::envelope::Notification;
use longport_core::error::Error;

fn frame(topic: &str, content_type: i32, dispatch_type: i32, payload: &[u8]) -> Vec<u8> {
    let mut buf: Vec<u8> = Vec::new();
    prost::encoding::string::encode(1, &topic.to_string(), &mut buf);
    prost::encoding::int32::encode(2, &content_type, &mut buf);
    prost::encoding::int32::encode(3, &dispatch_type, &mut buf);
    prost::encoding::bytes::encode(4, &payload.to_vec(), &mut buf);
    buf
}

#[test]
fn envelope_is_decoded_field_by_field() {
    let bytes = frame("private", 1, 2, b"{\"a\":1}");
    assert_eq!(
        Notification::decode(&bytes),
        Ok(Notification {
            topic: "private".to_string(),
            content_type: 1,
            dispatch_type: 2,
            data: b"{\"a\":1}".to_vec(),
        })
    );
}

#[test]
fn envelope_bytes_are_those_of_the_wire_format() {
    let bytes = [0x0a, 0x02, b'h', b'i', 0x10, 0x01, 0x22, 0x03, 1, 2, 3];
    assert_eq!(
        Notification::decode(&bytes),
        Ok(Notification {
            topic: "hi".to_string(),
            content_type: 1,
            dispatch_type: 0,
            data: vec![1, 2, 3],
        })
    );
}

#[test]
fn empty_envelope_has_every_field_at_its_default() {
    assert_eq!(
        Notification::decode(&[]),
        Ok(Notification {
            topic: String::new(),
            content_type: 0,
            dispatch_type: 0,
            data: Vec::new(),
        })
    );
}

#[test]
fn field_read_again_replaces_what_was_read() {
    let mut bytes = frame("first", 1, 1, b"one");
    bytes.extend(frame("second", -1, 7, b"two"));
    let notification = Notification::decode(&bytes).unwrap();
    assert_eq!(notification.topic, "second");
    assert_eq!(notification.content_type, -1);
    assert_eq!(notification.dispatch_type, 7);
    assert_eq!(notification.data, b"two");
}

#[test]
fn unknown_fields_are_passed_over() {
    let mut bytes: Vec<u8> = Vec::new();
    prost::encoding::uint64::encode(9, &u64::MAX, &mut bytes);
    prost::encoding::string::encode(1, &"private".to_string(), &mut bytes);
    prost::encoding::fixed32::encode(15, &7, &mut bytes);
    prost::encoding::string::encode(2000, &"ignored".to_string(), &mut bytes);
    prost::encoding::bytes::encode(4, &vec![9u8, 8, 7], &mut bytes);
    prost::encoding::fixed64::encode(5, &7, &mut bytes);
    let notification = Notification::decode(&bytes).unwrap();
    assert_eq!(notification.topic, "private");
    assert_eq!(notification.data, vec![9, 8, 7]);
    assert_eq!(notification.content_type, 0);
}

#[test]
fn malformed_envelopes_are_errors() {
    let describe = |bytes: &[u8]| match Notification::decode(bytes) {
        Err(Error::DecodeProtobuf(message)) => message,
        other => panic!("expected a fault of the envelope, got {:?}", other),
    };
    assert_eq!(describe(&[0x80]), "failed to decode Protobuf message: invalid varint");
    assert_eq!(describe(&[0x00]), "failed to decode Protobuf message: invalid tag value: 0");
    assert_eq!(describe(&[0x0f]), "failed to decode Protobuf message: invalid wire type value: 7");
    assert_eq!(
        describe(&[0x0a, 0x05, b'a']),
        "failed to decode Protobuf message: Notification.topic: buffer underflow"
    );
    assert_eq!(
        describe(&[0x0a, 0x01, 0xff]),
        "failed to decode Protobuf message: Notification.topic: invalid string value: data is not UTF-8 encoded"
    );
    assert!(describe(&[0x08, 0x01]).starts_with("failed to decode Protobuf message: Notification.topic: invalid wire type"));
    assert!(describe(&[0x12, 0x00]).starts_with("failed to decode Protobuf message: Notification.content_type: invalid wire type"));
    assert!(describe(&[0x1a, 0x00]).starts_with("failed to decode Protobuf message: Notification.dispatch_type: invalid wire type"));
    assert!(describe(&[0x20, 0x00]).starts_with("failed to decode Protobuf message: Notification.data: invalid wire type"));
    assert_eq!(describe(&[0x2a, 0x09, 1]), "failed to decode Protobuf message: buffer underflow");
    assert_eq!(describe(&[0x2c]), "failed to decode Protobuf message: unexpected end group tag");
}
