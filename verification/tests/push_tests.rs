use longport_core::decimal::Decimal;
use longport_core::error::Error;
use longport_core::json::{Json, MemberFault};
use longport_core::normalize::WireFault;
use longport_core::push_types::{
    EventFault, FieldCause, FieldFault, PushEvent, PushOrderChanged, TopicType, PUSH_NOTIFICATION,
};
use longport_core::timestamp::Timestamp;
use longport_core::trade::{OrderSide, OrderStatus, OrderTag, OrderType, TriggerStatus};

const FIELDS: [(&str, &str); 25] = [
    ("side", "Buy"),
    ("stock_name", "Tencent"),
    ("submitted_quantity", "100"),
    ("symbol", "700.HK"),
    ("order_type", "LO"),
    ("submitted_price", "312.50"),
    ("executed_quantity", "0"),
    ("executed_price", "0"),
    ("order_id", "27"),
    ("currency", "HKD"),
    ("status", "NewStatus"),
    ("submitted_at", "1680863604"),
    ("updated_at", "1680863605"),
    ("trigger_price", ""),
    ("msg", ""),
    ("tag", "Normal"),
    ("trigger_status", "NOT_USED"),
    ("trigger_at", "0"),
    ("trailing_amount", ""),
    ("trailing_percent", "3.1400"),
    ("limit_offset", ""),
    ("account_no", "HK1234"),
    ("last_share", ""),
    ("last_price", "12.50"),
    ("remark", "first order"),
];

fn payload_with(changes: &[(&str, Option<&str>)]) -> String {
    let mut members: Vec<String> = Vec::new();
    for (name, value) in FIELDS {
        match changes.iter().find(|(changed, _)| *changed == name) {
            Some((_, None)) => {},
            Some((_, Some(raw))) => members.push(format!("\"{}\":{}", name, raw)),
            None => members.push(format!("\"{}\":\"{}\"", name, value)),
        }
    }
    format!("{{\"event\":\"order_changed_lb\",\"data\":{{{}}}}}", members.join(","))
}

fn frame(topic: &str, payload: &[u8]) -> Vec<u8> {
    let mut buf: Vec<u8> = Vec::new();
    prost::encoding::string::encode(1, &topic.to_string(), &mut buf);
    prost::encoding::int32::encode(2, &1, &mut buf);
    prost::encoding::int32::encode(3, &1, &mut buf);
    prost::encoding::bytes::encode(4, &payload.to_vec(), &mut buf);
    buf
}

fn expected_order() -> PushOrderChanged {
    PushOrderChanged {
        side: OrderSide::Buy,
        stock_name: "Tencent".to_string(),
        submitted_quantity: Decimal::new(100, 0).unwrap(),
        symbol: "700.HK".to_string(),
        order_type: OrderType::LO,
        submitted_price: Decimal::new(31250, 2).unwrap(),
        executed_quantity: Decimal::new(0, 0).unwrap(),
        executed_price: None,
        order_id: "27".to_string(),
        currency: "HKD".to_string(),
        status: OrderStatus::New,
        submitted_at: Timestamp::from_unix_seconds(1_680_863_604).unwrap(),
        updated_at: Timestamp::from_unix_seconds(1_680_863_605).unwrap(),
        trigger_price: None,
        msg: String::new(),
        tag: OrderTag::Normal,
        trigger_status: None,
        trigger_at: None,
        trailing_amount: None,
        trailing_percent: Decimal::new(31400, 4),
        limit_offset: None,
        account_no: "HK1234".to_string(),
        last_share: None,
        last_price: Decimal::new(1250, 2),
        remark: "first order".to_string(),
    }
}

fn json_fault(result: Result<Option<PushEvent>, Error>) -> String {
    match result {
        Err(Error::DecodeJSON(message)) => message,
        other => panic!("expected a fault of the payload, got {:?}", other),
    }
}

#[test]
fn valid_frame_is_decoded_with_every_field_normalized() {
    let bytes = frame("private", payload_with(&[]).as_bytes());
    let event = PushEvent::parse(PUSH_NOTIFICATION, &bytes).unwrap().unwrap();
    assert_eq!(event, PushEvent::OrderChanged(expected_order()));
    let PushEvent::OrderChanged(order) = event;
    assert!(order.executed_quantity.is_zero());
    assert_eq!(order.executed_price, None);
    assert_eq!(order.submitted_at.unix_seconds(), 1_680_863_604);
}

#[test]
fn present_values_of_optional_fields_are_decoded() {
    let payload = payload_with(&[
        ("executed_price", Some("\"312.4\"")),
        ("trigger_price", Some("\"300\"")),
        ("trigger_status", Some("\"ACTIVE\"")),
        ("trigger_at", Some("\"1680863700\"")),
        ("side", Some("\"Sell\"")),
        ("order_type", Some("\"TSLPPCT\"")),
        ("status", Some("\"PartialFilledStatus\"")),
        ("tag", Some("\"GTC\"")),
        ("executed_quantity", Some("\"40\"")),
    ]);
    let bytes = frame("private", payload.as_bytes());
    let PushEvent::OrderChanged(order) =
        PushEvent::parse(PUSH_NOTIFICATION, &bytes).unwrap().unwrap();
    assert_eq!(order.executed_price, Decimal::new(3124, 1));
    assert_eq!(order.trigger_price, Decimal::new(300, 0));
    assert_eq!(order.trigger_status, Some(TriggerStatus::Active));
    assert_eq!(order.trigger_at, Timestamp::from_unix_seconds(1_680_863_700));
    assert_eq!(order.side, OrderSide::Sell);
    assert_eq!(order.order_type, OrderType::TSLPPCT);
    assert_eq!(order.status, OrderStatus::PartialFilled);
    assert_eq!(order.tag, OrderTag::LongTerm);
    assert_eq!(order.executed_quantity, Decimal::new(40, 0).unwrap());
}

#[test]
fn times_on_the_wire_may_be_json_numbers() {
    let payload = payload_with(&[
        ("submitted_at", Some("1680863604")),
        ("updated_at", Some("-1")),
        ("trigger_at", Some("null")),
    ]);
    let bytes = frame("private", payload.as_bytes());
    let PushEvent::OrderChanged(order) =
        PushEvent::parse(PUSH_NOTIFICATION, &bytes).unwrap().unwrap();
    assert_eq!(order.submitted_at.unix_seconds(), 1_680_863_604);
    assert_eq!(order.updated_at.unix_seconds(), -1);
    assert_eq!(order.trigger_at, None);
    let payload = payload_with(&[("trigger_at", Some("1680863700"))]);
    let bytes = frame("private", payload.as_bytes());
    let PushEvent::OrderChanged(order) =
        PushEvent::parse(PUSH_NOTIFICATION, &bytes).unwrap().unwrap();
    assert_eq!(order.trigger_at, Timestamp::from_unix_seconds(1_680_863_700));
    let payload = payload_with(&[("submitted_at", Some("1.5"))]);
    let bytes = frame("private", payload.as_bytes());
    assert_eq!(
        json_fault(PushEvent::parse(PUSH_NOTIFICATION, &bytes)),
        "field `submitted_at`: invalid integer"
    );
    let payload = payload_with(&[("trigger_at", None)]);
    let bytes = frame("private", payload.as_bytes());
    let PushEvent::OrderChanged(order) =
        PushEvent::parse(PUSH_NOTIFICATION, &bytes).unwrap().unwrap();
    assert_eq!(order.trigger_at, None);
}

#[test]
fn every_other_command_code_is_unknown() {
    let bytes = frame("private", payload_with(&[]).as_bytes());
    for code in 0..=255u8 {
        if code != PUSH_NOTIFICATION {
            assert_eq!(PushEvent::parse(code, &bytes), Err(Error::UnknownCommand(code)));
            assert_eq!(PushEvent::parse(code, &[0xff]), Err(Error::UnknownCommand(code)));
        }
    }
    assert_eq!(PUSH_NOTIFICATION, 18);
}

#[test]
fn other_topics_are_filtered_without_an_error() {
    let bytes = frame("quote", payload_with(&[]).as_bytes());
    assert_eq!(PushEvent::parse(PUSH_NOTIFICATION, &bytes), Ok(None));
    let bytes = frame("Private", b"this is no document");
    assert_eq!(PushEvent::parse(PUSH_NOTIFICATION, &bytes), Ok(None));
    assert_eq!(PushEvent::parse(PUSH_NOTIFICATION, &frame("", b"")), Ok(None));
    assert_eq!(PushEvent::parse(PUSH_NOTIFICATION, &[]), Ok(None));
    assert_eq!(TopicType::from_wire("private"), Some(TopicType::Private));
    assert_eq!(TopicType::from_wire("public"), None);
    assert_eq!(TopicType::Private.as_str(), "private");
}

#[test]
fn bytes_that_are_no_envelope_are_a_decode_error() {
    match PushEvent::parse(PUSH_NOTIFICATION, &[0x0a, 0x05, b'p']) {
        Err(Error::DecodeProtobuf(message)) => {
            assert_eq!(
                message,
                "failed to decode Protobuf message: Notification.topic: buffer underflow"
            );
        },
        other => panic!("expected a fault of the envelope, got {:?}", other),
    }
}

#[test]
fn payload_that_is_no_document_is_a_decode_error() {
    let message = json_fault(PushEvent::parse(PUSH_NOTIFICATION, &frame("private", b"{\"event\"")));
    let expected =
        serde_json::from_slice::<serde_json::Value>(b"{\"event\"").unwrap_err().to_string();
    assert_eq!(message, expected);
}

#[test]
fn document_that_is_no_event_is_a_decode_error() {
    let parse = |payload: &str| {
        json_fault(PushEvent::parse(PUSH_NOTIFICATION, &frame("private", payload.as_bytes())))
    };
    assert_eq!(parse("{}"), "missing field `event`");
    assert_eq!(parse("[]"), "missing field `event`");
    assert_eq!(parse("{\"event\":7}"), "invalid type for `event`: expected a string");
    assert_eq!(
        parse("{\"event\":\"order_filled\",\"data\":{}}"),
        "unknown variant of `event`, expected `order_changed_lb`"
    );
    assert_eq!(parse("{\"event\":\"order_changed_lb\"}"), "missing field `data`");
    assert_eq!(parse("{\"event\":\"order_changed_lb\",\"data\":{}}"), "field `side`: missing");
    assert_eq!(parse(&payload_with(&[("remark", None)])), "field `remark`: missing");
    assert_eq!(parse(&payload_with(&[("symbol", Some("7"))])), "field `symbol`: expected a string");
    assert_eq!(parse(&payload_with(&[("side", Some("\"Hold\""))])), "field `side`: unknown variant");
    assert_eq!(
        parse(&payload_with(&[("status", Some("\"Unknown\""))])),
        "field `status`: unknown variant"
    );
    assert_eq!(
        parse(&payload_with(&[("submitted_price", Some("\"\""))])),
        "field `submitted_price`: invalid decimal"
    );
    assert_eq!(
        parse(&payload_with(&[("last_price", Some("\"1,5\""))])),
        "field `last_price`: invalid decimal"
    );
    assert_eq!(
        parse(&payload_with(&[("updated_at", Some("\"now\""))])),
        "field `updated_at`: invalid integer"
    );
    assert_eq!(
        parse(&payload_with(&[("updated_at", Some("\"253402300800\""))])),
        "field `updated_at`: timestamp out of range"
    );
    assert_eq!(
        parse(&payload_with(&[("trigger_at", Some("true"))])),
        "field `trigger_at`: expected a string"
    );
    assert_eq!(
        parse(&payload_with(&[("submitted_quantity", Some("250"))])),
        "field `submitted_quantity`: expected a string"
    );
    assert_eq!(
        parse(&payload_with(&[("executed_price", Some("0"))])),
        "field `executed_price`: expected a string"
    );
    assert_eq!(
        parse(&payload_with(&[("last_price", Some("12.50"))])),
        "field `last_price`: expected a string"
    );
}

#[test]
fn first_field_that_cannot_be_read_is_reported() {
    let document = Json::parse(
        payload_with(&[("tag", Some("\"?\"")), ("currency", None), ("remark", None)]).as_bytes(),
    )
    .unwrap();
    assert_eq!(
        PushEvent::from_json(&document),
        Err(EventFault::Field(FieldFault { name: "currency", cause: FieldCause::Missing }))
    );
    let data = document.get("data").unwrap();
    assert_eq!(
        PushOrderChanged::from_json(data),
        Err(FieldFault { name: "currency", cause: FieldCause::Missing })
    );
    let document = Json::parse(payload_with(&[("tag", Some("\"?\""))]).as_bytes()).unwrap();
    assert_eq!(
        PushEvent::from_json(&document),
        Err(EventFault::Field(FieldFault {
            name: "tag",
            cause: FieldCause::Wire(WireFault::Word)
        }))
    );
    assert_eq!(PushEvent::from_json(&Json::Null), Err(EventFault::Event(MemberFault::Missing)));
    assert_eq!(
        EventFault::Event(MemberFault::NotText).describe(),
        "invalid type for `event`: expected a string"
    );
}

#[test]
fn event_is_read_from_a_document_built_by_hand() {
    let members = FIELDS
        .iter()
        .map(|(name, value)| (name.to_string(), Json::Str(value.to_string())))
        .collect();
    let document = Json::Object(vec![
        ("data".to_string(), Json::Object(members)),
        ("event".to_string(), Json::Str("order_changed_lb".to_string())),
    ]);
    assert_eq!(PushEvent::from_json(&document), Ok(PushEvent::OrderChanged(expected_order())));
}
