use longport_core::error::{
    Error, HttpClientError, SimpleError, WsClientError, WsResponseErrorDetail,
};
use longport_core::timestamp::Timestamp;

fn other(error: Error) -> String {
    match error.into_simple_error() {
        SimpleError::Other(text) => text,
        SimpleError::Response { .. } => panic!("a response error was not expected"),
    }
}

#[test]
fn server_answer_reduces_to_response() {
    let error = Error::HttpClient(HttpClientError::OpenApi {
        code: 401017,
        message: "invalid access token".to_string(),
        trace_id: "abc123".to_string(),
    });
    assert_eq!(error.openapi_error_code(), Some(401017));
    let simple = error.into_simple_error();
    assert_eq!(
        simple,
        SimpleError::Response {
            code: 401017,
            message: "invalid access token".to_string(),
            trace_id: "abc123".to_string(),
        }
    );
    assert_eq!(simple.code(), Some(401017));
    assert_eq!(simple.trace_id(), Some("abc123"));
    assert_eq!(simple.message(), "invalid access token");
}

#[test]
fn negative_server_code_is_kept() {
    let error = Error::HttpClient(HttpClientError::OpenApi {
        code: -7,
        message: "m".to_string(),
        trace_id: String::new(),
    });
    assert_eq!(error.describe(), "openapi error: code=-7: m");
    assert_eq!(error.openapi_error_code(), Some(-7));
    let simple = error.into_simple_error();
    assert_eq!(simple.code(), Some(-7));
    assert_eq!(simple.describe(), "response error: code=-7 message=m");
}

#[test]
fn websocket_answer_with_detail_reduces_to_response() {
    let error = Error::WsClient(WsClientError::ResponseError {
        status: 3,
        detail: Some(WsResponseErrorDetail { code: 429001, msg: "too many".to_string() }),
    });
    assert_eq!(error.openapi_error_code(), Some(429001));
    assert_eq!(
        error.into_simple_error(),
        SimpleError::Response {
            code: 429001,
            message: "too many".to_string(),
            trace_id: String::new(),
        }
    );
}

#[test]
fn websocket_code_above_the_signed_range_wraps_around() {
    let error = Error::WsClient(WsClientError::ResponseError {
        status: 1,
        detail: Some(WsResponseErrorDetail { code: u64::MAX, msg: String::new() }),
    });
    assert_eq!(error.openapi_error_code(), Some(-1));
    let error = Error::WsClient(WsClientError::ResponseError {
        status: 1,
        detail: Some(WsResponseErrorDetail { code: 1 << 63, msg: String::new() }),
    });
    assert_eq!(error.openapi_error_code(), Some(i64::MIN));
    assert_eq!(error.into_simple_error().code(), Some(i64::MIN));
    let error = Error::WsClient(WsClientError::ResponseError {
        status: 1,
        detail: Some(WsResponseErrorDetail { code: i64::MAX as u64, msg: String::new() }),
    });
    assert_eq!(error.openapi_error_code(), Some(i64::MAX));
}

#[test]
fn websocket_answer_without_detail_reduces_to_other() {
    let error = Error::WsClient(WsClientError::ResponseError { status: 3, detail: None });
    assert_eq!(error.openapi_error_code(), None);
    assert_eq!(other(error), "response error: 3: detail:None");
}

#[test]
fn websocket_detail_is_displayed_with_its_message_quoted() {
    let msg = "say \"no\"\n";
    let error = WsClientError::ResponseError {
        status: 200,
        detail: Some(WsResponseErrorDetail { code: 7, msg: msg.to_string() }),
    };
    let expected = format!(
        "response error: 200: detail:Some(WsResponseErrorDetail {{ code: 7, msg: {:?} }})",
        msg
    );
    assert_eq!(error.describe(), expected);
    assert!(expected.contains("\\\"no\\\"\\n"));
}

#[test]
fn transport_failure_reduces_to_its_rendering() {
    let rendering = "error sending request for url (https://openapi.example/v1/asset)";
    let error = Error::HttpClient(HttpClientError::Other(rendering.to_string()));
    assert_eq!(error.openapi_error_code(), None);
    let simple = error.into_simple_error();
    assert_eq!(simple, SimpleError::Other(rendering.to_string()));
    assert_eq!(simple.code(), None);
    assert_eq!(simple.trace_id(), None);
    assert_eq!(simple.message(), rendering);
    assert_eq!(simple.describe(), format!("other error: {}", rendering));
    let error = Error::WsClient(WsClientError::Other("connection closed".to_string()));
    assert_eq!(other(error), "connection closed");
}

#[test]
fn every_other_error_reduces_to_its_text() {
    assert_eq!(other(Error::DecodeProtobuf("bad envelope".to_string())), "bad envelope");
    assert_eq!(other(Error::DecodeJSON("bad document".to_string())), "bad document");
    assert_eq!(
        other(Error::parse_field_error("price", "not a number".to_string())),
        "parse field: price: not a number"
    );
    assert_eq!(other(Error::UnknownCommand(0)), "unknown command: 0");
    assert_eq!(other(Error::UnknownCommand(7)), "unknown command: 7");
    assert_eq!(other(Error::UnknownCommand(255)), "unknown command: 255");
    assert_eq!(
        other(Error::InvalidSecuritySymbol { symbol: "700".to_string() }),
        "invalid security symbol: 700"
    );
    assert_eq!(
        other(Error::UnknownMarket { symbol: "700.XX".to_string() }),
        "unknown market: 700.XX"
    );
}

#[test]
fn unknown_trade_session_shows_the_time_as_the_calendar_does() {
    let seconds = 1_546_300_800;
    let time = Timestamp::from_unix_seconds(seconds).unwrap();
    let shown = time::OffsetDateTime::from_unix_timestamp(seconds).unwrap().to_string();
    assert!(shown.starts_with("2019-01-01"));
    assert_eq!(time.render(), shown);
    let error = Error::UnknownTradeSession { symbol: "700.HK".to_string(), time };
    assert_eq!(error.describe(), format!("unknown trade session: 700.HK, time={}", shown));
    assert_eq!(error.openapi_error_code(), None);
}

#[test]
fn parse_field_error_keeps_name_and_cause() {
    assert_eq!(
        Error::parse_field_error("timestamp", "out of range".to_string()),
        Error::ParseField { name: "timestamp", error: "out of range".to_string() }
    );
}

#[test]
fn from_error_is_the_reduction() {
    let error = Error::UnknownCommand(9);
    let simple: SimpleError = error.clone().into();
    assert_eq!(simple, error.into_simple_error());
    assert_eq!(SimpleError::from(Error::UnknownCommand(18)).message(), "unknown command: 18");
}

#[test]
fn simple_error_accessors_of_both_variants() {
    let response = SimpleError::Response {
        code: i64::MIN,
        message: "m".to_string(),
        trace_id: "t".to_string(),
    };
    assert_eq!(response.code(), Some(i64::MIN));
    assert_eq!(response.trace_id(), Some("t"));
    assert_eq!(response.message(), "m");
    assert_eq!(response.describe(), "response error: code=-9223372036854775808 message=m");
    let other = SimpleError::Other("x".to_string());
    assert_eq!(other.code(), None);
    assert_eq!(other.trace_id(), None);
    assert_eq!(other.message(), "x");
    assert_eq!(other.describe(), "other error: x");
}
