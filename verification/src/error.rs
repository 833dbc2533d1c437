//! The unified error of the SDK and the reduced form of it that may cross
//! the boundary to a host language.

use vstd::prelude::*;

use crate::text::{digits, int_text, push_digits, push_int};
use crate::timestamp::{utc_text, Timestamp};

verus! {

/// The text that `{:?}` displays for a string: the string in double quotes,
/// with the escapes of `str`'s `Debug`.
pub uninterp spec fn debug_text(s: Seq<char>) -> Seq<char>;

/// Formats a string with `{:?}`, which is `<str as Debug>::fmt`; the
/// contract names the text and claims nothing else of it.
#[verifier::external_body]
fn debug_quoted(s: &str) -> (r: String)
    ensures
        r@ == debug_text(s@),
{
    format!("{:?}", s)
}

/// What a server says of a request it rejected over the WebSocket channel.
#[derive(Debug, Clone, PartialEq, Eq)]
pub struct WsResponseErrorDetail {
    /// Error code
    pub code: u64,
    /// Error message
    pub msg: String,
}

/// A [`WsResponseErrorDetail`] with its message as a sequence of characters.
pub struct WsResponseErrorDetailView {
    pub code: u64,
    pub msg: Seq<char>,
}

impl View for WsResponseErrorDetail {
    type V = WsResponseErrorDetailView;

    open spec fn view(&self) -> WsResponseErrorDetailView {
        WsResponseErrorDetailView { code: self.code, msg: self.msg@ }
    }
}

/// A failure of the HTTP transport.
#[derive(Debug, Clone, PartialEq, Eq)]
pub enum HttpClientError {
    /// The server answered with an error of its own.
    OpenApi {
        /// Error code
        code: i32,
        /// Error message
        message: String,
        /// Trace id
        trace_id: String,
    },
    /// Any other failure of the transport, as the transport renders it.
    Other(String),
}

/// An [`HttpClientError`] with its strings as sequences of characters.
pub enum HttpClientErrorView {
    OpenApi { code: i32, message: Seq<char>, trace_id: Seq<char> },
    Other(Seq<char>),
}

impl View for HttpClientError {
    type V = HttpClientErrorView;

    open spec fn view(&self) -> HttpClientErrorView {
        match *self {
            HttpClientError::OpenApi { code, message, trace_id } => HttpClientErrorView::OpenApi {
                code,
                message: message@,
                trace_id: trace_id@,
            },
            HttpClientError::Other(text) => HttpClientErrorView::Other(text@),
        }
    }
}

/// A failure of the WebSocket transport.
#[derive(Debug, Clone, PartialEq, Eq)]
pub enum WsClientError {
    /// The server answered a request with an error status.
    ResponseError {
        /// Status of the response
        status: u8,
        /// What the server said of the error, if anything
        detail: Option<WsResponseErrorDetail>,
    },
    /// Any other failure of the transport, as the transport renders it.
    Other(String),
}

/// A [`WsClientError`] with its strings as sequences of characters.
pub enum WsClientErrorView {
    ResponseError { status: u8, detail: Option<WsResponseErrorDetailView> },
    Other(Seq<char>),
}

impl View for WsClientError {
    type V = WsClientErrorView;

    open spec fn view(&self) -> WsClientErrorView {
        match *self {
            WsClientError::ResponseError { status, detail } => WsClientErrorView::ResponseError {
                status,
                detail: match detail {
                    Some(d) => Some(d@),
                    None => None,
                },
            },
            WsClientError::Other(text) => WsClientErrorView::Other(text@),
        }
    }
}

/// SDK error type
#[derive(Debug, Clone, PartialEq, Eq)]
pub enum Error {
    /// The binary envelope could not be decoded; holds the decoder's message.
    DecodeProtobuf(String),
    /// The JSON payload could not be decoded; holds the decoder's message.
    DecodeJSON(String),
    /// Parse field
    ParseField {
        /// Field name
        name: &'static str,
        /// Error detail
        error: String,
    },
    /// Unknown command
    UnknownCommand(
        /// Command code
        u8,
    ),
    /// Invalid security symbol
    InvalidSecuritySymbol {
        /// Security symbol
        symbol: String,
    },
    /// Unknown market
    UnknownMarket {
        /// Security symbol
        symbol: String,
    },
    /// Unknown trade session
    UnknownTradeSession {
        /// Security symbol
        symbol: String,
        /// time
        time: Timestamp,
    },
    /// HTTP client error
    HttpClient(HttpClientError),
    /// Websocket client error
    WsClient(WsClientError),
}

/// An [`Error`] with its strings as sequences of characters and its time
/// as seconds since the Unix epoch.
pub enum ErrorView {
    DecodeProtobuf(Seq<char>),
    DecodeJSON(Seq<char>),
    ParseField { name: Seq<char>, error: Seq<char> },
    UnknownCommand(u8),
    InvalidSecuritySymbol { symbol: Seq<char> },
    UnknownMarket { symbol: Seq<char> },
    UnknownTradeSession { symbol: Seq<char>, seconds: i64 },
    HttpClient(HttpClientErrorView),
    WsClient(WsClientErrorView),
}

impl View for Error {
    type V = ErrorView;

    open spec fn view(&self) -> ErrorView {
        match *self {
            Error::DecodeProtobuf(text) => ErrorView::DecodeProtobuf(text@),
            Error::DecodeJSON(text) => ErrorView::DecodeJSON(text@),
            Error::ParseField { name, error } => ErrorView::ParseField {
                name: name@,
                error: error@,
            },
            Error::UnknownCommand(code) => ErrorView::UnknownCommand(code),
            Error::InvalidSecuritySymbol { symbol } => ErrorView::InvalidSecuritySymbol {
                symbol: symbol@,
            },
            Error::UnknownMarket { symbol } => ErrorView::UnknownMarket { symbol: symbol@ },
            Error::UnknownTradeSession { symbol, time } => ErrorView::UnknownTradeSession {
                symbol: symbol@,
                seconds: time.seconds(),
            },
            Error::HttpClient(e) => ErrorView::HttpClient(e@),
            Error::WsClient(e) => ErrorView::WsClient(e@),
        }
    }
}

/// Simple error type
#[derive(Debug, Clone, PartialEq, Eq)]
pub enum SimpleError {
    /// Response error
    Response {
        /// Error code
        code: i64,
        /// Error message
        message: String,
        /// Trace id
        trace_id: String,
    },
    /// Other error
    Other(String),
}

/// A [`SimpleError`] with its strings as sequences of characters.
pub enum SimpleErrorView {
    Response { code: i64, message: Seq<char>, trace_id: Seq<char> },
    Other(Seq<char>),
}

impl View for SimpleError {
    type V = SimpleErrorView;

    open spec fn view(&self) -> SimpleErrorView {
        match *self {
            SimpleError::Response { code, message, trace_id } => SimpleErrorView::Response {
                code,
                message: message@,
                trace_id: trace_id@,
            },
            SimpleError::Other(text) => SimpleErrorView::Other(text@),
        }
    }
}

/// The value of `code as i64` for a 64-bit unsigned `code`: codes above
/// `i64::MAX` wrap around to the negative numbers.
pub open spec fn wrapped_code(code: u64) -> i64 {
    if code <= i64::MAX {
        code as i64
    } else {
        (code - 0x1_0000_0000_0000_0000) as i64
    }
}

/// The text of an HTTP transport failure.
pub open spec fn http_error_text(e: HttpClientErrorView) -> Seq<char> {
    match e {
        HttpClientErrorView::OpenApi { code, message, trace_id } => "openapi error: code="@
            + int_text(code as int) + ": "@ + message,
        HttpClientErrorView::Other(text) => text,
    }
}

/// The text of what a WebSocket server said of an error, if anything.
pub open spec fn ws_detail_text(detail: Option<WsResponseErrorDetailView>) -> Seq<char> {
    match detail {
        Some(d) => "Some(WsResponseErrorDetail { code: "@ + digits(d.code as nat) + ", msg: "@
            + debug_text(d.msg) + " })"@,
        None => "None"@,
    }
}

/// The text of a WebSocket transport failure.
pub open spec fn ws_error_text(e: WsClientErrorView) -> Seq<char> {
    match e {
        WsClientErrorView::ResponseError { status, detail } => "response error: "@ + digits(
            status as nat,
        ) + ": detail:"@ + ws_detail_text(detail),
        WsClientErrorView::Other(text) => text,
    }
}

/// The human-readable text of an error.
pub open spec fn error_text(e: ErrorView) -> Seq<char> {
    match e {
        ErrorView::DecodeProtobuf(text) => text,
        ErrorView::DecodeJSON(text) => text,
        ErrorView::ParseField { name, error } => "parse field: "@ + name + ": "@ + error,
        ErrorView::UnknownCommand(code) => "unknown command: "@ + digits(code as nat),
        ErrorView::InvalidSecuritySymbol { symbol } => "invalid security symbol: "@ + symbol,
        ErrorView::UnknownMarket { symbol } => "unknown market: "@ + symbol,
        ErrorView::UnknownTradeSession { symbol, seconds } => "unknown trade session: "@ + symbol
            + ", time="@ + utc_text(seconds as int),
        ErrorView::HttpClient(e) => http_error_text(e),
        ErrorView::WsClient(e) => ws_error_text(e),
    }
}

/// The code that a server reported, where the error is a server's answer.
pub open spec fn openapi_code_of(e: ErrorView) -> Option<i64> {
    match e {
        ErrorView::HttpClient(HttpClientErrorView::OpenApi { code, .. }) => Some(code as i64),
        ErrorView::WsClient(WsClientErrorView::ResponseError { detail: Some(d), .. }) => Some(
            wrapped_code(d.code),
        ),
        _ => None,
    }
}

/// The reduced form of an error: a server's answer keeps its code, message
/// and trace id; every other error keeps its text only.
pub open spec fn simple_error_of(e: ErrorView) -> SimpleErrorView {
    match e {
        ErrorView::HttpClient(HttpClientErrorView::OpenApi { code, message, trace_id }) => {
            SimpleErrorView::Response { code: code as i64, message, trace_id }
        },
        ErrorView::WsClient(WsClientErrorView::ResponseError { detail: Some(d), .. }) => {
            SimpleErrorView::Response {
                code: wrapped_code(d.code),
                message: d.msg,
                trace_id: Seq::empty(),
            }
        },
        _ => SimpleErrorView::Other(error_text(e)),
    }
}

/// The text of a reduced error.
pub open spec fn simple_error_text(e: SimpleErrorView) -> Seq<char> {
    match e {
        SimpleErrorView::Response { code, message, .. } => "response error: code="@ + int_text(
            code as int,
        ) + " message="@ + message,
        SimpleErrorView::Other(text) => "other error: "@ + text,
    }
}

/// A 64-bit unsigned code as a signed one, wrapped around.
fn wrap_code(code: u64) -> (r: i64)
    ensures
        r == wrapped_code(code),
{
    if code <= 0x7fff_ffff_ffff_ffff {
        code as i64
    } else {
        ((code - 0x8000_0000_0000_0000) as i64) + i64::MIN
    }
}

impl HttpClientError {
    /// The text of the failure.
    pub fn describe(&self) -> (r: String)
        ensures
            r@ == http_error_text(self@),
    {
        match self {
            HttpClientError::OpenApi { code, message, .. } => {
                let mut out = String::from_str("openapi error: code=");
                push_int(&mut out, *code as i64);
                out.append(": ");
                out.append(message.as_str());
                out
            },
            HttpClientError::Other(text) => text.clone(),
        }
    }
}

impl WsClientError {
    /// The text of the failure.
    pub fn describe(&self) -> (r: String)
        ensures
            r@ == ws_error_text(self@),
    {
        match self {
            WsClientError::ResponseError { status, detail } => {
                let mut out = String::from_str("response error: ");
                push_digits(&mut out, *status as u64);
                out.append(": detail:");
                match detail {
                    Some(d) => {
                        out.append("Some(WsResponseErrorDetail { code: ");
                        push_digits(&mut out, d.code);
                        out.append(", msg: ");
                        let quoted = debug_quoted(d.msg.as_str());
                        out.append(quoted.as_str());
                        out.append(" })");
                    },
                    None => {
                        out.append("None");
                    },
                }
                out
            },
            WsClientError::Other(text) => text.clone(),
        }
    }
}

impl Error {
    /// The error of a field that could not be parsed: the field's name and
    /// the text of the cause.
    pub fn parse_field_error(name: &'static str, error: String) -> (r: Error)
        ensures
            r@ == (ErrorView::ParseField { name: name@, error: error@ }),
    {
        Error::ParseField { name, error }
    }

    /// The human-readable text of the error.
    pub fn describe(&self) -> (r: String)
        ensures
            r@ == error_text(self@),
    {
        match self {
            Error::DecodeProtobuf(text) => text.clone(),
            Error::DecodeJSON(text) => text.clone(),
            Error::ParseField { name, error } => {
                let mut out = String::from_str("parse field: ");
                out.append(name);
                out.append(": ");
                out.append(error.as_str());
                out
            },
            Error::UnknownCommand(code) => {
                let mut out = String::from_str("unknown command: ");
                push_digits(&mut out, *code as u64);
                out
            },
            Error::InvalidSecuritySymbol { symbol } => {
                let mut out = String::from_str("invalid security symbol: ");
                out.append(symbol.as_str());
                out
            },
            Error::UnknownMarket { symbol } => {
                let mut out = String::from_str("unknown market: ");
                out.append(symbol.as_str());
                out
            },
            Error::UnknownTradeSession { symbol, time } => {
                let mut out = String::from_str("unknown trade session: ");
                out.append(symbol.as_str());
                out.append(", time=");
                let at = time.render();
                out.append(at.as_str());
                out
            },
            Error::HttpClient(e) => e.describe(),
            Error::WsClient(e) => e.describe(),
        }
    }

    /// Returns the OpenAPI error code
    pub fn openapi_error_code(&self) -> (r: Option<i64>)
        ensures
            r == openapi_code_of(self@),
    {
        match self {
            Error::HttpClient(HttpClientError::OpenApi { code, .. }) => Some(*code as i64),
            Error::WsClient(WsClientError::ResponseError { detail, .. }) => match detail {
                Some(d) => Some(wrap_code(d.code)),
                None => None,
            },
            _ => None,
        }
    }

    /// Consumes this error and returns a simple error
    pub fn into_simple_error(self) -> (r: SimpleError)
        ensures
            r@ == simple_error_of(self@),
    {
        match self {
            Error::HttpClient(HttpClientError::OpenApi { code, message, trace_id }) => {
                SimpleError::Response { code: code as i64, message, trace_id }
            },
            Error::WsClient(WsClientError::ResponseError { status, detail: Some(d) }) => {
                SimpleError::Response {
                    code: wrap_code(d.code),
                    message: d.msg,
                    trace_id: String::new(),
                }
            },
            other => SimpleError::Other(other.describe()),
        }
    }
}

impl From<Error> for SimpleError {
    #[inline]
    fn from(err: Error) -> (r: SimpleError)
        ensures
            r@ == simple_error_of(err@),
    {
        err.into_simple_error()
    }
}

/// What `from` returns is stated by `from` itself, over the views: a
/// specification cannot write down a `String`, so `from_spec` says nothing.
impl vstd::std_specs::convert::FromSpecImpl<Error> for SimpleError {
    open spec fn obeys_from_spec() -> bool {
        false
    }

    open spec fn from_spec(err: Error) -> SimpleError {
        arbitrary()
    }
}

impl SimpleError {
    /// Returns the error code
    pub fn code(&self) -> (r: Option<i64>)
        ensures
            r == match self@ {
                SimpleErrorView::Response { code, .. } => Some(code),
                SimpleErrorView::Other(_) => None,
            },
    {
        match self {
            SimpleError::Response { code, .. } => Some(*code),
            SimpleError::Other(_) => None,
        }
    }

    /// Returns the trace id
    pub fn trace_id(&self) -> (r: Option<&str>)
        ensures
            match self@ {
                SimpleErrorView::Response { trace_id, .. } => r matches Some(t) && t@ == trace_id,
                SimpleErrorView::Other(_) => r is None,
            },
    {
        match self {
            SimpleError::Response { trace_id, .. } => Some(trace_id.as_str()),
            SimpleError::Other(_) => None,
        }
    }

    /// Returns the error message
    pub fn message(&self) -> (r: &str)
        ensures
            r@ == match self@ {
                SimpleErrorView::Response { message, .. } => message,
                SimpleErrorView::Other(message) => message,
            },
    {
        match self {
            SimpleError::Response { message, .. } => message.as_str(),
            SimpleError::Other(message) => message.as_str(),
        }
    }

    /// The human-readable text of the error.
    pub fn describe(&self) -> (r: String)
        ensures
            r@ == simple_error_text(self@),
    {
        match self {
            SimpleError::Response { code, message, .. } => {
                let mut out = String::from_str("response error: code=");
                push_int(&mut out, *code);
                out.append(" message=");
                out.append(message.as_str());
                out
            },
            SimpleError::Other(text) => {
                let mut out = String::from_str("other error: ");
                out.append(text.as_str());
                out
            },
        }
    }
}

} // verus!
