//! The `wrpc:http/types` values that travel over wRPC, and their mathematical views.
//!
//! A request or response on the wire carries a byte stream and a trailer future beside
//! its head; those run outside this library, which works on the heads.
use vstd::prelude::*;

verus! {

/// Header fields as `wrpc:http/types.fields` carries them: each name with its list of
/// values, in order.
pub type Fields = Vec<(String, Vec<Vec<u8>>)>;

/// The view of [`Fields`].
pub type FieldsView = Seq<(Seq<char>, Seq<Seq<u8>>)>;

/// What a header map holds: each name with its values, in order.
pub type HeaderContents = Map<Seq<char>, Seq<Seq<u8>>>;

/// Header contents, or why they could not be built.
pub type ContentsResult = Result<HeaderContents, HeaderError>;

/// `wrpc:http/types.method`.
#[derive(Clone, Debug)]
pub enum WrpcMethod {
    Get,
    Head,
    Post,
    Put,
    Delete,
    Connect,
    Options,
    Trace,
    Patch,
    Other(String),
}

pub enum MethodView {
    Get,
    Head,
    Post,
    Put,
    Delete,
    Connect,
    Options,
    Trace,
    Patch,
    Other(Seq<char>),
}

impl View for WrpcMethod {
    type V = MethodView;

    open spec fn view(&self) -> MethodView {
        match self {
            WrpcMethod::Get => MethodView::Get,
            WrpcMethod::Head => MethodView::Head,
            WrpcMethod::Post => MethodView::Post,
            WrpcMethod::Put => MethodView::Put,
            WrpcMethod::Delete => MethodView::Delete,
            WrpcMethod::Connect => MethodView::Connect,
            WrpcMethod::Options => MethodView::Options,
            WrpcMethod::Trace => MethodView::Trace,
            WrpcMethod::Patch => MethodView::Patch,
            WrpcMethod::Other(s) => MethodView::Other(s@),
        }
    }
}

/// `wrpc:http/types.scheme`.
#[derive(Clone, Debug)]
pub enum WrpcScheme {
    Http,
    Https,
    Other(String),
}

pub enum SchemeView {
    Http,
    Https,
    Other(Seq<char>),
}

impl View for WrpcScheme {
    type V = SchemeView;

    open spec fn view(&self) -> SchemeView {
        match self {
            WrpcScheme::Http => SchemeView::Http,
            WrpcScheme::Https => SchemeView::Https,
            WrpcScheme::Other(s) => SchemeView::Other(s@),
        }
    }
}

/// The head of `wrpc:http/types.request`: everything but the body stream and the
/// trailers.
pub struct RequestHead {
    pub method: WrpcMethod,
    pub path_with_query: Option<String>,
    pub scheme: Option<WrpcScheme>,
    pub authority: Option<String>,
    pub headers: Fields,
}

pub struct RequestHeadView {
    pub method: MethodView,
    pub path_with_query: Option<Seq<char>>,
    pub scheme: Option<SchemeView>,
    pub authority: Option<Seq<char>>,
    pub headers: FieldsView,
}

pub open spec fn opt_string_view(s: Option<String>) -> Option<Seq<char>> {
    match s {
        Some(s) => Some(s@),
        None => None,
    }
}

pub open spec fn opt_scheme_view(s: Option<WrpcScheme>) -> Option<SchemeView> {
    match s {
        Some(s) => Some(s@),
        None => None,
    }
}

impl View for RequestHead {
    type V = RequestHeadView;

    open spec fn view(&self) -> RequestHeadView {
        RequestHeadView {
            method: self.method@,
            path_with_query: opt_string_view(self.path_with_query),
            scheme: opt_scheme_view(self.scheme),
            authority: opt_string_view(self.authority),
            headers: self.headers.deep_view(),
        }
    }
}

/// The head of `wrpc:http/types.response`: its status code and its header fields.
pub struct ResponseHead {
    pub status: u16,
    pub headers: Fields,
}

/// `wrpc:http/types.request-options`: the timeouts of an outgoing request, in
/// nanoseconds.
#[derive(Clone, Copy, Debug, PartialEq, Eq, Structural)]
pub struct RequestOptions {
    pub connect_timeout: Option<u64>,
    pub first_byte_timeout: Option<u64>,
    pub between_bytes_timeout: Option<u64>,
}

/// `wasi:http/types.DNS-error-payload`.
#[derive(Clone, Debug)]
pub struct DnsErrorPayload {
    pub rcode: Option<String>,
    pub info_code: Option<u16>,
}

/// `wasi:http/types.TLS-alert-received-payload`.
#[derive(Clone, Debug)]
pub struct TlsAlertReceivedPayload {
    pub alert_id: Option<u8>,
    pub alert_message: Option<String>,
}

/// `wasi:http/types.field-size-payload`.
#[derive(Clone, Debug)]
pub struct FieldSizePayload {
    pub field_name: Option<String>,
    pub field_size: Option<u32>,
}

/// `wasi:http/types.error-code`: why an HTTP exchange failed.
#[derive(Clone, Debug)]
pub enum ErrorCode {
    DnsTimeout,
    DnsError(DnsErrorPayload),
    DestinationNotFound,
    DestinationUnavailable,
    DestinationIpProhibited,
    DestinationIpUnroutable,
    ConnectionRefused,
    ConnectionTerminated,
    ConnectionTimeout,
    ConnectionReadTimeout,
    ConnectionWriteTimeout,
    ConnectionLimitReached,
    TlsProtocolError,
    TlsCertificateError,
    TlsAlertReceived(TlsAlertReceivedPayload),
    HttpRequestDenied,
    HttpRequestLengthRequired,
    HttpRequestBodySize(Option<u64>),
    HttpRequestMethodInvalid,
    HttpRequestUriInvalid,
    HttpRequestUriTooLong,
    HttpRequestHeaderSectionSize(Option<u32>),
    HttpRequestHeaderSize(Option<FieldSizePayload>),
    HttpRequestTrailerSectionSize(Option<u32>),
    HttpRequestTrailerSize(FieldSizePayload),
    HttpResponseIncomplete,
    HttpResponseHeaderSectionSize(Option<u32>),
    HttpResponseHeaderSize(FieldSizePayload),
    HttpResponseBodySize(Option<u64>),
    HttpResponseTrailerSectionSize(Option<u32>),
    HttpResponseTrailerSize(FieldSizePayload),
    HttpResponseTransferCoding(Option<String>),
    HttpResponseContentCoding(Option<String>),
    HttpResponseTimeout,
    HttpUpgradeFailed,
    HttpProtocolError,
    LoopDetected,
    ConfigurationError,
    InternalError(Option<String>),
}

/// Why header fields could not be converted.
#[derive(Clone, Copy, Debug, PartialEq, Eq, Structural)]
pub enum HeaderError {
    /// A name is not a valid header name.
    InvalidName,
    /// A name occurs in a second entry of the fields.
    DuplicateName,
    /// A value holds a byte that a header value cannot hold.
    InvalidValue,
    /// The header map refused to grow further.
    TooManyHeaders,
    /// A value came before any header name.
    MissingName,
}

/// Why a request or a response head could not be converted.
#[derive(Clone, Copy, Debug, PartialEq, Eq, Structural)]
pub enum ConvertError {
    InvalidScheme,
    InvalidUri,
    InvalidMethod,
    InvalidStatus,
    Headers(HeaderError),
}

} // verus!
