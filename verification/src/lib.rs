//! Conversions between the `wrpc:http` interface types and the `http` crate, with the
//! decisions that stream bodies and trailers between them and that glue handlers
//! together.

pub mod body;
pub mod fields;
pub mod handler;
pub mod http_api;
pub mod message;
pub mod method;
pub mod options;
pub mod scheme;
mod text;
pub mod types;

pub use body::{
    poll_frame_step, split_frame, BodyAction, BodyEvent, BodyFrame, BodyState, FrameAction,
    HttpBodyError,
};
pub use fields::{try_fields_to_header_map, try_header_map_to_fields};
pub use handler::{invoke_outcome, serve_outcome, ServeHttp, ServeWasmtime};
pub use message::{
    try_http_to_request, try_http_to_response, try_request_head_to_http, try_response_head_to_http,
    HttpRequestHead, HttpResponseHead,
};
pub use method::{method_from_http, method_to_http};
pub use options::{try_request_options_from_timeouts, TimeoutOverflow};
pub use scheme::{scheme_from_http, scheme_to_http};
pub use types::{
    ConvertError, DnsErrorPayload, ErrorCode, FieldSizePayload, Fields, HeaderError, RequestHead,
    RequestOptions, ResponseHead, TlsAlertReceivedPayload, WrpcMethod, WrpcScheme,
};
