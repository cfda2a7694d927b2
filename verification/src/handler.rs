//! The decisions of the handler glue: what a caller gets back from an invocation of
//! `wrpc:http` handlers, and what a served handler sends back.
use vstd::prelude::*;

use crate::message::{
    response_head_from_http, response_head_to_http, try_http_to_response,
    try_response_head_to_http, HttpResponseHead, ResponseConversion,
};
use crate::fields::kept_fields;
use crate::http_api::HEADER_MAP_GROWTH_LIMIT;
use crate::types::{ConvertError, ErrorCode, HeaderError, ResponseHead};

verus! {

/// Serves `wrpc:http` handlers with a handler of `http` messages.
#[derive(Clone, Copy, Debug)]
pub struct ServeHttp<T>(pub T);

/// Serves `wrpc:http/incoming-handler` with a handler of Wasmtime's `wasi:http` messages.
#[derive(Clone, Copy, Debug)]
pub struct ServeWasmtime<T>(pub T);

/// What an invoker receives once the remote handler has answered: the response converted
/// to an `http` response head, or the error code that the handler sent, unchanged.
pub fn invoke_outcome(response: Result<ResponseHead, ErrorCode>) -> (r: Result<
    Result<HttpResponseHead, ErrorCode>,
    ConvertError,
>)
    ensures
        response matches Err(code) ==> r matches Ok(Err(c)) && c == code,
        response matches Ok(h) ==> !(r matches Ok(Err(_))),
        response matches Ok(h) ==> (r matches Ok(Ok(x)) ==> response_head_to_http(h@)
            == ResponseConversion::Ok(x@)),
        response matches Ok(h) ==> (r matches Err(e) ==> response_head_to_http(h@)
            == ResponseConversion::Err(e) || (e == ConvertError::Headers(
            HeaderError::TooManyHeaders,
        ) && kept_fields(h@.headers).len() >= HEADER_MAP_GROWTH_LIMIT)),
{
    match response {
        Ok(head) => match try_response_head_to_http(head) {
            Ok(x) => Ok(Ok(x)),
            Err(e) => Err(e),
        },
        Err(code) => Ok(Err(code)),
    }
}

/// What a served handler sends back once its `http` handler has answered: the response
/// head converted to `wrpc:http`, or the error code it gave, unchanged.
pub fn serve_outcome(response: Result<HttpResponseHead, ErrorCode>) -> (r: Result<
    Result<ResponseHead, ErrorCode>,
    ConvertError,
>)
    ensures
        response matches Err(code) ==> r matches Ok(Err(c)) && c == code,
        response matches Ok(x) ==> r matches Ok(Ok(h)) && response_head_from_http(h@, x@),
{
    match response {
        Ok(x) => match try_http_to_response(x) {
            Ok(h) => Ok(Ok(h)),
            Err(e) => Err(e),
        },
        Err(code) => Ok(Err(code)),
    }
}

} // verus!
