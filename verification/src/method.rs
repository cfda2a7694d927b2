//! Conversions between `wrpc:http/types.method` and `http::Method`.
use vstd::prelude::*;

use crate::http_api::{is_token, method_as_str, method_from_str, method_text};
use crate::text::text_eq;
use crate::types::{ConvertError, MethodView, WrpcMethod};

verus! {

/// The method that a method's text names: one of the standard methods when the text is
/// its name in upper case, another method otherwise.
pub open spec fn method_of_text(s: Seq<char>) -> MethodView {
    if s == "GET"@ {
        MethodView::Get
    } else if s == "HEAD"@ {
        MethodView::Head
    } else if s == "POST"@ {
        MethodView::Post
    } else if s == "PUT"@ {
        MethodView::Put
    } else if s == "DELETE"@ {
        MethodView::Delete
    } else if s == "CONNECT"@ {
        MethodView::Connect
    } else if s == "OPTIONS"@ {
        MethodView::Options
    } else if s == "TRACE"@ {
        MethodView::Trace
    } else if s == "PATCH"@ {
        MethodView::Patch
    } else {
        MethodView::Other(s)
    }
}

/// The text of a method.
pub open spec fn method_view_text(m: MethodView) -> Seq<char> {
    match m {
        MethodView::Get => "GET"@,
        MethodView::Head => "HEAD"@,
        MethodView::Post => "POST"@,
        MethodView::Put => "PUT"@,
        MethodView::Delete => "DELETE"@,
        MethodView::Connect => "CONNECT"@,
        MethodView::Options => "OPTIONS"@,
        MethodView::Trace => "TRACE"@,
        MethodView::Patch => "PATCH"@,
        MethodView::Other(s) => s,
    }
}

/// Converts an `http::Method` to the method of `wrpc:http/types`, by its text, which is a
/// token.
pub fn method_from_http(method: &http::Method) -> (r: WrpcMethod)
    ensures
        r@ == method_of_text(method_text(*method)),
        is_token(method_text(*method)),
{
    let s = method_as_str(method);
    if text_eq(s, "GET") {
        WrpcMethod::Get
    } else if text_eq(s, "HEAD") {
        WrpcMethod::Head
    } else if text_eq(s, "POST") {
        WrpcMethod::Post
    } else if text_eq(s, "PUT") {
        WrpcMethod::Put
    } else if text_eq(s, "DELETE") {
        WrpcMethod::Delete
    } else if text_eq(s, "CONNECT") {
        WrpcMethod::Connect
    } else if text_eq(s, "OPTIONS") {
        WrpcMethod::Options
    } else if text_eq(s, "TRACE") {
        WrpcMethod::Trace
    } else if text_eq(s, "PATCH") {
        WrpcMethod::Patch
    } else {
        WrpcMethod::Other(s.to_owned())
    }
}

/// Converts a method of `wrpc:http/types` to an `http::Method`. A standard method always
/// converts; another method converts when its text is a token.
pub fn method_to_http(method: &WrpcMethod) -> (r: Result<http::Method, ConvertError>)
    ensures
        r is Ok <==> is_token(method_view_text(method@)),
        r matches Ok(m) ==> method_text(m) == method_view_text(method@),
        r matches Err(e) ==> e == ConvertError::InvalidMethod,
{
    let parsed = match method {
        WrpcMethod::Get => method_from_str("GET"),
        WrpcMethod::Head => method_from_str("HEAD"),
        WrpcMethod::Post => method_from_str("POST"),
        WrpcMethod::Put => method_from_str("PUT"),
        WrpcMethod::Delete => method_from_str("DELETE"),
        WrpcMethod::Connect => method_from_str("CONNECT"),
        WrpcMethod::Options => method_from_str("OPTIONS"),
        WrpcMethod::Trace => method_from_str("TRACE"),
        WrpcMethod::Patch => method_from_str("PATCH"),
        WrpcMethod::Other(s) => method_from_str(s.as_str()),
    };
    match parsed {
        Ok(m) => Ok(m),
        Err(_) => Err(ConvertError::InvalidMethod),
    }
}

/// Every standard method converts to `http`: its text is a token.
pub proof fn lemma_standard_methods_accepted()
    ensures
        is_token("GET"@),
        is_token("HEAD"@),
        is_token("POST"@),
        is_token("PUT"@),
        is_token("DELETE"@),
        is_token("CONNECT"@),
        is_token("OPTIONS"@),
        is_token("TRACE"@),
        is_token("PATCH"@),
{
    reveal_strlit("GET");
    reveal_strlit("HEAD");
    reveal_strlit("POST");
    reveal_strlit("PUT");
    reveal_strlit("DELETE");
    reveal_strlit("CONNECT");
    reveal_strlit("OPTIONS");
    reveal_strlit("TRACE");
    reveal_strlit("PATCH");
}

/// A method's text names that method again.
pub proof fn lemma_method_text_roundtrip(s: Seq<char>)
    ensures
        method_view_text(method_of_text(s)) == s,
{
}

/// Converting an `http::Method` to `wrpc:http/types` and back gives the same method: the
/// conversion back succeeds and keeps the text.
pub proof fn lemma_http_method_roundtrip(s: Seq<char>)
    requires
        is_token(s),
    ensures
        is_token(method_view_text(method_of_text(s))),
        method_view_text(method_of_text(s)) == s,
{
}

/// Converting a method of `wrpc:http/types` to `http` and back gives it again, unless it
/// is another method spelled as a standard one, which comes back as that standard method.
pub proof fn lemma_wrpc_method_roundtrip(m: MethodView)
    ensures
        method_of_text(method_view_text(m)) == match m {
            MethodView::Other(s) => method_of_text(s),
            _ => m,
        },
{
    reveal_strlit("GET");
    reveal_strlit("HEAD");
    reveal_strlit("POST");
    reveal_strlit("PUT");
    reveal_strlit("DELETE");
    reveal_strlit("CONNECT");
    reveal_strlit("OPTIONS");
    reveal_strlit("TRACE");
    reveal_strlit("PATCH");
    assert("GET"@.len() == 3 && "PUT"@.len() == 3 && "HEAD"@.len() == 4 && "POST"@.len() == 4);
    assert("DELETE"@.len() == 6 && "CONNECT"@.len() == 7 && "OPTIONS"@.len() == 7);
    assert("TRACE"@.len() == 5 && "PATCH"@.len() == 5);
    assert("CONNECT"@[0] != "OPTIONS"@[0] && "TRACE"@[0] != "PATCH"@[0]);
    assert("GET"@[0] != "PUT"@[0]);
    assert("HEAD"@[0] != "POST"@[0]);
    assert("GET"@ != "HEAD"@ && "GET"@ != "POST"@ && "GET"@ != "PUT"@ && "GET"@ != "DELETE"@);
    assert("HEAD"@ != "POST"@ && "HEAD"@ != "PUT"@ && "HEAD"@ != "DELETE"@);
    assert("POST"@ != "PUT"@ && "POST"@ != "DELETE"@ && "PUT"@ != "DELETE"@);
    assert("GET"@ != "CONNECT"@ && "HEAD"@ != "CONNECT"@ && "POST"@ != "CONNECT"@);
    assert("PUT"@ != "CONNECT"@ && "DELETE"@ != "CONNECT"@);
    assert("GET"@ != "OPTIONS"@ && "HEAD"@ != "OPTIONS"@ && "POST"@ != "OPTIONS"@);
    assert("PUT"@ != "OPTIONS"@ && "DELETE"@ != "OPTIONS"@ && "CONNECT"@ != "OPTIONS"@);
    assert("GET"@ != "TRACE"@ && "HEAD"@ != "TRACE"@ && "POST"@ != "TRACE"@);
    assert("PUT"@ != "TRACE"@ && "DELETE"@ != "TRACE"@ && "CONNECT"@ != "TRACE"@);
    assert("OPTIONS"@ != "TRACE"@);
    assert("GET"@ != "PATCH"@ && "HEAD"@ != "PATCH"@ && "POST"@ != "PATCH"@);
    assert("PUT"@ != "PATCH"@ && "DELETE"@ != "PATCH"@ && "CONNECT"@ != "PATCH"@);
    assert("OPTIONS"@ != "PATCH"@ && "TRACE"@ != "PATCH"@);
}

} // verus!
