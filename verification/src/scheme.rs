//! Conversions between `wrpc:http/types.scheme` and `http::uri::Scheme`.
use vstd::prelude::*;

use crate::http_api::{is_scheme_text, scheme_as_str, scheme_from_str, scheme_text};
use crate::text::text_eq;
use crate::types::{ConvertError, SchemeView, WrpcScheme};

verus! {

/// The scheme that a scheme's text names: `http` and `https` are the standard ones.
pub open spec fn scheme_of_text(s: Seq<char>) -> SchemeView {
    if s == "http"@ {
        SchemeView::Http
    } else if s == "https"@ {
        SchemeView::Https
    } else {
        SchemeView::Other(s)
    }
}

/// The text of a scheme.
pub open spec fn scheme_view_text(s: SchemeView) -> Seq<char> {
    match s {
        SchemeView::Http => "http"@,
        SchemeView::Https => "https"@,
        SchemeView::Other(s) => s,
    }
}

/// Converts an `http::uri::Scheme` to the scheme of `wrpc:http/types`, by its text, which
/// `http` accepts.
pub fn scheme_from_http(scheme: &http::uri::Scheme) -> (r: WrpcScheme)
    ensures
        r@ == scheme_of_text(scheme_text(*scheme)),
        is_scheme_text(scheme_text(*scheme)),
{
    let s = scheme_as_str(scheme);
    if text_eq(s, "http") {
        WrpcScheme::Http
    } else if text_eq(s, "https") {
        WrpcScheme::Https
    } else {
        WrpcScheme::Other(s.to_owned())
    }
}

/// Converts a scheme of `wrpc:http/types` to an `http::uri::Scheme`. The standard schemes
/// always convert; another scheme converts when `http` accepts its text.
pub fn scheme_to_http(scheme: &WrpcScheme) -> (r: Result<http::uri::Scheme, ConvertError>)
    ensures
        r is Ok <==> is_scheme_text(scheme_view_text(scheme@)),
        r matches Ok(s) ==> scheme_text(s) == scheme_view_text(scheme@),
        r matches Err(e) ==> e == ConvertError::InvalidScheme,
{
    let parsed = match scheme {
        WrpcScheme::Http => scheme_from_str("http"),
        WrpcScheme::Https => scheme_from_str("https"),
        WrpcScheme::Other(s) => scheme_from_str(s.as_str()),
    };
    match parsed {
        Ok(s) => Ok(s),
        Err(_) => Err(ConvertError::InvalidScheme),
    }
}

/// The standard schemes are accepted by `http`.
pub proof fn lemma_standard_schemes_accepted()
    ensures
        is_scheme_text("http"@),
        is_scheme_text("https"@),
{
    reveal_strlit("http");
    reveal_strlit("https");
}

/// Converting an `http::uri::Scheme` to `wrpc:http/types` and back gives the same scheme:
/// the conversion back succeeds and keeps the text.
pub proof fn lemma_http_scheme_roundtrip(s: Seq<char>)
    requires
        is_scheme_text(s),
    ensures
        is_scheme_text(scheme_view_text(scheme_of_text(s))),
        scheme_view_text(scheme_of_text(s)) == s,
{
}

/// Converting a scheme of `wrpc:http/types` to `http` and back gives it again, unless it is
/// another scheme spelled as a standard one, which comes back as that standard scheme.
pub proof fn lemma_wrpc_scheme_roundtrip(s: SchemeView)
    ensures
        scheme_of_text(scheme_view_text(s)) == match s {
            SchemeView::Other(t) => scheme_of_text(t),
            _ => s,
        },
{
    reveal_strlit("http");
    reveal_strlit("https");
    assert("http"@.len() == 4 && "https"@.len() == 5);
}

} // verus!
