//! Conversions between the heads of `wrpc:http` requests and responses and those of the
//! `http` crate.
use vstd::prelude::*;

use crate::fields::{
    fields_map, lemma_valid_fields_build_map, lemma_canonical_fields_kept, lemma_fields_listing_roundtrip, names_of, header_contents_of_fields, kept_fields, lemma_fields_to_map_keeps_entries,
    lemma_listed_fields_rebuild, names_canonical, names_distinct, try_fields_to_header_map,
    try_header_map_to_fields, values_nonempty, values_valid,
};
use crate::http_api::{
    authority_accepts, authority_text_reaccepted, is_uri_delimiter, path_text_reparses, utf8_len,
    MAX_URI_LEN, authority_from_str, authority_to_string,
    header_map_contents, header_map_listing, header_map_order, is_scheme_text, listing_of, parse_header_name, is_token, method_text, path_and_query_from_str,
    path_and_query_parse, path_and_query_text, path_and_query_to_string, status_code_as_u16,
    status_code_from_u16, status_code_value, uri_authority, uri_authority_text,
    uri_from_parts, uri_path_and_query, uri_path_and_query_text, uri_scheme,
    uri_scheme_text, HEADER_MAP_GROWTH_LIMIT,
};
use crate::method::{method_from_http, method_of_text, method_to_http, method_view_text};
use crate::scheme::{scheme_from_http, scheme_of_text, scheme_to_http, scheme_view_text};
use crate::types::{
    ContentsResult, ConvertError, FieldsView, HeaderContents, HeaderError, MethodView, RequestHead,
    RequestHeadView, ResponseHead, SchemeView,
};

verus! {

// ---------------------------------------------------------------------------
// Requests
// ---------------------------------------------------------------------------

/// The head of an `http::Request`: its method, its URI and its headers.
pub struct HttpRequestHead {
    pub method: http::Method,
    pub uri: http::Uri,
    pub headers: http::HeaderMap,
}

/// An `http` request head, or why a `wrpc:http` one does not convert to it.
pub type RequestConversion = Result<HttpRequestHeadView, ConvertError>;

pub struct HttpRequestHeadView {
    pub method: Seq<char>,
    pub scheme: Option<Seq<char>>,
    pub authority: Option<Seq<char>>,
    pub path_and_query: Option<Seq<char>>,
    pub headers: HeaderContents,
    /// The header names in the order of the map's table of entries.
    pub header_order: Seq<Seq<char>>,
}

impl View for HttpRequestHead {
    type V = HttpRequestHeadView;

    open spec fn view(&self) -> HttpRequestHeadView {
        HttpRequestHeadView {
            method: method_text(self.method),
            scheme: uri_scheme_text(self.uri),
            authority: uri_authority_text(self.uri),
            path_and_query: uri_path_and_query_text(self.uri),
            headers: header_map_contents(self.headers),
            header_order: header_map_order(self.headers),
        }
    }
}

/// The path and query that a request head asks for: `/` where it names none or an empty
/// one, as `http`'s URI builder takes an empty path and query.
pub open spec fn path_source(h: RequestHeadView) -> Seq<char> {
    match h.path_with_query {
        Some(p) => if p.len() == 0 {
            seq!['/']
        } else {
            p
        },
        None => seq!['/'],
    }
}

pub open spec fn opt_scheme_view_text(s: Option<SchemeView>) -> Option<Seq<char>> {
    match s {
        Some(s) => Some(scheme_view_text(s)),
        None => None,
    }
}

pub open spec fn opt_scheme_of_text(s: Option<Seq<char>>) -> Option<SchemeView> {
    match s {
        Some(s) => Some(scheme_of_text(s)),
        None => None,
    }
}

/// The URI of a request head can be built: its path and query and its authority parse,
/// and it has a scheme exactly when it has an authority.
pub open spec fn request_uri_valid(h: RequestHeadView) -> bool {
    &&& path_and_query_parse(path_source(h)) is Some
    &&& (h.authority matches Some(a) ==> authority_accepts(a))
    &&& (h.scheme is Some) == (h.authority is Some)
}

/// The `http` request head that a `wrpc:http` request head converts to, or the first
/// reason it does not: its scheme, then its URI, then its method, then its headers.
pub open spec fn request_head_to_http(h: RequestHeadView) -> RequestConversion {
    if h.scheme matches Some(s) && !is_scheme_text(scheme_view_text(s)) {
        Err(ConvertError::InvalidScheme)
    } else if !request_uri_valid(h) {
        Err(ConvertError::InvalidUri)
    } else if !is_token(method_view_text(h.method)) {
        Err(ConvertError::InvalidMethod)
    } else {
        match header_contents_of_fields(h.headers) {
            Err(e) => Err(ConvertError::Headers(e)),
            Ok(c) => Ok(
                HttpRequestHeadView {
                    method: method_view_text(h.method),
                    scheme: opt_scheme_view_text(h.scheme),
                    authority: h.authority,
                    path_and_query: path_and_query_parse(path_source(h)),
                    headers: c,
                    header_order: names_of(kept_fields(h.headers)),
                },
            ),
        }
    }
}

/// A `wrpc:http` request head read from an `http` one: the method and the scheme by their
/// texts, the path and query and the authority as their texts, and each header name once
/// with its values, in the order of the map's table of entries.
pub open spec fn request_head_from_http(h: RequestHeadView, x: HttpRequestHeadView) -> bool {
    &&& h.method == method_of_text(x.method)
    &&& h.path_with_query == x.path_and_query
    &&& h.scheme == opt_scheme_of_text(x.scheme)
    &&& h.authority == x.authority
    &&& h.headers == listing_of(x.header_order, x.headers)
    &&& names_distinct(h.headers)
    &&& values_nonempty(h.headers)
    &&& fields_map(h.headers) == x.headers
}

/// Converts the head of a `wrpc:http/types.request` to the head of an `http::Request`.
///
/// The URI takes the path and query, `/` where there is none, the scheme and the
/// authority; the headers are built from the fields.
pub fn try_request_head_to_http(head: RequestHead) -> (r: Result<HttpRequestHead, ConvertError>)
    ensures
        r matches Ok(x) ==> request_head_to_http(head@) == RequestConversion::Ok(x@),
        r matches Ok(x) ==> (head@.path_with_query is None || head@.path_with_query == Some(
            Seq::<char>::empty(),
        ) ==> uri_path_and_query_text(x.uri) == Some(seq!['/'])),
        r matches Ok(x) ==> (head@.path_with_query matches Some(p) ==> (p.len() > 0
            ==> uri_path_and_query_text(x.uri) == path_and_query_parse(p))),
        r matches Ok(x) ==> uri_authority_text(x.uri) == head@.authority,
        r matches Err(e) ==> request_head_to_http(head@) == RequestConversion::Err(e) || (e
            == ConvertError::Headers(HeaderError::TooManyHeaders) && kept_fields(
            head@.headers,
        ).len() >= HEADER_MAP_GROWTH_LIMIT),
{
    let ghost h = head@;
    let RequestHead { method, path_with_query, scheme, authority, headers } = head;
    proof {
        reveal_strlit("/");
        assert("/"@ =~= seq!['/']);
    }
    let path_and_query = match &path_with_query {
        Some(p) => if p.as_str().is_empty() {
            path_and_query_from_str("/")
        } else {
            path_and_query_from_str(p.as_str())
        },
        None => path_and_query_from_str("/"),
    };
    assert(path_and_query matches Ok(p) ==> (h.path_with_query is None || h.path_with_query == Some(
        Seq::<char>::empty(),
    ) ==> path_and_query_text(p) == seq!['/']));
    assert(path_and_query is Ok <==> path_and_query_parse(path_source(h)) is Some);
    assert(path_and_query matches Ok(p) ==> path_and_query_text(p) == path_and_query_parse(path_source(h))->0);
    let scheme = match &scheme {
        Some(s) => match scheme_to_http(s) {
            Ok(s) => Some(s),
            Err(e) => {
                return Err(e);
            },
        },
        None => None,
    };
    let authority = match &authority {
        Some(a) => match authority_from_str(a.as_str()) {
            Ok(a) => Some(a),
            Err(_) => {
                return Err(ConvertError::InvalidUri);
            },
        },
        None => None,
    };
    let path_and_query = match path_and_query {
        Ok(p) => p,
        Err(_) => {
            return Err(ConvertError::InvalidUri);
        },
    };
    let uri = match uri_from_parts(scheme, authority, path_and_query) {
        Ok(uri) => uri,
        Err(_) => {
            return Err(ConvertError::InvalidUri);
        },
    };
    let method = match method_to_http(&method) {
        Ok(m) => m,
        Err(e) => {
            return Err(e);
        },
    };
    let headers = match try_fields_to_header_map(headers) {
        Ok(headers) => headers,
        Err(e) => {
            return Err(ConvertError::Headers(e));
        },
    };
    Ok(HttpRequestHead { method, uri, headers })
}

/// What holds of the head of every `http::Request`: its method is a token and its scheme
/// one that `http` accepts; its authority, when it holds no `/`, `?` or `#`, and its path
/// and query text, when it fits in a URI, parse back to themselves; and it lacks a path
/// and query only when it has an authority and no scheme.
pub open spec fn http_request_head_valid(x: HttpRequestHeadView) -> bool {
    &&& is_token(x.method)
    &&& (x.scheme matches Some(s) ==> is_scheme_text(s))
    &&& (x.authority matches Some(a) ==> authority_text_reaccepted(a))
    &&& (x.path_and_query matches Some(t) ==> path_text_reparses(t))
    &&& (x.path_and_query is None ==> x.authority is Some && x.scheme is None)
}

/// Converts the head of an `http::Request` to the head of a `wrpc:http/types.request`:
/// the path and query, the scheme and the authority come from the URI.
pub fn try_http_to_request(head: HttpRequestHead) -> (r: Result<RequestHead, ConvertError>)
    ensures
        r matches Ok(h) && request_head_from_http(h@, head@),
        r matches Ok(h) && {
            &&& h@.path_with_query == uri_path_and_query_text(head.uri)
            &&& h@.authority == uri_authority_text(head.uri)
            &&& opt_scheme_view_text(h@.scheme) == uri_scheme_text(head.uri)
            &&& method_view_text(h@.method) == method_text(head.method)
            &&& h@.headers == header_map_listing(head.headers)
        },
        http_request_head_valid(head@),
{
    let ghost x = head@;
    let HttpRequestHead { method, uri, headers } = head;
    let headers = match try_header_map_to_fields(headers) {
        Ok(fields) => fields,
        Err(e) => {
            return Err(ConvertError::Headers(e));
        },
    };
    let path_with_query = match uri_path_and_query(&uri) {
        Some(p) => Some(path_and_query_to_string(p)),
        None => None,
    };
    let scheme = match uri_scheme(&uri) {
        Some(s) => Some(scheme_from_http(s)),
        None => None,
    };
    let authority = match uri_authority(&uri) {
        Some(a) => Some(authority_to_string(a)),
        None => None,
    };
    let method = method_from_http(&method);
    Ok(RequestHead { method, path_with_query, scheme, authority, headers })
}

/// The path and query of the URI that a request head converts to is the one the head
/// asks for, as `http` parses it, and `/` when the head gives none or an empty one,
/// whatever its method, scheme, authority and headers.
pub proof fn lemma_request_path(h: RequestHeadView)
    ensures
        request_head_to_http(h) matches Ok(x) ==> (h.path_with_query is None
            || h.path_with_query == Some(Seq::<char>::empty()) ==> x.path_and_query
            == path_and_query_parse(seq!['/'])),
        request_head_to_http(h) matches Ok(x) ==> (h.path_with_query matches Some(p) ==> (p.len()
            > 0 ==> x.path_and_query == path_and_query_parse(p))),
{
}

/// A request head converts exactly when its scheme, if any, is one that `http` accepts,
/// its URI can be built, its method is a token and its header fields build a header map;
/// the converted head then carries the method's text, the scheme's text, the authority
/// and exactly the map that the fields build.
pub proof fn lemma_request_head_converts(h: RequestHeadView)
    ensures
        request_head_to_http(h) is Ok <==> {
            &&& (h.scheme matches Some(s) ==> is_scheme_text(scheme_view_text(s)))
            &&& request_uri_valid(h)
            &&& is_token(method_view_text(h.method))
            &&& header_contents_of_fields(h.headers) is Ok
        },
        request_head_to_http(h) matches Ok(x) ==> {
            &&& x.method == method_view_text(h.method)
            &&& x.scheme == opt_scheme_view_text(h.scheme)
            &&& x.authority == h.authority
            &&& header_contents_of_fields(h.headers) == ContentsResult::Ok(x.headers)
        },
{
}


/// The canonical form of a method: another method spelled as a standard one is that
/// standard method.
pub open spec fn canonical_method(m: MethodView) -> MethodView {
    match m {
        MethodView::Other(s) => method_of_text(s),
        _ => m,
    }
}

/// The canonical form of a scheme: another scheme spelled as a standard one is that
/// standard scheme.
pub open spec fn canonical_scheme(s: Option<SchemeView>) -> Option<SchemeView> {
    match s {
        Some(SchemeView::Other(t)) => Some(scheme_of_text(t)),
        _ => s,
    }
}

/// A `wrpc:http` request head that converts to `http` and is read back keeps its method
/// and scheme up to their canonical forms and its authority, gets the path and query as
/// `http` writes the one it parsed, and keeps every header entry that has values, in its
/// order, under its name in lower case.
pub proof fn lemma_request_head_roundtrip(h: RequestHeadView, x: HttpRequestHeadView, back: RequestHeadView)
    requires
        request_head_to_http(h) == RequestConversion::Ok(x),
        request_head_from_http(back, x),
    ensures
        back.method == canonical_method(h.method),
        back.scheme == canonical_scheme(h.scheme),
        back.authority == h.authority,
        back.path_with_query == path_and_query_parse(path_source(h)),
        back.headers == kept_fields(h.headers),
{
    crate::method::lemma_wrpc_method_roundtrip(h.method);
    if let Some(s) = h.scheme {
        crate::scheme::lemma_wrpc_scheme_roundtrip(s);
    }
    lemma_fields_to_map_keeps_entries(h.headers);
    lemma_fields_listing_roundtrip(h.headers, x.headers);
}

/// An `http` request head read into `wrpc:http` converts back to the same head when its
/// URI has a scheme exactly when it has an authority, its authority holds no `/`, `?` or
/// `#`, and its path and query fits in a URI; in general it converts back exactly when
/// its URI can be built again, and then to the same method, scheme, authority and
/// headers. This holds when the header names and values are ones that `http` keeps as
/// they are.
pub proof fn lemma_http_request_head_roundtrip(x: HttpRequestHeadView, h: RequestHeadView)
    requires
        http_request_head_valid(x),
        request_head_from_http(h, x),
        names_canonical(h.headers),
        values_valid(h.headers),
    ensures
        request_head_to_http(h) is Ok <==> request_uri_valid(h),
        request_uri_valid(h) ==> request_head_to_http(h) == RequestConversion::Ok(
            HttpRequestHeadView { path_and_query: path_and_query_parse(path_source(h)), ..x },
        ),
        ((x.scheme is Some) == (x.authority is Some) && (x.authority matches Some(a) ==> forall|i: int|
            0 <= i < a.len() ==> !is_uri_delimiter(#[trigger] a[i])) && (x.path_and_query matches Some(
            t,
        ) ==> utf8_len(t) <= MAX_URI_LEN)) ==> request_head_to_http(h) == RequestConversion::Ok(x),
{
    crate::method::lemma_http_method_roundtrip(x.method);
    if let Some(s) = x.scheme {
        crate::scheme::lemma_http_scheme_roundtrip(s);
    }
    lemma_listed_fields_rebuild(h.headers);
    lemma_canonical_fields_kept(h.headers);
    assert(names_of(h.headers) =~= x.header_order);
}

// ---------------------------------------------------------------------------
// Responses
// ---------------------------------------------------------------------------

/// The head of an `http::Response`: its status code and its headers.
pub struct HttpResponseHead {
    pub status: http::StatusCode,
    pub headers: http::HeaderMap,
}

/// An `http` response head, or why a `wrpc:http` one does not convert to it.
pub type ResponseConversion = Result<HttpResponseHeadView, ConvertError>;

pub struct HttpResponseHeadView {
    pub status: u16,
    pub headers: HeaderContents,
    /// The header names in the order of the map's table of entries.
    pub header_order: Seq<Seq<char>>,
}

impl View for HttpResponseHead {
    type V = HttpResponseHeadView;

    open spec fn view(&self) -> HttpResponseHeadView {
        HttpResponseHeadView {
            status: status_code_value(self.status),
            headers: header_map_contents(self.headers),
            header_order: header_map_order(self.headers),
        }
    }
}

pub struct ResponseHeadView {
    pub status: u16,
    pub headers: FieldsView,
}

impl View for ResponseHead {
    type V = ResponseHeadView;

    open spec fn view(&self) -> ResponseHeadView {
        ResponseHeadView { status: self.status, headers: self.headers.deep_view() }
    }
}

/// The `http` response head that a `wrpc:http` response head converts to, or the first
/// reason it does not: its status, then its headers.
pub open spec fn response_head_to_http(h: ResponseHeadView) -> ResponseConversion {
    if !(100 <= h.status <= 999) {
        Err(ConvertError::InvalidStatus)
    } else {
        match header_contents_of_fields(h.headers) {
            Err(e) => Err(ConvertError::Headers(e)),
            Ok(c) => Ok(
                HttpResponseHeadView {
                    status: h.status,
                    headers: c,
                    header_order: names_of(kept_fields(h.headers)),
                },
            ),
        }
    }
}

/// A `wrpc:http` response head read from an `http` one: the status, and each header name
/// once with its values, in the order of the map's table of entries.
pub open spec fn response_head_from_http(h: ResponseHeadView, x: HttpResponseHeadView) -> bool {
    &&& h.status == x.status
    &&& h.headers == listing_of(x.header_order, x.headers)
    &&& names_distinct(h.headers)
    &&& values_nonempty(h.headers)
    &&& fields_map(h.headers) == x.headers
}

/// Converts the head of a `wrpc:http/types.response` to the head of an `http::Response`.
pub fn try_response_head_to_http(head: ResponseHead) -> (r: Result<HttpResponseHead, ConvertError>)
    ensures
        r matches Ok(x) ==> response_head_to_http(head@) == ResponseConversion::Ok(x@),
        r matches Err(e) ==> response_head_to_http(head@) == ResponseConversion::Err(e) || (e
            == ConvertError::Headers(HeaderError::TooManyHeaders) && kept_fields(
            head@.headers,
        ).len() >= HEADER_MAP_GROWTH_LIMIT),
{
    let ghost h = head@;
    let ResponseHead { status, headers } = head;
    let status = match status_code_from_u16(status) {
        Ok(s) => s,
        Err(_) => {
            return Err(ConvertError::InvalidStatus);
        },
    };
    let headers = match try_fields_to_header_map(headers) {
        Ok(headers) => headers,
        Err(e) => {
            return Err(ConvertError::Headers(e));
        },
    };
    Ok(HttpResponseHead { status, headers })
}

/// Converts the head of an `http::Response` to the head of a `wrpc:http/types.response`.
pub fn try_http_to_response(head: HttpResponseHead) -> (r: Result<ResponseHead, ConvertError>)
    ensures
        r matches Ok(h) && response_head_from_http(h@, head@),
{
    let HttpResponseHead { status, headers } = head;
    let headers = match try_header_map_to_fields(headers) {
        Ok(fields) => fields,
        Err(e) => {
            return Err(ConvertError::Headers(e));
        },
    };
    Ok(ResponseHead { status: status_code_as_u16(&status), headers })
}

/// A `wrpc:http` response head that converts to `http` and is read back keeps its status
/// and every header entry that has values, in its order, under its name in lower case.
pub proof fn lemma_response_head_roundtrip(h: ResponseHeadView, x: HttpResponseHeadView, back: ResponseHeadView)
    requires
        response_head_to_http(h) == ResponseConversion::Ok(x),
        response_head_from_http(back, x),
    ensures
        back.status == h.status,
        back.headers == kept_fields(h.headers),
{
    lemma_fields_to_map_keeps_entries(h.headers);
    lemma_fields_listing_roundtrip(h.headers, x.headers);
}

/// A response head whose status is from 100 to 999 converts exactly when its header
/// fields build a header map, whatever the case of their names, and then to that status
/// and that map; a status outside that range is refused first.
pub proof fn lemma_response_head_converts(h: ResponseHeadView)
    ensures
        !(100 <= h.status <= 999) ==> response_head_to_http(h) == ResponseConversion::Err(
            ConvertError::InvalidStatus,
        ),
        100 <= h.status <= 999 ==> (response_head_to_http(h) is Ok <==> header_contents_of_fields(
            h.headers,
        ) is Ok),
        100 <= h.status <= 999 ==> (header_contents_of_fields(h.headers) matches Ok(c)
            ==> response_head_to_http(h) matches Ok(x) && x.status == h.status && x.headers == c),
        100 <= h.status <= 999 ==> (header_contents_of_fields(h.headers) matches Err(e)
            ==> response_head_to_http(h) == ResponseConversion::Err(ConvertError::Headers(e))),
{
}

/// A response head with a status from 100 to 999, header names that parse as header
/// names in any case and at any position, no two of them the same once lowered, and
/// valid values, converts; the map holds each entry with values under its lowered name.
pub proof fn lemma_valid_response_head_converts(h: ResponseHeadView)
    requires
        100 <= h.status <= 999,
        forall|i: int| 0 <= i < h.headers.len() ==> (#[trigger] parse_header_name(h.headers[i].0)) is Some,
        forall|i: int, j: int|
            0 <= i < j < h.headers.len() ==> parse_header_name(#[trigger] h.headers[i].0)
                != parse_header_name(#[trigger] h.headers[j].0),
        values_valid(h.headers),
    ensures
        response_head_to_http(h) matches Ok(x) && x.status == h.status && forall|i: int|
            0 <= i < h.headers.len() && h.headers[i].1.len() > 0 ==> {
                &&& x.headers.contains_key(parse_header_name(#[trigger] h.headers[i].0)->0)
                &&& x.headers[parse_header_name(h.headers[i].0)->0] == h.headers[i].1
            },
{
    lemma_valid_fields_build_map(h.headers);
}

/// An `http` response head read into `wrpc:http` converts back to the same head, when its
/// header names are ones that `http` parses to themselves and its header values are valid.
pub proof fn lemma_http_response_head_roundtrip(x: HttpResponseHeadView, h: ResponseHeadView)
    requires
        100 <= x.status <= 999,
        response_head_from_http(h, x),
        names_canonical(h.headers),
        values_valid(h.headers),
    ensures
        response_head_to_http(h) == ResponseConversion::Ok(x),
{
    lemma_listed_fields_rebuild(h.headers);
    lemma_canonical_fields_kept(h.headers);
    assert(names_of(h.headers) =~= x.header_order);
}

} // verus!
