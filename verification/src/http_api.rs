//! Declarations of the `http` crate's types, and the calls that the library makes into
//! the crate, each with what the crate's source shows of it.
use vstd::prelude::*;

use crate::fields::{expand_groups, fields_map, names_distinct, values_nonempty};
use crate::types::{FieldsView, HeaderContents};

verus! {

// ---------------------------------------------------------------------------
// Header values
// ---------------------------------------------------------------------------

#[verifier::external_type_specification]
#[verifier::external_body]
pub struct ExHeaderValue(http::HeaderValue);

#[verifier::external_type_specification]
#[verifier::external_body]
pub struct ExInvalidHeaderValue(http::header::InvalidHeaderValue);

/// A byte that `http::HeaderValue` accepts: a horizontal tab, or any byte from 32 on
/// but 127.
pub open spec fn is_header_value_byte(b: u8) -> bool {
    (b >= 32 && b != 127) || b == 9
}

pub open spec fn is_header_value(v: Seq<u8>) -> bool {
    forall|i: int| 0 <= i < v.len() ==> is_header_value_byte(#[trigger] v[i])
}

/// The bytes that `http::HeaderValue::as_bytes` returns.
pub uninterp spec fn header_value_bytes(v: http::HeaderValue) -> Seq<u8>;

/// Calls `http::HeaderValue::from_bytes`, which accepts exactly the slices whose every
/// byte passes `is_header_value_byte` and keeps the bytes as they are.
#[verifier::external_body]
pub(crate) fn header_value_from_bytes(src: &[u8]) -> (r: Result<
    http::HeaderValue,
    http::header::InvalidHeaderValue,
>)
    ensures
        r is Ok <==> is_header_value(src@),
        r matches Ok(v) ==> header_value_bytes(v) == src@,
{
    http::HeaderValue::from_bytes(src)
}

/// Calls `http::HeaderValue::as_bytes`.
#[verifier::external_body]
pub(crate) fn header_value_as_bytes(v: &http::HeaderValue) -> (r: &[u8])
    ensures
        r@ == header_value_bytes(*v),
{
    v.as_bytes()
}

// ---------------------------------------------------------------------------
// Header names
// ---------------------------------------------------------------------------

#[verifier::external_type_specification]
#[verifier::external_body]
pub struct ExHeaderName(http::HeaderName);

#[verifier::external_type_specification]
#[verifier::external_body]
pub struct ExInvalidHeaderName(http::header::InvalidHeaderName);

/// A `tchar` of RFC 9110: the characters of a token, such as a header name or a method.
pub open spec fn is_token_char(c: char) -> bool {
    let x = c as u32;
    ||| 0x61 <= x <= 0x7a  // a-z
    ||| 0x41 <= x <= 0x5a  // A-Z
    ||| 0x30 <= x <= 0x39  // 0-9
    ||| c == '!' || c == '#' || c == '$' || c == '%' || c == '&' || c == '\''
    ||| c == '*' || c == '+' || c == '-' || c == '.' || c == '^' || c == '_'
    ||| c == '`' || c == '|' || c == '~'
}

pub open spec fn is_token(s: Seq<char>) -> bool {
    &&& s.len() > 0
    &&& forall|i: int| 0 <= i < s.len() ==> is_token_char(#[trigger] s[i])
}

pub open spec fn to_ascii_lower(c: char) -> char {
    let x = c as u32;
    if 0x41 <= x <= 0x5a {
        (x + 32) as char
    } else {
        c
    }
}

/// The longest header name that `http` accepts.
pub const MAX_HEADER_NAME_LEN: usize = 65535;

/// What `http::HeaderName::from_str` makes of a string: the string in lower case when it
/// is a token of at most `MAX_HEADER_NAME_LEN` characters, and nothing otherwise.
pub open spec fn parse_header_name(s: Seq<char>) -> Option<Seq<char>> {
    if is_token(s) && s.len() <= MAX_HEADER_NAME_LEN {
        Some(s.map_values(|c: char| to_ascii_lower(c)))
    } else {
        None
    }
}

/// The text that `http::HeaderName::as_str` returns.
pub uninterp spec fn header_name_text(n: http::HeaderName) -> Seq<char>;

/// Calls `http::HeaderName::from_str`. It maps every byte through a table that keeps the
/// token characters, lowers the upper-case letters and rejects everything else, and it
/// rejects the empty string and strings longer than `MAX_HEADER_NAME_LEN`; a character
/// beyond ASCII encodes to bytes of 128 and above, which the table rejects.
#[verifier::external_body]
pub(crate) fn header_name_from_str(s: &str) -> (r: Result<
    http::HeaderName,
    http::header::InvalidHeaderName,
>)
    ensures
        r is Ok <==> parse_header_name(s@) is Some,
        r matches Ok(n) ==> header_name_text(n) == parse_header_name(s@)->0,
{
    s.parse()
}

/// Calls `<http::HeaderName as Clone>::clone`, which copies the name.
#[verifier::external_body]
pub(crate) fn header_name_clone(n: &http::HeaderName) -> (r: http::HeaderName)
    ensures
        header_name_text(r) == header_name_text(*n),
{
    n.clone()
}

/// Calls `<http::HeaderName as ToString>::to_string`, which writes `as_str`.
#[verifier::external_body]
pub(crate) fn header_name_to_string(n: &http::HeaderName) -> (r: String)
    ensures
        r@ == header_name_text(*n),
{
    n.to_string()
}

// ---------------------------------------------------------------------------
// Header maps
// ---------------------------------------------------------------------------

#[verifier::external_type_specification]
#[verifier::external_body]
#[verifier::reject_recursive_types(T)]
pub struct ExHeaderMap<T>(http::HeaderMap<T>);

#[verifier::external_type_specification]
#[verifier::external_body]
#[verifier::reject_recursive_types(T)]
pub struct ExHeaderIntoIter<T>(http::header::IntoIter<T>);

#[verifier::external_type_specification]
#[verifier::external_body]
pub struct ExMaxSizeReached(http::header::MaxSizeReached);

/// What a header map holds: each name, as `header_name_text` gives it, with the bytes of
/// its values in the order in which they were appended.
pub uninterp spec fn header_map_contents(m: http::HeaderMap) -> HeaderContents;

/// What a consuming iterator over a header map has still to hand out: each item is a
/// name, or none where the item belongs to the name of the item before it, and the bytes
/// of a value.
pub uninterp spec fn header_iter_items(it: http::header::IntoIter<http::HeaderValue>) -> Seq<
    (Option<Seq<char>>, Seq<u8>),
>;

/// The names of a header map in the order of its table of entries: a name takes the next
/// place there when it is first added, and keeps it.
pub uninterp spec fn header_map_order(m: http::HeaderMap) -> Seq<Seq<char>>;

/// The entries of a map listed in an order of its names: each name with its values.
pub open spec fn listing_of(order: Seq<Seq<char>>, contents: HeaderContents) -> FieldsView {
    Seq::new(order.len(), |i: int| (order[i], contents[order[i]]))
}

/// The entries of a header map in the order of its table of entries.
pub open spec fn header_map_listing(m: http::HeaderMap) -> FieldsView {
    listing_of(header_map_order(m), header_map_contents(m))
}

/// The items are those of the map's entries in the order of its table, and that listing
/// names each name of the map once, with at least one value.
pub open spec fn items_list_map(
    items: Seq<(Option<Seq<char>>, Seq<u8>)>,
    m: http::HeaderMap,
) -> bool {
    &&& names_distinct(header_map_listing(m))
    &&& values_nonempty(header_map_listing(m))
    &&& fields_map(header_map_listing(m)) == header_map_contents(m)
    &&& items == expand_groups(header_map_listing(m))
}

/// The fewest names that a header map holds when it cannot grow: a fifth of its largest
/// table, `2^15` slots, rounded up.
pub const HEADER_MAP_GROWTH_LIMIT: usize = 6554;

/// Calls `http::HeaderMap::new`, which holds nothing.
#[verifier::external_body]
pub(crate) fn header_map_new() -> (map: http::HeaderMap)
    ensures
        header_map_contents(map) == HeaderContents::empty(),
        header_map_order(map) == Seq::<Seq<char>>::empty(),
{
    http::HeaderMap::new()
}

/// Calls `http::HeaderMap::contains_key`, which tells whether the name has a value.
#[verifier::external_body]
pub(crate) fn header_map_contains_key(m: &http::HeaderMap, name: &http::HeaderName) -> (r: bool)
    ensures
        r == header_map_contents(*m).contains_key(header_name_text(*name)),
{
    m.contains_key(name)
}

/// Calls `http::HeaderMap::try_append`. It adds the value after the values that the name
/// already has, or inserts the name with the value, and tells which. It fails, leaving the
/// map as it was, when its table of slots would have to grow beyond `2^15` slots: the map
/// grows its table when its names fill three quarters of it, or, after it has met many
/// collisions, a fifth of it. So it fails only while it holds at least
/// `HEADER_MAP_GROWTH_LIMIT` names; beyond that, whether it fails depends on the map's
/// hashing state, which a map that has met many collisions seeds at random. A new name is
/// pushed at the end of the map's table of entries; growing rebuilds only the indices.
#[verifier::external_body]
pub(crate) fn header_map_try_append(
    m: &mut http::HeaderMap,
    name: http::HeaderName,
    value: http::HeaderValue,
) -> (r: Result<bool, http::header::MaxSizeReached>)
    ensures
        r matches Ok(had) ==> {
            &&& had == header_map_contents(*old(m)).contains_key(header_name_text(name))
            &&& header_map_contents(*final(m)) == if had {
                header_map_contents(*old(m)).insert(
                    header_name_text(name),
                    header_map_contents(*old(m))[header_name_text(name)].push(
                        header_value_bytes(value),
                    ),
                )
            } else {
                header_map_contents(*old(m)).insert(
                    header_name_text(name),
                    seq![header_value_bytes(value)],
                )
            }
        },
        r matches Ok(had) ==> header_map_order(*final(m)) == if had {
            header_map_order(*old(m))
        } else {
            header_map_order(*old(m)).push(header_name_text(name))
        },
        r is Err ==> header_map_contents(*final(m)) == header_map_contents(*old(m)),
        r is Err ==> header_map_order(*final(m)) == header_map_order(*old(m)),
        r is Err ==> header_map_contents(*old(m)).dom().len() >= HEADER_MAP_GROWTH_LIMIT,
        header_map_contents(*final(m)).dom().finite(),
{
    m.try_append(name, value)
}

/// Calls `<http::HeaderMap as IntoIterator>::into_iter`. The iterator walks the map's
/// table of entries in order, each of which holds a distinct name with at least one
/// value; for each it hands out the first value with the name and every further value
/// with none.
#[verifier::external_body]
pub(crate) fn header_map_into_iter(m: http::HeaderMap) -> (r: http::header::IntoIter<http::HeaderValue>)
    ensures
        items_list_map(header_iter_items(r), m),
{
    m.into_iter()
}

/// Calls `<http::header::IntoIter as Iterator>::next`, which hands out the first item that
/// is left, or nothing once none is left.
#[verifier::external_body]
pub(crate) fn header_iter_next(it: &mut http::header::IntoIter<http::HeaderValue>) -> (r: Option<
    (Option<http::HeaderName>, http::HeaderValue),
>)
    ensures
        header_iter_items(*old(it)).len() == 0 ==> {
            &&& r is None
            &&& header_iter_items(*final(it)) == header_iter_items(*old(it))
        },
        header_iter_items(*old(it)).len() > 0 ==> {
            &&& header_iter_items(*final(it)) == header_iter_items(*old(it)).drop_first()
            &&& match r {
                Some((name, value)) => {
                    &&& header_value_bytes(value) == header_iter_items(*old(it)).first().1
                    &&& match name {
                        Some(n) => header_iter_items(*old(it)).first().0 == Some(
                            header_name_text(n),
                        ),
                        None => header_iter_items(*old(it)).first().0 is None,
                    }
                },
                None => false,
            }
        },
{
    it.next()
}

} // verus!

verus! {

// ---------------------------------------------------------------------------
// Methods
// ---------------------------------------------------------------------------

#[verifier::external_type_specification]
#[verifier::external_body]
pub struct ExMethod(http::Method);

#[verifier::external_type_specification]
#[verifier::external_body]
pub struct ExInvalidMethod(http::method::InvalidMethod);

/// The text that `http::Method::as_str` returns.
pub uninterp spec fn method_text(m: http::Method) -> Seq<char>;

/// Calls `http::Method::from_str`, which accepts exactly the tokens, keeping their case,
/// and gives a method whose text is the string.
#[verifier::external_body]
pub(crate) fn method_from_str(s: &str) -> (r: Result<http::Method, http::method::InvalidMethod>)
    ensures
        r is Ok <==> is_token(s@),
        r matches Ok(m) ==> method_text(m) == s@,
{
    s.parse()
}

/// Calls `http::Method::as_str`. Every way of making a method checks it as `from_str`
/// does, so the text is a token.
#[verifier::external_body]
pub(crate) fn method_as_str(m: &http::Method) -> (r: &str)
    ensures
        r@ == method_text(*m),
        is_token(r@),
{
    m.as_str()
}

// ---------------------------------------------------------------------------
// Schemes
// ---------------------------------------------------------------------------

#[verifier::external_type_specification]
#[verifier::external_body]
pub struct ExScheme(http::uri::Scheme);

#[verifier::external_type_specification]
#[verifier::external_body]
pub struct ExInvalidUri(http::uri::InvalidUri);

/// A character that a URI scheme may hold: an ASCII letter or digit, `+`, `-`, `.` or `~`.
pub open spec fn is_scheme_char(c: char) -> bool {
    let x = c as u32;
    ||| 0x61 <= x <= 0x7a
    ||| 0x41 <= x <= 0x5a
    ||| 0x30 <= x <= 0x39
    ||| c == '+' || c == '-' || c == '.' || c == '~'
}

/// The longest scheme that `http` accepts.
pub const MAX_SCHEME_LEN: usize = 64;

/// A string that `http::uri::Scheme::from_str` accepts.
pub open spec fn is_scheme_text(s: Seq<char>) -> bool {
    &&& s.len() <= MAX_SCHEME_LEN
    &&& forall|i: int| 0 <= i < s.len() ==> is_scheme_char(#[trigger] s[i])
}

/// The text that `http::uri::Scheme::as_str` returns.
pub uninterp spec fn scheme_text(s: http::uri::Scheme) -> Seq<char>;

/// Calls `http::uri::Scheme::from_str`. It accepts `http` and `https`, and otherwise
/// strings of at most `MAX_SCHEME_LEN` bytes each of which its table of scheme characters
/// holds; the scheme's text is the string.
#[verifier::external_body]
pub(crate) fn scheme_from_str(s: &str) -> (r: Result<http::uri::Scheme, http::uri::InvalidUri>)
    ensures
        r is Ok <==> is_scheme_text(s@),
        r matches Ok(scheme) ==> scheme_text(scheme) == s@,
{
    s.parse()
}

/// Calls `http::uri::Scheme::as_str`. A scheme is made by `from_str` or by parsing a URI,
/// which checks the same characters and length, so its text passes `is_scheme_text`.
#[verifier::external_body]
pub(crate) fn scheme_as_str(s: &http::uri::Scheme) -> (r: &str)
    ensures
        r@ == scheme_text(*s),
        is_scheme_text(r@),
{
    s.as_str()
}

} // verus!

verus! {

// ---------------------------------------------------------------------------
// URIs
// ---------------------------------------------------------------------------

#[verifier::external_type_specification]
#[verifier::external_body]
pub struct ExAuthority(http::uri::Authority);

#[verifier::external_type_specification]
#[verifier::external_body]
pub struct ExPathAndQuery(http::uri::PathAndQuery);

#[verifier::external_type_specification]
#[verifier::external_body]
pub struct ExUri(http::Uri);

#[verifier::external_type_specification]
#[verifier::external_body]
pub struct ExInvalidUriParts(http::uri::InvalidUriParts);

/// Whether `http::uri::Authority::from_str` accepts a string.
pub uninterp spec fn authority_accepts(s: Seq<char>) -> bool;

/// The text that `http::uri::Authority::as_str` returns.
pub uninterp spec fn authority_text(a: http::uri::Authority) -> Seq<char>;

/// Calls `http::uri::Authority::from_str`. It refuses the empty string, and an authority
/// it makes keeps the string as its text.
#[verifier::external_body]
pub(crate) fn authority_from_str(s: &str) -> (r: Result<http::uri::Authority, http::uri::InvalidUri>)
    ensures
        r is Ok <==> authority_accepts(s@),
        s@.len() == 0 ==> r is Err,
        r matches Ok(a) ==> authority_text(a) == s@,
{
    s.parse()
}

/// Calls `<http::uri::Authority as ToString>::to_string`, which writes `as_str`.
#[verifier::external_body]
pub(crate) fn authority_to_string(a: &http::uri::Authority) -> (r: String)
    ensures
        r@ == authority_text(*a),
{
    a.to_string()
}

/// What `http::uri::PathAndQuery::from_str` makes of a string: nothing when it refuses
/// the string, and otherwise the text that the result writes through `Display`.
pub uninterp spec fn path_and_query_parse(s: Seq<char>) -> Option<Seq<char>>;

/// The text that `<http::uri::PathAndQuery as Display>::fmt` writes.
pub uninterp spec fn path_and_query_text(p: http::uri::PathAndQuery) -> Seq<char>;

/// Calls `http::uri::PathAndQuery::from_str`. It accepts `/`, which it writes as `/`.
#[verifier::external_body]
pub(crate) fn path_and_query_from_str(s: &str) -> (r: Result<
    http::uri::PathAndQuery,
    http::uri::InvalidUri,
>)
    ensures
        r is Ok <==> path_and_query_parse(s@) is Some,
        r matches Ok(p) ==> path_and_query_text(p) == path_and_query_parse(s@)->0,
        r is Err ==> s@ != seq!['/'],
        r matches Ok(p) ==> (s@ == seq!['/'] ==> path_and_query_text(p) == seq!['/']),
{
    s.parse()
}

/// The number of bytes that a text takes in UTF-8.
pub open spec fn utf8_len(s: Seq<char>) -> nat
    decreases s.len(),
{
    if s.len() == 0 {
        0
    } else {
        let x = s.last() as u32;
        utf8_len(s.drop_last()) + if x < 0x80 {
            1nat
        } else if x < 0x800 {
            2nat
        } else if x < 0x10000 {
            3nat
        } else {
            4nat
        }
    }
}

/// The most bytes that `http` accepts in a URI or a path and query.
pub const MAX_URI_LEN: usize = 65534;

/// A path and query text as `http` writes one: it is never empty, and `http` parses it
/// back to the same text when it fits in `MAX_URI_LEN` bytes.
pub open spec fn path_text_reparses(t: Seq<char>) -> bool {
    &&& t.len() > 0
    &&& utf8_len(t) <= MAX_URI_LEN ==> path_and_query_parse(t) == Some(t)
}

/// A character that ends an authority inside a URI.
pub open spec fn is_uri_delimiter(c: char) -> bool {
    c == '/' || c == '?' || c == '#'
}

/// An authority text as `http` keeps one: when it holds none of the characters that end
/// an authority inside a URI, `http` accepts it again.
pub open spec fn authority_text_reaccepted(t: Seq<char>) -> bool {
    (forall|i: int| 0 <= i < t.len() ==> !is_uri_delimiter(#[trigger] t[i])) ==> authority_accepts(t)
}

/// Calls `<http::uri::PathAndQuery as ToString>::to_string`.
#[verifier::external_body]
pub(crate) fn path_and_query_to_string(p: &http::uri::PathAndQuery) -> (r: String)
    ensures
        r@ == path_and_query_text(*p),
{
    p.to_string()
}

/// The text of the scheme that `http::Uri::scheme` returns, if it returns one.
pub uninterp spec fn uri_scheme_text(u: http::Uri) -> Option<Seq<char>>;

/// The text of the authority that `http::Uri::authority` returns, if it returns one.
pub uninterp spec fn uri_authority_text(u: http::Uri) -> Option<Seq<char>>;

/// The text of the path and query that `http::Uri::path_and_query` returns, if it
/// returns them.
pub uninterp spec fn uri_path_and_query_text(u: http::Uri) -> Option<Seq<char>>;

pub open spec fn opt_scheme_text(s: Option<http::uri::Scheme>) -> Option<Seq<char>> {
    match s {
        Some(s) => Some(scheme_text(s)),
        None => None,
    }
}

pub open spec fn opt_authority_text(a: Option<http::uri::Authority>) -> Option<Seq<char>> {
    match a {
        Some(a) => Some(authority_text(a)),
        None => None,
    }
}

/// Calls `http::Uri::from_parts` with the given scheme, authority and path and query.
/// It refuses a scheme without an authority and an authority without a scheme; the URI it
/// makes hands back the parts through its getters. Its getter of the authority returns
/// none only for an empty authority, and no authority is empty.
#[verifier::external_body]
pub(crate) fn uri_from_parts(
    scheme: Option<http::uri::Scheme>,
    authority: Option<http::uri::Authority>,
    path_and_query: http::uri::PathAndQuery,
) -> (r: Result<http::Uri, http::uri::InvalidUriParts>)
    ensures
        r is Ok <==> (scheme is Some) == (authority is Some),
        r matches Ok(u) ==> uri_scheme_text(u) == opt_scheme_text(scheme),
        r matches Ok(u) ==> uri_authority_text(u) == opt_authority_text(authority),
        r matches Ok(u) ==> uri_path_and_query_text(u) == Some(path_and_query_text(path_and_query)),
{
    let mut parts = http::uri::Parts::default();
    parts.scheme = scheme;
    parts.authority = authority;
    parts.path_and_query = Some(path_and_query);
    http::Uri::from_parts(parts)
}

/// Calls `http::Uri::scheme`.
#[verifier::external_body]
pub(crate) fn uri_scheme(u: &http::Uri) -> (r: Option<&http::uri::Scheme>)
    ensures
        match r {
            Some(s) => uri_scheme_text(*u) == Some(scheme_text(*s)),
            None => uri_scheme_text(*u) is None,
        },
{
    u.scheme()
}

/// Calls `http::Uri::authority`, which returns the URI's authority unless it is empty.
/// Every authority was checked, up to its first `/`, `?` or `#`, by the same validation
/// that `Authority::from_str` runs over the whole string; only `from_static` keeps the
/// text past such a character.
#[verifier::external_body]
pub(crate) fn uri_authority(u: &http::Uri) -> (r: Option<&http::uri::Authority>)
    ensures
        match r {
            Some(a) => uri_authority_text(*u) == Some(authority_text(*a)),
            None => uri_authority_text(*u) is None,
        },
        r matches Some(a) ==> authority_text_reaccepted(authority_text(*a)),
{
    u.authority()
}

/// Calls `http::Uri::path_and_query`, which returns none only for a URI with an authority
/// and no scheme. Every path and query was scanned as `PathAndQuery::from_str` scans, and
/// cut before any fragment; `Display` writes it, or `/` before it where it starts with
/// `?`, or `/` for an empty one, and scanning that text again gives the same text.
#[verifier::external_body]
pub(crate) fn uri_path_and_query(u: &http::Uri) -> (r: Option<&http::uri::PathAndQuery>)
    ensures
        match r {
            Some(p) => uri_path_and_query_text(*u) == Some(path_and_query_text(*p)),
            None => uri_path_and_query_text(*u) is None,
        },
        r matches Some(p) ==> path_text_reparses(path_and_query_text(*p)),
        r is None ==> uri_authority_text(*u) is Some && uri_scheme_text(*u) is None,
{
    u.path_and_query()
}

// ---------------------------------------------------------------------------
// Status codes
// ---------------------------------------------------------------------------

#[verifier::external_type_specification]
#[verifier::external_body]
pub struct ExStatusCode(http::StatusCode);

#[verifier::external_type_specification]
#[verifier::external_body]
pub struct ExInvalidStatusCode(http::status::InvalidStatusCode);

/// The number that `http::StatusCode::as_u16` returns.
pub uninterp spec fn status_code_value(s: http::StatusCode) -> u16;

/// Calls `http::StatusCode::from_u16`, which accepts the numbers from 100 to 999.
#[verifier::external_body]
pub(crate) fn status_code_from_u16(src: u16) -> (r: Result<http::StatusCode, http::status::InvalidStatusCode>)
    ensures
        r is Ok <==> 100 <= src <= 999,
        r matches Ok(s) ==> status_code_value(s) == src,
{
    http::StatusCode::from_u16(src)
}

/// Calls `http::StatusCode::as_u16`. Every way of making a status code keeps it between
/// 100 and 999.
#[verifier::external_body]
pub(crate) fn status_code_as_u16(s: &http::StatusCode) -> (r: u16)
    ensures
        r == status_code_value(*s),
        100 <= r <= 999,
{
    s.as_u16()
}

} // verus!
