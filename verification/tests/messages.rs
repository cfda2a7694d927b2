use http::header::{HeaderName, HeaderValue};
use http::HeaderMap;
use wrpc_interface_http::{
    try_http_to_request, try_http_to_response, try_request_head_to_http,
    try_response_head_to_http, ConvertError, HeaderError, HttpRequestHead, HttpResponseHead,
    RequestHead, ResponseHead, WrpcMethod, WrpcScheme,
};

fn head(
    method: WrpcMethod,
    path: Option<&str>,
    scheme: Option<WrpcScheme>,
    authority: Option<&str>,
) -> RequestHead {
    RequestHead {
        method,
        path_with_query: path.map(str::to_string),
        scheme,
        authority: authority.map(str::to_string),
        headers: vec![("user-agent".to_string(), vec![b"wrpc/0.2.0".to_vec()])],
    }
}

#[test]
fn request_head_converts_to_http() {
    let h = head(
        WrpcMethod::Post,
        Some("/test?foo=bar"),
        Some(WrpcScheme::Https),
        Some("example.com"),
    );
    let x = try_request_head_to_http(h).unwrap();
    assert_eq!(x.method, http::Method::POST);
    assert_eq!(x.uri.to_string(), "https://example.com/test?foo=bar");
    assert_eq!(x.headers.get("user-agent").unwrap(), "wrpc/0.2.0");
}

#[test]
fn request_head_without_path_takes_root() {
    let x = try_request_head_to_http(head(WrpcMethod::Get, None, None, None)).unwrap();
    assert_eq!(x.uri.to_string(), "/");
    let x = try_request_head_to_http(head(WrpcMethod::Get, Some(""), None, None)).unwrap();
    assert_eq!(x.uri.to_string(), "/");
    assert_eq!(x.uri.path(), "/");
}

#[test]
fn request_head_errors_come_in_order() {
    let bad_scheme = Some(WrpcScheme::Other("bad scheme".to_string()));
    let r = try_request_head_to_http(head(WrpcMethod::Other(String::new()), Some("bad path"), bad_scheme, None));
    assert_eq!(r.err().unwrap(), ConvertError::InvalidScheme);
    let r = try_request_head_to_http(head(WrpcMethod::Other(String::new()), Some("/"), Some(WrpcScheme::Http), None));
    assert_eq!(r.err().unwrap(), ConvertError::InvalidUri);
    let r = try_request_head_to_http(head(WrpcMethod::Get, Some("/"), None, Some("example.com")));
    assert_eq!(r.err().unwrap(), ConvertError::InvalidUri);
    let r = try_request_head_to_http(head(WrpcMethod::Get, Some("/a b"), None, None));
    assert_eq!(r.err().unwrap(), ConvertError::InvalidUri);
    let r = try_request_head_to_http(head(WrpcMethod::Get, Some("/"), Some(WrpcScheme::Http), Some("exa mple")));
    assert_eq!(r.err().unwrap(), ConvertError::InvalidUri);
    let r = try_request_head_to_http(head(WrpcMethod::Other("A B".to_string()), Some("/"), None, None));
    assert_eq!(r.err().unwrap(), ConvertError::InvalidMethod);
    let mut h = head(WrpcMethod::Get, Some("/"), None, None);
    h.headers.push(("user-agent".to_string(), vec![b"again".to_vec()]));
    let r = try_request_head_to_http(h);
    assert_eq!(r.err().unwrap(), ConvertError::Headers(HeaderError::DuplicateName));
}

#[test]
fn http_request_head_converts_to_wrpc() {
    let mut headers = HeaderMap::new();
    headers.insert(HeaderName::from_static("user-agent"), HeaderValue::from_static("wrpc/0.2.0"));
    let x = HttpRequestHead {
        method: http::Method::POST,
        uri: "https://example.com/test?foo=bar".parse().unwrap(),
        headers,
    };
    let h = try_http_to_request(x).unwrap();
    assert!(matches!(h.method, WrpcMethod::Post));
    assert_eq!(h.path_with_query.as_deref(), Some("/test?foo=bar"));
    assert!(matches!(h.scheme, Some(WrpcScheme::Https)));
    assert_eq!(h.authority.as_deref(), Some("example.com"));
    assert_eq!(h.headers, vec![("user-agent".to_string(), vec![b"wrpc/0.2.0".to_vec()])]);
}

#[test]
fn http_request_head_with_relative_uri() {
    let x = HttpRequestHead {
        method: http::Method::GET,
        uri: "/only/path".parse().unwrap(),
        headers: HeaderMap::new(),
    };
    let h = try_http_to_request(x).unwrap();
    assert_eq!(h.path_with_query.as_deref(), Some("/only/path"));
    assert!(h.scheme.is_none());
    assert!(h.authority.is_none());
    assert!(h.headers.is_empty());
}

#[test]
fn request_head_roundtrip() {
    let h = head(
        WrpcMethod::Other("PATCH".to_string()),
        Some("/x?y=1#frag"),
        Some(WrpcScheme::Other("http".to_string())),
        Some("user@example.com:8080"),
    );
    let back = try_http_to_request(try_request_head_to_http(h).unwrap()).unwrap();
    assert!(matches!(back.method, WrpcMethod::Patch));
    assert!(matches!(back.scheme, Some(WrpcScheme::Http)));
    assert_eq!(back.authority.as_deref(), Some("user@example.com:8080"));
    assert_eq!(back.path_with_query.as_deref(), Some("/x?y=1"));
}

#[test]
fn response_head_converts_both_ways() {
    let h = ResponseHead {
        status: 404,
        headers: vec![("Foo".to_string(), vec![b"bar".to_vec()])],
    };
    let x = try_response_head_to_http(h).unwrap();
    assert_eq!(x.status, http::StatusCode::NOT_FOUND);
    assert_eq!(x.headers.get("foo").unwrap(), "bar");
    let back = try_http_to_response(x).unwrap();
    assert_eq!(back.status, 404);
    assert_eq!(back.headers, vec![("foo".to_string(), vec![b"bar".to_vec()])]);
}

#[test]
fn response_status_must_be_in_range() {
    for status in [0, 99, 1000, u16::MAX] {
        let r = try_response_head_to_http(ResponseHead { status, headers: vec![] });
        assert_eq!(r.err().unwrap(), ConvertError::InvalidStatus);
    }
    for status in [100, 200, 999] {
        let x = try_response_head_to_http(ResponseHead { status, headers: vec![] }).unwrap();
        assert_eq!(x.status.as_u16(), status);
    }
    let r = try_response_head_to_http(ResponseHead {
        status: 99,
        headers: vec![("bad name".to_string(), vec![])],
    });
    assert_eq!(r.err().unwrap(), ConvertError::InvalidStatus);
    let r = try_response_head_to_http(ResponseHead {
        status: 200,
        headers: vec![("bad name".to_string(), vec![])],
    });
    assert_eq!(r.err().unwrap(), ConvertError::Headers(HeaderError::InvalidName));
}

#[test]
fn http_response_head_converts_to_wrpc() {
    let mut headers = HeaderMap::new();
    headers.append(HeaderName::from_static("set-cookie"), HeaderValue::from_static("a=1"));
    headers.append(HeaderName::from_static("set-cookie"), HeaderValue::from_static("b=2"));
    let h = try_http_to_response(HttpResponseHead { status: http::StatusCode::OK, headers }).unwrap();
    assert_eq!(h.status, 200);
    assert_eq!(
        h.headers,
        vec![("set-cookie".to_string(), vec![b"a=1".to_vec(), b"b=2".to_vec()])]
    );
}

#[test]
fn http_request_head_roundtrip() {
    let mut headers = HeaderMap::new();
    headers.append(HeaderName::from_static("accept"), HeaderValue::from_static("text/plain"));
    headers.append(HeaderName::from_static("accept"), HeaderValue::from_static("text/html"));
    let x = HttpRequestHead {
        method: "PURGE".parse().unwrap(),
        uri: "http://example.com:8080/a/b?c=d".parse().unwrap(),
        headers: headers.clone(),
    };
    let back = try_request_head_to_http(try_http_to_request(x).unwrap()).unwrap();
    assert_eq!(back.method.as_str(), "PURGE");
    assert_eq!(back.uri.to_string(), "http://example.com:8080/a/b?c=d");
    assert_eq!(back.headers, headers);
}

#[test]
fn http_request_head_with_authority_only_does_not_come_back() {
    let x = HttpRequestHead {
        method: http::Method::CONNECT,
        uri: "example.com:443".parse().unwrap(),
        headers: HeaderMap::new(),
    };
    let h = try_http_to_request(x).unwrap();
    assert!(h.scheme.is_none());
    assert_eq!(h.authority.as_deref(), Some("example.com:443"));
    assert_eq!(try_request_head_to_http(h).err().unwrap(), ConvertError::InvalidUri);
}

#[test]
fn http_request_head_with_delimiter_in_authority_does_not_come_back() {
    let mut parts = http::uri::Parts::default();
    parts.scheme = Some(http::uri::Scheme::HTTP);
    parts.authority = Some(http::uri::Authority::from_static("example.com/x"));
    parts.path_and_query = Some(http::uri::PathAndQuery::from_static("/"));
    let x = HttpRequestHead {
        method: http::Method::GET,
        uri: http::Uri::from_parts(parts).unwrap(),
        headers: HeaderMap::new(),
    };
    let h = try_http_to_request(x).unwrap();
    assert_eq!(h.authority.as_deref(), Some("example.com/x"));
    assert_eq!(try_request_head_to_http(h).err().unwrap(), ConvertError::InvalidUri);
}

#[test]
fn http_request_head_with_query_only_path_comes_back() {
    let x = HttpRequestHead {
        method: http::Method::GET,
        uri: "http://example.com?q=1".parse().unwrap(),
        headers: HeaderMap::new(),
    };
    let h = try_http_to_request(x).unwrap();
    assert_eq!(h.path_with_query.as_deref(), Some("/?q=1"));
    let back = try_request_head_to_http(h).unwrap();
    assert_eq!(back.uri.to_string(), "http://example.com/?q=1");
}

#[test]
fn heads_keep_the_header_order() {
    let mut headers = HeaderMap::new();
    headers.append(HeaderName::from_static("zeta"), HeaderValue::from_static("1"));
    headers.append(HeaderName::from_static("alpha"), HeaderValue::from_static("2"));
    let expected = vec![
        ("zeta".to_string(), vec![b"1".to_vec()]),
        ("alpha".to_string(), vec![b"2".to_vec()]),
    ];
    let h = try_http_to_request(HttpRequestHead {
        method: http::Method::GET,
        uri: "/".parse().unwrap(),
        headers: headers.clone(),
    })
    .unwrap();
    assert_eq!(h.headers, expected);
    let x = try_request_head_to_http(h).unwrap();
    let names: Vec<_> = x.headers.keys().map(|k| k.as_str().to_string()).collect();
    assert_eq!(names, ["zeta", "alpha"]);
    let r = try_http_to_response(HttpResponseHead { status: http::StatusCode::OK, headers }).unwrap();
    assert_eq!(r.headers, expected);
    let x = try_response_head_to_http(r).unwrap();
    let names: Vec<_> = x.headers.keys().map(|k| k.as_str().to_string()).collect();
    assert_eq!(names, ["zeta", "alpha"]);
}
