use wrpc_interface_http::{
    method_from_http, method_to_http, scheme_from_http, scheme_to_http, ConvertError, WrpcMethod,
    WrpcScheme,
};

fn standard_methods() -> Vec<(WrpcMethod, http::Method)> {
    vec![
        (WrpcMethod::Get, http::Method::GET),
        (WrpcMethod::Head, http::Method::HEAD),
        (WrpcMethod::Post, http::Method::POST),
        (WrpcMethod::Put, http::Method::PUT),
        (WrpcMethod::Delete, http::Method::DELETE),
        (WrpcMethod::Connect, http::Method::CONNECT),
        (WrpcMethod::Options, http::Method::OPTIONS),
        (WrpcMethod::Trace, http::Method::TRACE),
        (WrpcMethod::Patch, http::Method::PATCH),
    ]
}

fn same_method(a: &WrpcMethod, b: &WrpcMethod) -> bool {
    format!("{a:?}") == format!("{b:?}")
}

#[test]
fn standard_methods_convert_both_ways() {
    for (wrpc, http) in standard_methods() {
        assert_eq!(method_to_http(&wrpc).unwrap(), http);
        assert!(same_method(&method_from_http(&http), &wrpc));
    }
}

#[test]
fn other_method_converts_by_text() {
    let m = http::Method::from_bytes(b"PURGE").unwrap();
    let wrpc = method_from_http(&m);
    assert!(matches!(&wrpc, WrpcMethod::Other(s) if s == "PURGE"));
    assert_eq!(method_to_http(&wrpc).unwrap(), m);
    let query = method_from_http(&http::Method::from_bytes(b"QUERY").unwrap());
    assert!(matches!(&query, WrpcMethod::Other(s) if s == "QUERY"));
}

#[test]
fn other_method_spelled_as_standard_comes_back_standard() {
    let m = method_to_http(&WrpcMethod::Other("GET".to_string())).unwrap();
    assert_eq!(m, http::Method::GET);
    assert!(matches!(method_from_http(&m), WrpcMethod::Get));
}

#[test]
fn method_case_is_kept() {
    let m = method_to_http(&WrpcMethod::Other("get".to_string())).unwrap();
    assert_eq!(m.as_str(), "get");
    assert!(matches!(method_from_http(&m), WrpcMethod::Other(s) if s == "get"));
}

#[test]
fn invalid_methods_are_refused() {
    for text in ["", "GE T", "P(ST", "ünicode"] {
        let r = method_to_http(&WrpcMethod::Other(text.to_string()));
        assert_eq!(r.unwrap_err(), ConvertError::InvalidMethod);
    }
}

#[test]
fn schemes_convert_both_ways() {
    assert_eq!(scheme_to_http(&WrpcScheme::Http).unwrap(), http::uri::Scheme::HTTP);
    assert_eq!(scheme_to_http(&WrpcScheme::Https).unwrap(), http::uri::Scheme::HTTPS);
    assert!(matches!(scheme_from_http(&http::uri::Scheme::HTTP), WrpcScheme::Http));
    assert!(matches!(scheme_from_http(&http::uri::Scheme::HTTPS), WrpcScheme::Https));
    let ws: http::uri::Scheme = "ws".parse().unwrap();
    let wrpc = scheme_from_http(&ws);
    assert!(matches!(&wrpc, WrpcScheme::Other(s) if s == "ws"));
    assert_eq!(scheme_to_http(&wrpc).unwrap().as_str(), "ws");
}

#[test]
fn other_scheme_spelled_as_standard_comes_back_standard() {
    let s = scheme_to_http(&WrpcScheme::Other("https".to_string())).unwrap();
    assert!(matches!(scheme_from_http(&s), WrpcScheme::Https));
}

#[test]
fn invalid_schemes_are_refused() {
    let long = "a".repeat(65);
    for text in ["ht tp", "http:", "sch/eme", long.as_str()] {
        let r = scheme_to_http(&WrpcScheme::Other(text.to_string()));
        assert_eq!(r.unwrap_err(), ConvertError::InvalidScheme);
    }
    let ok = "a".repeat(64);
    assert_eq!(scheme_to_http(&WrpcScheme::Other(ok.clone())).unwrap().as_str(), ok);
    assert_eq!(scheme_to_http(&WrpcScheme::Other("git+ssh".to_string())).unwrap().as_str(), "git+ssh");
}
