use http::header::{HeaderName, HeaderValue};
use http::HeaderMap;
use wrpc_interface_http::{try_fields_to_header_map, try_header_map_to_fields, Fields, HeaderError};

fn field(name: &str, values: &[&[u8]]) -> (String, Vec<Vec<u8>>) {
    (name.to_string(), values.iter().map(|v| v.to_vec()).collect())
}

#[test]
fn fields_to_header_map_keeps_values_in_order() {
    let fields = vec![
        field("user-agent", &[b"wrpc/0.2.0"]),
        field("accept", &[b"text/plain", b"text/html"]),
    ];
    let map = try_fields_to_header_map(fields).unwrap();
    assert_eq!(map.keys_len(), 2);
    assert_eq!(map.get("user-agent").unwrap(), "wrpc/0.2.0");
    let accept: Vec<_> = map.get_all("accept").iter().collect();
    assert_eq!(accept, ["text/plain", "text/html"]);
}

#[test]
fn fields_to_header_map_lowers_names() {
    let map = try_fields_to_header_map(vec![field("Content-Type", &[b"json"])]).unwrap();
    let names: Vec<_> = map.keys().map(|k| k.as_str().to_string()).collect();
    assert_eq!(names, ["content-type"]);
}

#[test]
fn fields_to_header_map_rejects_invalid_name() {
    let r = try_fields_to_header_map(vec![field("bad name", &[b"x"])]);
    assert_eq!(r.unwrap_err(), HeaderError::InvalidName);
    let r = try_fields_to_header_map(vec![field("", &[b"x"])]);
    assert_eq!(r.unwrap_err(), HeaderError::InvalidName);
}

#[test]
fn fields_to_header_map_rejects_duplicate_name() {
    let r = try_fields_to_header_map(vec![field("foo", &[b"a"]), field("FOO", &[b"b"])]);
    assert_eq!(r.unwrap_err(), HeaderError::DuplicateName);
}

#[test]
fn fields_to_header_map_passes_over_entries_without_values() {
    let map = try_fields_to_header_map(vec![field("foo", &[]), field("foo", &[b"b"])]).unwrap();
    assert_eq!(map.get("foo").unwrap(), "b");
    let map = try_fields_to_header_map(vec![field("foo", &[])]).unwrap();
    assert!(map.is_empty());
}

#[test]
fn fields_to_header_map_rejects_invalid_value() {
    let r = try_fields_to_header_map(vec![field("foo", &[b"ok", b"bad\nvalue"])]);
    assert_eq!(r.unwrap_err(), HeaderError::InvalidValue);
    let r = try_fields_to_header_map(vec![field("foo", &[b"\x7f"])]);
    assert_eq!(r.unwrap_err(), HeaderError::InvalidValue);
    let map = try_fields_to_header_map(vec![field("foo", &[b"tab\tand \x80 high"])]).unwrap();
    assert_eq!(map.get("foo").unwrap().as_bytes(), b"tab\tand \x80 high");
}

#[test]
fn fields_to_header_map_first_error_wins() {
    let r = try_fields_to_header_map(vec![field("a", &[b"\n"]), field("b c", &[b"x"])]);
    assert_eq!(r.unwrap_err(), HeaderError::InvalidValue);
    let r = try_fields_to_header_map(vec![field("b c", &[b"x"]), field("a", &[b"\n"])]);
    assert_eq!(r.unwrap_err(), HeaderError::InvalidName);
}

#[test]
fn header_map_to_fields_groups_values() {
    let mut map = HeaderMap::new();
    map.append(HeaderName::from_static("accept"), HeaderValue::from_static("text/plain"));
    map.append(HeaderName::from_static("host"), HeaderValue::from_static("example.com"));
    map.append(HeaderName::from_static("accept"), HeaderValue::from_static("text/html"));
    let fields = try_header_map_to_fields(map).unwrap();
    assert_eq!(
        fields,
        vec![
            field("accept", &[b"text/plain", b"text/html"]),
            field("host", &[b"example.com"]),
        ]
    );
}

#[test]
fn header_map_to_fields_of_empty_map() {
    assert_eq!(try_header_map_to_fields(HeaderMap::new()).unwrap(), Vec::new());
}

#[test]
fn header_map_roundtrip() {
    let fields = vec![
        field("X-Custom", &[b"1", b"2", b"3"]),
        field("empty", &[]),
        field("content-length", &[b"42"]),
    ];
    let map = try_fields_to_header_map(fields).unwrap();
    let back = try_header_map_to_fields(map.clone()).unwrap();
    assert_eq!(
        back,
        vec![field("x-custom", &[b"1", b"2", b"3"]), field("content-length", &[b"42"])]
    );
    let again = try_fields_to_header_map(back).unwrap();
    assert_eq!(again, map);
}

#[test]
fn header_map_to_fields_lists_names_in_map_order() {
    let mut h = HeaderMap::new();
    h.append("x", HeaderValue::from_static("1"));
    h.append("x", HeaderValue::from_static("2"));
    h.insert("y", HeaderValue::from_static("3"));
    let fields = try_header_map_to_fields(h).unwrap();
    assert_eq!(fields, vec![field("x", &[b"1", b"2"]), field("y", &[b"3"])]);
}

#[test]
fn canonical_fields_come_back_in_order() {
    let fields: Fields = vec![
        field("zeta", &[b"1"]),
        field("alpha", &[b"2", b"3"]),
        field("mid", &[b"4"]),
    ];
    let map = try_fields_to_header_map(fields.clone()).unwrap();
    assert_eq!(try_header_map_to_fields(map).unwrap(), fields);
}

#[test]
fn many_entries_without_values_do_not_count() {
    let mut fields: Fields = (0..7000).map(|i| (format!("empty-{i}"), Vec::new())).collect();
    for i in 0..10 {
        fields.push((format!("full-{i}"), vec![b"v".to_vec()]));
    }
    let map = try_fields_to_header_map(fields).unwrap();
    assert_eq!(map.keys_len(), 10);
}
