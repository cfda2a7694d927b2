use http::header::{HeaderName, HeaderValue};
use http::HeaderMap;
use wrpc_interface_http::{
    invoke_outcome, poll_frame_step, serve_outcome, split_frame, try_request_options_from_timeouts,
    BodyAction, BodyEvent, BodyFrame, BodyState, ConvertError, ErrorCode, FrameAction, HeaderError,
    HttpBodyError, HttpResponseHead, ResponseHead, TimeoutOverflow,
};

#[test]
fn data_frames_pass_through() {
    match split_frame::<()>(Ok(BodyFrame::Data(b"foobar".to_vec()))) {
        FrameAction::Data(b) => assert_eq!(b, b"foobar"),
        _ => panic!("expected data"),
    }
}

#[test]
fn trailer_frames_become_fields() {
    let mut map = HeaderMap::new();
    map.insert(HeaderName::from_static("grpc-status"), HeaderValue::from_static("0"));
    match split_frame::<()>(Ok(BodyFrame::Trailers(map))) {
        FrameAction::SendTrailers(f) => {
            assert_eq!(f, vec![("grpc-status".to_string(), vec![b"0".to_vec()])])
        }
        _ => panic!("expected trailers"),
    }
}

#[test]
fn unknown_frames_and_body_errors_fail() {
    assert!(matches!(
        split_frame::<()>(Ok(BodyFrame::Unknown)),
        FrameAction::Fail(HttpBodyError::InvalidFrame)
    ));
    assert!(matches!(
        split_frame::<&str>(Err("broken")),
        FrameAction::Fail(HttpBodyError::Body("broken"))
    ));
}

#[test]
fn body_error_descriptions() {
    assert_eq!(HttpBodyError::<()>::InvalidFrame.description(), "frame is not valid");
    assert_eq!(
        HttpBodyError::<()>::TrailerReceiverClosed.description(),
        "trailer receiver is closed"
    );
    assert_eq!(
        HttpBodyError::<()>::HeaderConversion(HeaderError::InvalidName).description(),
        "failed to convert headers"
    );
    assert_eq!(HttpBodyError::Body(1).description(), "encountered a body error");
}

#[test]
fn body_steps() {
    assert!(matches!(poll_frame_step(BodyState::Streaming, BodyEvent::Polled), (BodyState::Streaming, BodyAction::PollBody)));
    assert!(matches!(poll_frame_step(BodyState::Streaming, BodyEvent::BodyPending), (BodyState::Streaming, BodyAction::Pending)));
    assert!(matches!(
        poll_frame_step(BodyState::Streaming, BodyEvent::BodyData(b"x".to_vec())),
        (BodyState::Streaming, BodyAction::Data(b)) if b == b"x"
    ));
    assert!(matches!(
        poll_frame_step(BodyState::Streaming, BodyEvent::BodyEnd),
        (BodyState::AwaitingTrailers, BodyAction::PollTrailers)
    ));
    assert!(matches!(
        poll_frame_step(BodyState::AwaitingTrailers, BodyEvent::Polled),
        (BodyState::AwaitingTrailers, BodyAction::PollTrailers)
    ));
    assert!(matches!(
        poll_frame_step(BodyState::AwaitingTrailers, BodyEvent::TrailersPending),
        (BodyState::AwaitingTrailers, BodyAction::Pending)
    ));
    assert!(matches!(
        poll_frame_step(BodyState::AwaitingTrailers, BodyEvent::TrailersReady(None)),
        (BodyState::Finished, BodyAction::End)
    ));
    assert!(matches!(poll_frame_step(BodyState::Finished, BodyEvent::Polled), (BodyState::Finished, BodyAction::End)));
    assert!(matches!(poll_frame_step(BodyState::Finished, BodyEvent::BodyEnd), (BodyState::Finished, BodyAction::End)));
}

#[test]
fn trailers_are_converted_and_come_last() {
    let (state, ok) = poll_frame_step(
        BodyState::AwaitingTrailers,
        BodyEvent::TrailersReady(Some(vec![("Checksum".to_string(), vec![b"abc".to_vec()])])),
    );
    assert_eq!(state, BodyState::Finished);
    match ok {
        BodyAction::Trailers(m) => assert_eq!(m.get("checksum").unwrap(), "abc"),
        _ => panic!("expected trailers"),
    }
    assert!(matches!(poll_frame_step(state, BodyEvent::Polled), (BodyState::Finished, BodyAction::End)));
    let (state, bad) = poll_frame_step(
        BodyState::AwaitingTrailers,
        BodyEvent::TrailersReady(Some(vec![("bad name".to_string(), vec![b"abc".to_vec()])])),
    );
    assert_eq!(state, BodyState::Finished);
    assert!(matches!(bad, BodyAction::Failed(HeaderError::InvalidName)));
}

#[test]
fn timeouts_become_options() {
    let o = try_request_options_from_timeouts(1, 2, u64::MAX as u128).unwrap();
    assert_eq!(o.connect_timeout, Some(1));
    assert_eq!(o.first_byte_timeout, Some(2));
    assert_eq!(o.between_bytes_timeout, Some(u64::MAX));
    let big = u64::MAX as u128 + 1;
    assert_eq!(try_request_options_from_timeouts(big, big, big).unwrap_err(), TimeoutOverflow::ConnectTimeout);
    assert_eq!(try_request_options_from_timeouts(0, big, big).unwrap_err(), TimeoutOverflow::FirstByteTimeout);
    assert_eq!(try_request_options_from_timeouts(0, 0, big).unwrap_err(), TimeoutOverflow::BetweenBytesTimeout);
}

#[test]
fn invoke_outcome_converts_responses_and_keeps_codes() {
    let r = invoke_outcome(Ok(ResponseHead { status: 201, headers: vec![] })).unwrap().unwrap();
    assert_eq!(r.status, http::StatusCode::CREATED);
    let r = invoke_outcome(Err(ErrorCode::HttpRequestBodySize(Some(7)))).unwrap();
    assert!(matches!(r, Err(ErrorCode::HttpRequestBodySize(Some(7)))));
    let r = invoke_outcome(Ok(ResponseHead { status: 42, headers: vec![] }));
    assert_eq!(r.err().unwrap(), ConvertError::InvalidStatus);
}

#[test]
fn serve_outcome_converts_responses_and_keeps_codes() {
    let mut headers = HeaderMap::new();
    headers.insert(HeaderName::from_static("foo"), HeaderValue::from_static("bar"));
    let r = serve_outcome(Ok(HttpResponseHead { status: http::StatusCode::OK, headers }))
        .unwrap()
        .unwrap();
    assert_eq!(r.status, 200);
    assert_eq!(r.headers, vec![("foo".to_string(), vec![b"bar".to_vec()])]);
    let r = serve_outcome(Err(ErrorCode::InternalError(Some("boom".to_string())))).unwrap();
    assert!(matches!(r, Err(ErrorCode::InternalError(Some(s))) if s == "boom"));
}

#[test]
fn trailer_frames_keep_the_map_order() {
    let mut map = HeaderMap::new();
    map.append(HeaderName::from_static("zeta"), HeaderValue::from_static("1"));
    map.append(HeaderName::from_static("alpha"), HeaderValue::from_static("2"));
    map.append(HeaderName::from_static("zeta"), HeaderValue::from_static("3"));
    match split_frame::<()>(Ok(BodyFrame::Trailers(map))) {
        FrameAction::SendTrailers(f) => assert_eq!(
            f,
            vec![
                ("zeta".to_string(), vec![b"1".to_vec(), b"3".to_vec()]),
                ("alpha".to_string(), vec![b"2".to_vec()]),
            ]
        ),
        _ => panic!("expected trailers"),
    }
}

#[test]
fn trailers_map_keeps_the_fields_order() {
    let (_, action) = poll_frame_step(
        BodyState::AwaitingTrailers,
        BodyEvent::TrailersReady(Some(vec![
            ("Zeta".to_string(), vec![b"1".to_vec()]),
            ("empty".to_string(), vec![]),
            ("alpha".to_string(), vec![b"2".to_vec()]),
        ])),
    );
    match action {
        BodyAction::Trailers(m) => {
            let names: Vec<_> = m.keys().map(|k| k.as_str().to_string()).collect();
            assert_eq!(names, ["zeta", "alpha"]);
        }
        _ => panic!("expected trailers"),
    }
}

#[test]
fn served_response_keeps_the_header_order() {
    let mut headers = HeaderMap::new();
    headers.append(HeaderName::from_static("zeta"), HeaderValue::from_static("1"));
    headers.append(HeaderName::from_static("alpha"), HeaderValue::from_static("2"));
    let r = serve_outcome(Ok(HttpResponseHead { status: http::StatusCode::OK, headers }))
        .unwrap()
        .unwrap();
    assert_eq!(
        r.headers,
        vec![("zeta".to_string(), vec![b"1".to_vec()]), ("alpha".to_string(), vec![b"2".to_vec()])]
    );
    let x = invoke_outcome(Ok(r)).unwrap().unwrap();
    let names: Vec<_> = x.headers.keys().map(|k| k.as_str().to_string()).collect();
    assert_eq!(names, ["zeta", "alpha"]);
}
