//! The decisions taken while a body streams: what a frame of an `http` body becomes on the
//! wRPC side, and what a wRPC body and its trailers become as `http` frames.
use vstd::prelude::*;

use crate::fields::{
    fields_map, header_contents_of_fields, kept_fields, names_distinct, names_of,
    try_fields_to_header_map, try_header_map_to_fields, values_nonempty,
};
use crate::http_api::{header_map_contents, header_map_listing, header_map_order, HEADER_MAP_GROWTH_LIMIT};
use crate::types::{ContentsResult, Fields, HeaderError};

verus! {

/// Why the body of an `http` message could not be streamed over wRPC.
#[derive(Debug)]
pub enum HttpBodyError<E> {
    /// A frame held neither data nor trailers.
    InvalidFrame,
    /// The trailers were ready but nobody waited for them any more.
    TrailerReceiverClosed,
    /// The trailers could not be converted to header fields.
    HeaderConversion(HeaderError),
    /// The body itself failed.
    Body(E),
}

impl<E> HttpBodyError<E> {
    /// The message that describes the error, before the inner error where there is one.
    pub fn description(&self) -> (r: &'static str)
        ensures
            r@ == match self {
                HttpBodyError::InvalidFrame => "frame is not valid"@,
                HttpBodyError::TrailerReceiverClosed => "trailer receiver is closed"@,
                HttpBodyError::HeaderConversion(_) => "failed to convert headers"@,
                HttpBodyError::Body(_) => "encountered a body error"@,
            },
    {
        match self {
            HttpBodyError::InvalidFrame => "frame is not valid",
            HttpBodyError::TrailerReceiverClosed => "trailer receiver is closed",
            HttpBodyError::HeaderConversion(_) => "failed to convert headers",
            HttpBodyError::Body(_) => "encountered a body error",
        }
    }
}

/// A frame of an `http` body, as the library reads it: data, trailers, or something else.
pub enum BodyFrame {
    Data(Vec<u8>),
    Trailers(http::HeaderMap),
    Unknown,
}

/// What becomes of a frame of an `http` body on the wRPC side: its data goes into the
/// body stream, its trailers are handed to whoever awaits them, or the stream reports an
/// error.
pub enum FrameAction<E> {
    Data(Vec<u8>),
    SendTrailers(Fields),
    Fail(HttpBodyError<E>),
}

/// Decides what becomes of the next frame of an `http` body, or of the error that the body
/// gave in its place.
pub fn split_frame<E>(frame: Result<BodyFrame, E>) -> (r: FrameAction<E>)
    ensures
        frame matches Ok(BodyFrame::Data(b)) ==> r == FrameAction::<E>::Data(b),
        frame matches Ok(BodyFrame::Trailers(m)) ==> r matches FrameAction::SendTrailers(f) && {
            &&& f.deep_view() == header_map_listing(m)
            &&& names_distinct(f.deep_view())
            &&& values_nonempty(f.deep_view())
            &&& fields_map(f.deep_view()) == header_map_contents(m)
        },
        frame matches Ok(BodyFrame::Unknown) ==> r == FrameAction::<E>::Fail(
            HttpBodyError::InvalidFrame,
        ),
        frame matches Err(e) ==> r == FrameAction::<E>::Fail(HttpBodyError::Body(e)),
{
    match frame {
        Ok(BodyFrame::Data(b)) => FrameAction::Data(b),
        Ok(BodyFrame::Trailers(m)) => match try_header_map_to_fields(m) {
            Ok(f) => FrameAction::SendTrailers(f),
            Err(e) => FrameAction::Fail(HttpBodyError::HeaderConversion(e)),
        },
        Ok(BodyFrame::Unknown) => FrameAction::Fail(HttpBodyError::InvalidFrame),
        Err(e) => FrameAction::Fail(HttpBodyError::Body(e)),
    }
}

/// Where the `http` body over a wRPC body stands.
#[derive(Clone, Copy, Debug, PartialEq, Eq, Structural)]
pub enum BodyState {
    /// The body stream still gives data.
    Streaming,
    /// The body stream has ended; the trailers are awaited.
    AwaitingTrailers,
    /// The trailers, or their absence, have been delivered: nothing follows.
    Finished,
}

/// What the `http` body over a wRPC body was asked for, or what polling its body stream
/// or its trailers gave.
pub enum BodyEvent {
    /// The `http` body is polled for its next frame.
    Polled,
    /// The body stream has no data yet.
    BodyPending,
    /// The body stream gave data.
    BodyData(Vec<u8>),
    /// The body stream has ended.
    BodyEnd,
    /// The trailers are not ready yet.
    TrailersPending,
    /// The trailers are ready: there are none, or these.
    TrailersReady(Option<Fields>),
}

/// What the `http` body over a wRPC body does next.
pub enum BodyAction {
    /// Poll the body stream.
    PollBody,
    /// Poll the trailers.
    PollTrailers,
    /// Not ready yet.
    Pending,
    /// Yield a data frame.
    Data(Vec<u8>),
    /// Yield a trailers frame.
    Trailers(http::HeaderMap),
    /// Yield the end of the body.
    End,
    /// Yield an error: the trailers could not be converted.
    Failed(HeaderError),
}

/// Decides what the `http` body over a wRPC body does after an event, and where it then
/// stands: data as the body stream gives it, then, once the stream has ended, the
/// trailers converted to a header map, and after them the end of the body. An event that
/// does not belong to the state counts as a poll.
pub fn poll_frame_step(state: BodyState, event: BodyEvent) -> (r: (BodyState, BodyAction))
    ensures
        state == BodyState::Finished ==> r.0 == BodyState::Finished && r.1 is End,
        state == BodyState::Streaming ==> match event {
            BodyEvent::BodyPending => r.0 == state && r.1 is Pending,
            BodyEvent::BodyData(b) => r.0 == state && r.1 == BodyAction::Data(b),
            BodyEvent::BodyEnd => r.0 == BodyState::AwaitingTrailers && r.1 is PollTrailers,
            _ => r.0 == state && r.1 is PollBody,
        },
        state == BodyState::AwaitingTrailers ==> match event {
            BodyEvent::TrailersPending => r.0 == state && r.1 is Pending,
            BodyEvent::TrailersReady(None) => r.0 == BodyState::Finished && r.1 is End,
            BodyEvent::TrailersReady(Some(f)) => {
                &&& r.0 == BodyState::Finished
                &&& r.1 matches BodyAction::Trailers(m) ==> header_contents_of_fields(
                    f.deep_view(),
                ) == ContentsResult::Ok(header_map_contents(m))
                &&& r.1 matches BodyAction::Trailers(m) ==> header_map_order(m) == names_of(
                    kept_fields(f.deep_view()),
                )
                &&& r.1 matches BodyAction::Failed(e) ==> header_contents_of_fields(
                    f.deep_view(),
                ) == ContentsResult::Err(e) || (e == HeaderError::TooManyHeaders && kept_fields(
                    f.deep_view(),
                ).len() >= HEADER_MAP_GROWTH_LIMIT)
                &&& r.1 is Trailers || r.1 is Failed
            },
            _ => r.0 == state && r.1 is PollTrailers,
        },
{
    match state {
        BodyState::Finished => (BodyState::Finished, BodyAction::End),
        BodyState::Streaming => match event {
            BodyEvent::BodyPending => (state, BodyAction::Pending),
            BodyEvent::BodyData(b) => (state, BodyAction::Data(b)),
            BodyEvent::BodyEnd => (BodyState::AwaitingTrailers, BodyAction::PollTrailers),
            _ => (state, BodyAction::PollBody),
        },
        BodyState::AwaitingTrailers => match event {
            BodyEvent::TrailersPending => (state, BodyAction::Pending),
            BodyEvent::TrailersReady(None) => (BodyState::Finished, BodyAction::End),
            BodyEvent::TrailersReady(Some(f)) => match try_fields_to_header_map(f) {
                Ok(m) => (BodyState::Finished, BodyAction::Trailers(m)),
                Err(e) => (BodyState::Finished, BodyAction::Failed(e)),
            },
            _ => (state, BodyAction::PollTrailers),
        },
    }
}

} // verus!
