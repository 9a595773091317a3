//! The trailer-peek adapter, driven through its state machine: which
//! frame sequences allow trailers to be peeked, and that draining the
//! wrapped body always reproduces the original stream.

use proxy_retry::classify::Trailers;
use proxy_retry::http_types::HttpVersion;
use proxy_retry::peek_trailers::{
    BodyFrame, FirstRead, FrameEvent, PeekTrailersBody, Probe, ReadOut, SizeHint, WrapStep,
};

type Body = PeekTrailersBody<Vec<u8>, Trailers, String>;
type Event = FrameEvent<Vec<u8>, Trailers, String>;
type SecondProbe = Probe<Vec<u8>, Trailers, String>;

fn data() -> Vec<u8> {
    b"hello".to_vec()
}

fn trailers() -> Trailers {
    Trailers {
        grpc_status: None,
        fields: vec![(b"trailer".to_vec(), b"shiny".to_vec())],
    }
}

/// Runs the wrap observation: the first frame's outcome and, if the first
/// frame was data, the non-blocking probe's outcome.
fn read_body(first: Event, probe: SecondProbe) -> Body {
    match Body::read_first(first) {
        FirstRead::Settled(body) => body,
        FirstRead::NeedSecond(first_data) => Body::read_second(first_data, probe),
    }
}

/// Drains the wrapped body: held frames come out of the state machine;
/// once it delegates, the rest of the (simulated) inner body is read.
fn collect(
    mut body: Body,
    inner_rest: Vec<Result<BodyFrame<Vec<u8>, Trailers>, String>>,
) -> (Vec<u8>, Option<Trailers>) {
    let mut collected: Vec<u8> = Vec::new();
    let mut trls: Option<Trailers> = None;
    loop {
        let (next, out) = body.read_step();
        body = next;
        match out {
            ReadOut::Eos => break,
            ReadOut::Emit(Ok(BodyFrame::Data(d))) => collected.extend_from_slice(&d),
            ReadOut::Emit(Ok(BodyFrame::Trailers(t))) => trls = Some(t),
            ReadOut::Emit(Ok(BodyFrame::Unknown)) => panic!("wrapper never emits unknown frames"),
            ReadOut::Emit(Err(e)) => panic!("unexpected error frame: {e}"),
            ReadOut::Inner => {
                for frame in inner_rest {
                    match frame {
                        Ok(BodyFrame::Data(d)) => collected.extend_from_slice(&d),
                        Ok(BodyFrame::Trailers(t)) => trls = Some(t),
                        Ok(BodyFrame::Unknown) => {}
                        Err(e) => panic!("unexpected error frame: {e}"),
                    }
                }
                break;
            }
        }
    }
    (collected, trls)
}

#[test]
fn cannot_peek_empty() {
    let peek = read_body(FrameEvent::End, Probe::Pending);
    assert!(peek.peek_trailers().is_none());
    assert!(peek.is_end_stream(true));

    let (data, trailers) = collect(peek, vec![]);
    assert_eq!(data, b"");
    assert!(trailers.is_none());
}

#[test]
fn peeks_only_trailers() {
    let peek = read_body(
        FrameEvent::Yielded(BodyFrame::Trailers(trailers())),
        Probe::Pending,
    );
    assert!(peek.peek_trailers().is_some());
    assert!(!peek.is_end_stream(false));

    let (data, trls) = collect(peek, vec![]);
    assert_eq!(data, b"");
    assert_eq!(trls.unwrap().fields[0], (b"trailer".to_vec(), b"shiny".to_vec()));
}

#[test]
fn peeks_one_frame_with_immediate_trailers() {
    let peek = read_body(
        FrameEvent::Yielded(BodyFrame::Data(data())),
        Probe::Ready(FrameEvent::Yielded(BodyFrame::Trailers(trailers()))),
    );
    assert!(peek.peek_trailers().is_some());
    assert!(!peek.is_end_stream(false));

    let (data, trls) = collect(peek, vec![]);
    assert_eq!(data, b"hello");
    assert_eq!(trls.unwrap().fields[0], (b"trailer".to_vec(), b"shiny".to_vec()));
}

#[test]
fn cannot_peek_one_frame_with_eventual_trailers() {
    // The trailers frame was not ready the instant the probe looked.
    let peek = read_body(FrameEvent::Yielded(BodyFrame::Data(data())), Probe::Pending);
    assert!(peek.peek_trailers().is_none());
    assert!(!peek.is_end_stream(false));

    // Yet nothing is lost: the trailers still arrive from the inner body.
    let (data, trls) = collect(peek, vec![Ok(BodyFrame::Trailers(trailers()))]);
    assert_eq!(data, b"hello");
    assert_eq!(trls.unwrap().fields[0], (b"trailer".to_vec(), b"shiny".to_vec()));
}

#[test]
fn peeks_one_eventual_frame_with_immediate_trailers() {
    // The first frame may take its time — awaiting it is allowed; only
    // the second frame must be ready the very instant it is probed for.
    let peek = read_body(
        FrameEvent::Yielded(BodyFrame::Data(data())),
        Probe::Ready(FrameEvent::Yielded(BodyFrame::Trailers(trailers()))),
    );
    assert!(peek.peek_trailers().is_some());
    assert!(!peek.is_end_stream(false));

    let (data, trls) = collect(peek, vec![]);
    assert_eq!(data, b"hello");
    assert_eq!(trls.unwrap().fields[0], (b"trailer".to_vec(), b"shiny".to_vec()));
}

#[test]
fn cannot_peek_two_frames_with_immediate_trailers() {
    // A second data frame — however promptly it arrived — means the
    // trailers cannot be confirmed.
    let peek = read_body(
        FrameEvent::Yielded(BodyFrame::Data(data())),
        Probe::Ready(FrameEvent::Yielded(BodyFrame::Data(data()))),
    );
    assert!(peek.peek_trailers().is_none());
    assert!(!peek.is_end_stream(false));

    let (data, trls) = collect(peek, vec![Ok(BodyFrame::Trailers(trailers()))]);
    assert_eq!(data, b"hellohello");
    assert_eq!(trls.unwrap().fields[0], (b"trailer".to_vec(), b"shiny".to_vec()));
}

#[test]
fn cannot_peek_body_with_various_pending_polls() {
    // The second data frame was not ready when probed; it and the
    // trailers are read from the still-live inner body later.
    let peek = read_body(FrameEvent::Yielded(BodyFrame::Data(data())), Probe::Pending);
    assert!(peek.peek_trailers().is_none());
    assert!(!peek.is_end_stream(false));

    let (data, trls) = collect(
        peek,
        vec![
            Ok(BodyFrame::Data(data())),
            Ok(BodyFrame::Trailers(trailers())),
        ],
    );
    assert_eq!(data, b"hellohello");
    assert_eq!(trls.unwrap().fields[0], (b"trailer".to_vec(), b"shiny".to_vec()));
}

#[test]
fn peek_trailers_is_idempotent() {
    let peek = read_body(
        FrameEvent::Yielded(BodyFrame::Data(data())),
        Probe::Ready(FrameEvent::Yielded(BodyFrame::Trailers(trailers()))),
    );
    let first = peek.peek_trailers().cloned();
    let second = peek.peek_trailers().cloned();
    let third = peek.peek_trailers().cloned();
    assert_eq!(first, second);
    assert_eq!(second, third);
    assert!(first.is_some());

    let none = read_body(FrameEvent::Yielded(BodyFrame::Data(data())), Probe::Pending);
    assert!(none.peek_trailers().is_none());
    assert!(none.peek_trailers().is_none());
}

#[test]
fn wrap_decision_by_version_and_body() {
    assert_eq!(
        Body::wrap(HttpVersion::Http11, false),
        WrapStep::Settled(PeekTrailersBody::Passthru)
    );
    assert_eq!(
        Body::wrap(HttpVersion::Http10, true),
        WrapStep::Settled(PeekTrailersBody::Passthru)
    );
    assert_eq!(
        Body::wrap(HttpVersion::H2, true),
        WrapStep::Settled(PeekTrailersBody::Empty)
    );
    assert_eq!(Body::wrap(HttpVersion::H2, false), WrapStep::ReadFirst);
    assert_eq!(Body::wrap(HttpVersion::H3, false), WrapStep::ReadFirst);
}

#[test]
fn error_frames_are_redelivered_verbatim() {
    // An error in place of the first frame is re-delivered on first read.
    let peek = read_body(FrameEvent::Fail("boom".to_string()), Probe::Pending);
    assert!(peek.peek_trailers().is_none());
    let (next, out) = peek.read_step();
    assert_eq!(out, ReadOut::Emit(Err("boom".to_string())));
    let (_, out2) = next.read_step();
    assert_eq!(out2, ReadOut::Eos);

    // An error in place of the second frame comes after the first data.
    let peek = read_body(
        FrameEvent::Yielded(BodyFrame::Data(data())),
        Probe::Ready(FrameEvent::Fail("late".to_string())),
    );
    assert!(peek.peek_trailers().is_none());
    let (next, out) = peek.read_step();
    assert_eq!(out, ReadOut::Emit(Ok(BodyFrame::Data(data()))));
    let (_, out2) = next.read_step();
    assert_eq!(out2, ReadOut::Emit(Err("late".to_string())));
}

#[test]
fn unknown_frames_end_classification() {
    // An unrecognised first frame: nothing held, inner body live.
    let peek = read_body(FrameEvent::Yielded(BodyFrame::Unknown), Probe::Pending);
    assert!(peek.peek_trailers().is_none());
    let (_, out) = peek.read_step();
    assert_eq!(out, ReadOut::Inner);

    // An unrecognised second frame: the first data frame is held.
    let peek = read_body(
        FrameEvent::Yielded(BodyFrame::Data(data())),
        Probe::Ready(FrameEvent::Yielded(BodyFrame::Unknown)),
    );
    assert!(peek.peek_trailers().is_none());
    let (next, out) = peek.read_step();
    assert_eq!(out, ReadOut::Emit(Ok(BodyFrame::Data(data()))));
    let (_, out2) = next.read_step();
    assert_eq!(out2, ReadOut::Inner);
}

#[test]
fn size_hints_cover_held_frames() {
    let inner = SizeHint { lower: 10, upper: Some(20) };

    // Unary with data reports exactly the held data's length.
    let unary = read_body(
        FrameEvent::Yielded(BodyFrame::Data(data())),
        Probe::Ready(FrameEvent::End),
    );
    assert_eq!(
        unary.size_hint(inner, 5, 0),
        SizeHint { lower: 5, upper: Some(5) }
    );

    // Buffered adds the held frames to the inner body's own hint.
    let buffered = read_body(
        FrameEvent::Yielded(BodyFrame::Data(data())),
        Probe::Ready(FrameEvent::Yielded(BodyFrame::Data(data()))),
    );
    assert_eq!(
        buffered.size_hint(inner, 5, 5),
        SizeHint { lower: 20, upper: Some(30) }
    );

    // Passthru reports the inner hint untouched; Empty reports nothing.
    let passthru: Body = PeekTrailersBody::Passthru;
    assert_eq!(passthru.size_hint(inner, 0, 0), inner);
    let empty: Body = PeekTrailersBody::Empty;
    assert_eq!(empty.size_hint(inner, 0, 0), SizeHint { lower: 0, upper: None });
}
