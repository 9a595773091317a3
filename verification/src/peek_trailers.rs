//! A response body wrapped so that its trailers may be inspected ahead of
//! time, when — and only when — they arrived immediately after at most one
//! data frame.
//!
//! The wrapping step reads at most one frame of the body, then probes once,
//! without suspending, for a second frame. Everything the wrapper observed
//! is recorded and replayed to the eventual reader in the original order,
//! so wrapping never changes what the body yields; it only decides whether
//! the trailers can be reported early. A trailers frame that would require
//! waiting is never waited for: the adapter then settles for not knowing.
//!
//! The state machine here is pure: the surrounding (unverified) I/O layer
//! performs the actual reads and feeds their outcomes in as [`FrameEvent`]
//! and [`Probe`] values, and drains frames back out with
//! [`PeekTrailersBody::read_step`].

use vstd::prelude::*;

use crate::http_types::HttpVersion;

verus! {

/// One frame of a body stream, with its kind told apart: payload data, a
/// trailing header block, or a kind this adapter does not recognise. The
/// explicit `Unknown` arm keeps the adapter safe against transports that
/// introduce new frame kinds: such a frame ends the attempt to classify
/// trailers instead of being misread.
#[derive(Debug, PartialEq, Eq)]
pub enum BodyFrame<D, T> {
    Data(D),
    Trailers(T),
    Unknown,
}

/// What one read of the inner body produced: the end of the stream, an
/// error, or a frame.
#[derive(Debug, PartialEq, Eq)]
pub enum FrameEvent<D, T, E> {
    End,
    Fail(E),
    Yielded(BodyFrame<D, T>),
}

/// The outcome of asking for the next frame without being willing to
/// suspend: either nothing was available that very instant, or a full read
/// outcome was.
#[derive(Debug, PartialEq, Eq)]
pub enum Probe<D, T, E> {
    Pending,
    Ready(FrameEvent<D, T, E>),
}

/// The wrapped body: a closed set of four mutually exclusive states.
#[derive(Debug, PartialEq, Eq)]
pub enum PeekTrailersBody<D, T, E> {
    /// The body produced no frames at all.
    Empty,
    /// The body yielded at most one data frame and then at most one
    /// trailers frame, all recorded here; the inner body is exhausted.
    /// Either slot may instead record an error the body produced, which is
    /// re-delivered to the reader verbatim.
    Unary { data: Option<Result<D, E>>, trailers: Option<Result<T, E>> },
    /// Trailers could not be confirmed within the non-blocking observation
    /// window. Data frames already read are held here, in arrival order,
    /// and the inner body is still live for further reads.
    Buffered { first: Option<Result<D, E>>, second: Option<Result<D, E>> },
    /// No peeking was attempted: every read goes straight to the inner
    /// body.
    Passthru,
}

/// How to wrap a just-completed response.
#[derive(Debug, PartialEq, Eq)]
pub enum WrapStep<D, T, E> {
    /// The wrapped body is settled at once, without reading any frame.
    Settled(PeekTrailersBody<D, T, E>),
    /// The caller must await the body's first frame — the one genuine
    /// suspension point — and continue with [`PeekTrailersBody::read_first`].
    ReadFirst,
}

/// The result of reading the body's first frame: either the wrapped state
/// is settled, or the frame was data and the caller must probe — without
/// suspending — for a second frame, then continue with
/// [`PeekTrailersBody::read_second`].
#[derive(Debug, PartialEq, Eq)]
pub enum FirstRead<D, T, E> {
    Settled(PeekTrailersBody<D, T, E>),
    NeedSecond(D),
}

/// What one read of the wrapped body yields to its consumer.
#[derive(Debug, PartialEq, Eq)]
pub enum ReadOut<D, T, E> {
    /// The wrapped body is at its end; it will never yield another frame.
    Eos,
    /// A recorded frame, or a recorded error re-delivered verbatim.
    Emit(Result<BodyFrame<D, T>, E>),
    /// Nothing recorded remains: the caller reads the inner body directly.
    Inner,
}

impl<D, T, E> PeekTrailersBody<D, T, E> {
    /// How a response must be wrapped, from the facts known without
    /// reading: a protocol version that predates trailer support is passed
    /// through untouched, a body that is already exhausted is empty, and
    /// anything else calls for reading the first frame.
    pub open spec fn spec_wrap(version: HttpVersion, is_end_stream: bool) -> WrapStep<D, T, E> {
        if !version.spec_supports_trailers() {
            WrapStep::Settled(PeekTrailersBody::Passthru)
        } else if is_end_stream {
            WrapStep::Settled(PeekTrailersBody::Empty)
        } else {
            WrapStep::ReadFirst
        }
    }

    pub fn wrap(version: HttpVersion, is_end_stream: bool) -> (r: WrapStep<D, T, E>)
        ensures
            r == Self::spec_wrap(version, is_end_stream),
    {
        if !version.supports_trailers() {
            WrapStep::Settled(PeekTrailersBody::Passthru)
        } else if is_end_stream {
            WrapStep::Settled(PeekTrailersBody::Empty)
        } else {
            WrapStep::ReadFirst
        }
    }

    /// The state after the body's first frame arrived (or failed to).
    pub open spec fn spec_read_first(ev: FrameEvent<D, T, E>) -> FirstRead<D, T, E> {
        match ev {
            FrameEvent::End => FirstRead::Settled(PeekTrailersBody::Empty),
            FrameEvent::Fail(e) => FirstRead::Settled(
                PeekTrailersBody::Unary { data: Some(Err(e)), trailers: None },
            ),
            FrameEvent::Yielded(BodyFrame::Trailers(t)) => FirstRead::Settled(
                PeekTrailersBody::Unary { data: None, trailers: Some(Ok(t)) },
            ),
            FrameEvent::Yielded(BodyFrame::Unknown) => FirstRead::Settled(
                PeekTrailersBody::Buffered { first: None, second: None },
            ),
            FrameEvent::Yielded(BodyFrame::Data(d)) => FirstRead::NeedSecond(d),
        }
    }

    pub fn read_first(ev: FrameEvent<D, T, E>) -> (r: FirstRead<D, T, E>)
        ensures
            r == Self::spec_read_first(ev),
    {
        match ev {
            FrameEvent::End => FirstRead::Settled(PeekTrailersBody::Empty),
            FrameEvent::Fail(e) => FirstRead::Settled(
                PeekTrailersBody::Unary { data: Some(Err(e)), trailers: None },
            ),
            FrameEvent::Yielded(BodyFrame::Trailers(t)) => FirstRead::Settled(
                PeekTrailersBody::Unary { data: None, trailers: Some(Ok(t)) },
            ),
            FrameEvent::Yielded(BodyFrame::Unknown) => FirstRead::Settled(
                PeekTrailersBody::Buffered { first: None, second: None },
            ),
            FrameEvent::Yielded(BodyFrame::Data(d)) => FirstRead::NeedSecond(d),
        }
    }

    /// The state after the first frame was data and a second frame was
    /// probed for without suspending. A probe that would have to wait, a
    /// second data frame, and an unrecognised frame all settle for
    /// `Buffered`: the trailers, if any, were not confirmable in time.
    pub open spec fn spec_read_second(first: D, probe: Probe<D, T, E>) -> PeekTrailersBody<D, T, E> {
        match probe {
            Probe::Pending => PeekTrailersBody::Buffered {
                first: Some(Ok(first)),
                second: None,
            },
            Probe::Ready(FrameEvent::End) => PeekTrailersBody::Unary {
                data: Some(Ok(first)),
                trailers: None,
            },
            Probe::Ready(FrameEvent::Fail(e)) => PeekTrailersBody::Unary {
                data: Some(Ok(first)),
                trailers: Some(Err(e)),
            },
            Probe::Ready(FrameEvent::Yielded(BodyFrame::Data(second))) => PeekTrailersBody::Buffered {
                first: Some(Ok(first)),
                second: Some(Ok(second)),
            },
            Probe::Ready(FrameEvent::Yielded(BodyFrame::Trailers(t))) => PeekTrailersBody::Unary {
                data: Some(Ok(first)),
                trailers: Some(Ok(t)),
            },
            Probe::Ready(FrameEvent::Yielded(BodyFrame::Unknown)) => PeekTrailersBody::Buffered {
                first: Some(Ok(first)),
                second: None,
            },
        }
    }

    pub fn read_second(first: D, probe: Probe<D, T, E>) -> (r: PeekTrailersBody<D, T, E>)
        ensures
            r == Self::spec_read_second(first, probe),
    {
        match probe {
            Probe::Pending => PeekTrailersBody::Buffered {
                first: Some(Ok(first)),
                second: None,
            },
            Probe::Ready(FrameEvent::End) => PeekTrailersBody::Unary {
                data: Some(Ok(first)),
                trailers: None,
            },
            Probe::Ready(FrameEvent::Fail(e)) => PeekTrailersBody::Unary {
                data: Some(Ok(first)),
                trailers: Some(Err(e)),
            },
            Probe::Ready(FrameEvent::Yielded(BodyFrame::Data(second))) => PeekTrailersBody::Buffered {
                first: Some(Ok(first)),
                second: Some(Ok(second)),
            },
            Probe::Ready(FrameEvent::Yielded(BodyFrame::Trailers(t))) => PeekTrailersBody::Unary {
                data: Some(Ok(first)),
                trailers: Some(Ok(t)),
            },
            Probe::Ready(FrameEvent::Yielded(BodyFrame::Unknown)) => PeekTrailersBody::Buffered {
                first: Some(Ok(first)),
                second: None,
            },
        }
    }

    /// The whole observation, composed: what the wrapped state is once the
    /// first frame arrived as `first` and — only if `first` was a data
    /// frame — a second frame was probed for with outcome `probe`.
    pub open spec fn spec_read_body(first: FrameEvent<D, T, E>, probe: Probe<D, T, E>) -> PeekTrailersBody<D, T, E> {
        match Self::spec_read_first(first) {
            FirstRead::Settled(s) => s,
            FirstRead::NeedSecond(d) => Self::spec_read_second(d, probe),
        }
    }

    /// The trailers this wrapper was able to observe, if any: a populated
    /// value exactly when the state is `Unary` with a successfully read
    /// trailers frame. A false negative (trailers exist but were not
    /// confirmed in time) is possible; a false positive is not.
    pub open spec fn spec_peek_trailers(self) -> Option<T> {
        match self {
            PeekTrailersBody::Unary { trailers: Some(Ok(t)), .. } => Some(t),
            _ => None,
        }
    }

    pub fn peek_trailers(&self) -> (r: Option<&T>)
        ensures
            r.is_some() == self.spec_peek_trailers().is_some(),
            r matches Some(t) ==> self.spec_peek_trailers() == Some(*t),
    {
        match self {
            PeekTrailersBody::Unary { trailers: Some(Ok(t)), .. } => Some(t),
            _ => None,
        }
    }

    /// One read of the wrapped body: the successor state, and what this
    /// read yields. Recorded frames come out first, in the order the inner
    /// body produced them; after that, `Unary` and `Empty` are permanently
    /// at end-of-stream while `Buffered` and `Passthru` delegate to the
    /// still-live inner body.
    pub open spec fn spec_read_step(self) -> (PeekTrailersBody<D, T, E>, ReadOut<D, T, E>) {
        match self {
            PeekTrailersBody::Empty => (PeekTrailersBody::Empty, ReadOut::Eos),
            PeekTrailersBody::Passthru => (PeekTrailersBody::Passthru, ReadOut::Inner),
            PeekTrailersBody::Unary { data: Some(d), trailers } => (
                PeekTrailersBody::Unary { data: None, trailers },
                ReadOut::Emit(
                    match d {
                        Ok(d) => Ok(BodyFrame::Data(d)),
                        Err(e) => Err(e),
                    },
                ),
            ),
            PeekTrailersBody::Unary { data: None, trailers: Some(t) } => (
                PeekTrailersBody::Unary { data: None, trailers: None },
                ReadOut::Emit(
                    match t {
                        Ok(t) => Ok(BodyFrame::Trailers(t)),
                        Err(e) => Err(e),
                    },
                ),
            ),
            PeekTrailersBody::Unary { data: None, trailers: None } => (
                PeekTrailersBody::Unary { data: None, trailers: None },
                ReadOut::Eos,
            ),
            PeekTrailersBody::Buffered { first: Some(f), second } => (
                PeekTrailersBody::Buffered { first: None, second },
                ReadOut::Emit(
                    match f {
                        Ok(d) => Ok(BodyFrame::Data(d)),
                        Err(e) => Err(e),
                    },
                ),
            ),
            PeekTrailersBody::Buffered { first: None, second: Some(s) } => (
                PeekTrailersBody::Buffered { first: None, second: None },
                ReadOut::Emit(
                    match s {
                        Ok(d) => Ok(BodyFrame::Data(d)),
                        Err(e) => Err(e),
                    },
                ),
            ),
            PeekTrailersBody::Buffered { first: None, second: None } => (
                PeekTrailersBody::Buffered { first: None, second: None },
                ReadOut::Inner,
            ),
        }
    }

    pub fn read_step(self) -> (r: (PeekTrailersBody<D, T, E>, ReadOut<D, T, E>))
        ensures
            r == self.spec_read_step(),
    {
        match self {
            PeekTrailersBody::Empty => (PeekTrailersBody::Empty, ReadOut::Eos),
            PeekTrailersBody::Passthru => (PeekTrailersBody::Passthru, ReadOut::Inner),
            PeekTrailersBody::Unary { data: Some(d), trailers } => (
                PeekTrailersBody::Unary { data: None, trailers },
                ReadOut::Emit(
                    match d {
                        Ok(d) => Ok(BodyFrame::Data(d)),
                        Err(e) => Err(e),
                    },
                ),
            ),
            PeekTrailersBody::Unary { data: None, trailers: Some(t) } => (
                PeekTrailersBody::Unary { data: None, trailers: None },
                ReadOut::Emit(
                    match t {
                        Ok(t) => Ok(BodyFrame::Trailers(t)),
                        Err(e) => Err(e),
                    },
                ),
            ),
            PeekTrailersBody::Unary { data: None, trailers: None } => (
                PeekTrailersBody::Unary { data: None, trailers: None },
                ReadOut::Eos,
            ),
            PeekTrailersBody::Buffered { first: Some(f), second } => (
                PeekTrailersBody::Buffered { first: None, second },
                ReadOut::Emit(
                    match f {
                        Ok(d) => Ok(BodyFrame::Data(d)),
                        Err(e) => Err(e),
                    },
                ),
            ),
            PeekTrailersBody::Buffered { first: None, second: Some(s) } => (
                PeekTrailersBody::Buffered { first: None, second: None },
                ReadOut::Emit(
                    match s {
                        Ok(d) => Ok(BodyFrame::Data(d)),
                        Err(e) => Err(e),
                    },
                ),
            ),
            PeekTrailersBody::Buffered { first: None, second: None } => (
                PeekTrailersBody::Buffered { first: None, second: None },
                ReadOut::Inner,
            ),
        }
    }

    /// Whether the wrapped body is at its end, given whether the inner
    /// body reports itself exhausted (`inner_end_stream` matters only in
    /// the states that still delegate to it).
    pub open spec fn spec_is_end_stream(self, inner_end_stream: bool) -> bool {
        match self {
            PeekTrailersBody::Empty => true,
            PeekTrailersBody::Passthru => inner_end_stream,
            PeekTrailersBody::Unary { data: None, trailers: None } => true,
            PeekTrailersBody::Unary { .. } => false,
            PeekTrailersBody::Buffered { first: None, second: None } => inner_end_stream,
            PeekTrailersBody::Buffered { .. } => false,
        }
    }

    pub fn is_end_stream(&self, inner_end_stream: bool) -> (r: bool)
        ensures
            r == self.spec_is_end_stream(inner_end_stream),
    {
        match self {
            PeekTrailersBody::Empty => true,
            PeekTrailersBody::Passthru => inner_end_stream,
            PeekTrailersBody::Unary { data: None, trailers: None } => true,
            PeekTrailersBody::Unary { .. } => false,
            PeekTrailersBody::Buffered { first: None, second: None } => inner_end_stream,
            PeekTrailersBody::Buffered { .. } => false,
        }
    }
}

/// A body's size hint: at least `lower` bytes remain, and, when `upper` is
/// known, at most that many.
#[derive(Clone, Copy, Debug, PartialEq, Eq, Structural)]
pub struct SizeHint {
    pub lower: u64,
    pub upper: Option<u64>,
}

/// `a + b`, clamped to the largest representable value.
pub open spec fn spec_sat_add(a: u64, b: u64) -> u64 {
    if a + b > u64::MAX {
        u64::MAX
    } else {
        (a + b) as u64
    }
}

/// A size hint with `n` more bytes promised on both bounds, for a data
/// frame of `n` bytes held in front of the body the hint describes. An
/// unknown upper bound stays unknown.
pub open spec fn spec_add_to_hint(hint: SizeHint, n: u64) -> SizeHint {
    SizeHint {
        lower: spec_sat_add(hint.lower, n),
        upper: match hint.upper {
            Some(u) => Some(spec_sat_add(u, n)),
            None => None,
        },
    }
}

fn sat_add(a: u64, b: u64) -> (r: u64)
    ensures
        r == spec_sat_add(a, b),
{
    if a > u64::MAX - b {
        u64::MAX
    } else {
        a + b
    }
}

fn add_to_hint(hint: SizeHint, n: u64) -> (r: SizeHint)
    ensures
        r == spec_add_to_hint(hint, n),
{
    SizeHint {
        lower: sat_add(hint.lower, n),
        upper: match hint.upper {
            Some(u) => Some(sat_add(u, n)),
            None => None,
        },
    }
}

impl<D, T, E> PeekTrailersBody<D, T, E> {
    /// The wrapped body's size hint. `inner` is the live inner body's own
    /// hint (consulted only in the states that still delegate to it), and
    /// `first_len` / `second_len` are the byte lengths of the held data
    /// frames, for the slots that hold one. Held-but-undelivered data is
    /// added to the inner hint so that downstream consumers relying on
    /// size hints are never under-informed.
    pub open spec fn spec_size_hint(
        self,
        inner: SizeHint,
        first_len: u64,
        second_len: u64,
    ) -> SizeHint {
        match self {
            PeekTrailersBody::Empty => SizeHint { lower: 0, upper: None },
            PeekTrailersBody::Passthru => inner,
            PeekTrailersBody::Unary { data: Some(Ok(_)), .. } => SizeHint {
                lower: first_len,
                upper: Some(first_len),
            },
            PeekTrailersBody::Unary { .. } => SizeHint { lower: 0, upper: None },
            PeekTrailersBody::Buffered { first, second } => {
                let with_first = if first matches Some(Ok(_)) {
                    spec_add_to_hint(inner, first_len)
                } else {
                    inner
                };
                if second matches Some(Ok(_)) {
                    spec_add_to_hint(with_first, second_len)
                } else {
                    with_first
                }
            },
        }
    }

    pub fn size_hint(&self, inner: SizeHint, first_len: u64, second_len: u64) -> (r: SizeHint)
        ensures
            r == self.spec_size_hint(inner, first_len, second_len),
    {
        match self {
            PeekTrailersBody::Empty => SizeHint { lower: 0, upper: None },
            PeekTrailersBody::Passthru => inner,
            PeekTrailersBody::Unary { data: Some(Ok(_)), .. } => SizeHint {
                lower: first_len,
                upper: Some(first_len),
            },
            PeekTrailersBody::Unary { .. } => SizeHint { lower: 0, upper: None },
            PeekTrailersBody::Buffered { first, second } => {
                let with_first = if matches!(first, Some(Ok(_))) {
                    add_to_hint(inner, first_len)
                } else {
                    inner
                };
                if matches!(second, Some(Ok(_))) {
                    add_to_hint(with_first, second_len)
                } else {
                    with_first
                }
            },
        }
    }
}

/// What a recorded data slot will be delivered as: the data frame, or
/// the recorded error verbatim.
pub open spec fn spec_data_slot_emissions<D, T, E>(slot: Option<Result<D, E>>) -> Seq<
    Result<BodyFrame<D, T>, E>,
> {
    match slot {
        None => seq![],
        Some(Ok(d)) => seq![Ok(BodyFrame::Data(d))],
        Some(Err(e)) => seq![Err(e)],
    }
}

/// What a recorded trailers slot will be delivered as.
pub open spec fn spec_trailers_slot_emissions<D, T, E>(slot: Option<Result<T, E>>) -> Seq<
    Result<BodyFrame<D, T>, E>,
> {
    match slot {
        None => seq![],
        Some(Ok(t)) => seq![Ok(BodyFrame::Trailers(t))],
        Some(Err(e)) => seq![Err(e)],
    }
}

/// What the wrap observation consumed from the inner body, as the reads
/// that must reach the eventual reader, in arrival order. The end of the
/// stream is not a frame, and an unrecognised frame kind has no
/// deliverable content; neither contributes.
pub open spec fn spec_observed_emissions<D, T, E>(
    first: FrameEvent<D, T, E>,
    probe: Probe<D, T, E>,
) -> Seq<Result<BodyFrame<D, T>, E>> {
    match first {
        FrameEvent::End => seq![],
        FrameEvent::Fail(e) => seq![Err(e)],
        FrameEvent::Yielded(BodyFrame::Trailers(t)) => seq![Ok(BodyFrame::Trailers(t))],
        FrameEvent::Yielded(BodyFrame::Unknown) => seq![],
        FrameEvent::Yielded(BodyFrame::Data(d)) => seq![Ok(BodyFrame::Data(d))] + (match probe {
            Probe::Pending => seq![],
            Probe::Ready(FrameEvent::End) => seq![],
            Probe::Ready(FrameEvent::Fail(e)) => seq![Err(e)],
            Probe::Ready(FrameEvent::Yielded(BodyFrame::Data(d2))) => seq![
                Ok(BodyFrame::Data(d2)),
            ],
            Probe::Ready(FrameEvent::Yielded(BodyFrame::Trailers(t))) => seq![
                Ok(BodyFrame::Trailers(t)),
            ],
            Probe::Ready(FrameEvent::Yielded(BodyFrame::Unknown)) => seq![],
        }),
    }
}

impl<D, T, E> PeekTrailersBody<D, T, E> {
    /// The recorded reads this wrapped body will deliver before it is
    /// done or hands over to the inner body, in order.
    pub open spec fn spec_pending_emissions(self) -> Seq<Result<BodyFrame<D, T>, E>> {
        match self {
            PeekTrailersBody::Empty => seq![],
            PeekTrailersBody::Passthru => seq![],
            PeekTrailersBody::Unary { data, trailers } => spec_data_slot_emissions(data)
                + spec_trailers_slot_emissions(trailers),
            PeekTrailersBody::Buffered { first, second } => spec_data_slot_emissions(first)
                + spec_data_slot_emissions(second),
        }
    }
}

/// Peeking never changes what the body yields: whatever the wrap
/// observation consumed from the inner body is recorded, in arrival
/// order, and will be delivered to the eventual reader ahead of
/// everything the inner body still holds.
pub proof fn lemma_wrap_preserves_the_stream<D, T, E>(
    first: FrameEvent<D, T, E>,
    probe: Probe<D, T, E>,
)
    ensures
        PeekTrailersBody::spec_read_body(first, probe).spec_pending_emissions()
            =~= spec_observed_emissions(first, probe),
{
}

/// Reads drain the recorded emissions in order: while any are pending,
/// one read delivers the first and leaves exactly the rest; with none
/// pending, the wrapper only ever reports end-of-stream or delegates to
/// the inner body, changing nothing.
pub proof fn lemma_read_step_drains_in_order<D, T, E>(s: PeekTrailersBody<D, T, E>)
    ensures
        s.spec_pending_emissions().len() > 0 ==> {
            &&& s.spec_read_step().1 == ReadOut::<D, T, E>::Emit(s.spec_pending_emissions()[0])
            &&& s.spec_read_step().0.spec_pending_emissions() =~= s.spec_pending_emissions()
                .drop_first()
        },
        s.spec_pending_emissions().len() == 0 ==> {
            &&& (s.spec_read_step().1 is Eos || s.spec_read_step().1 is Inner)
            &&& s.spec_read_step().0 == s
        },
{
}

/// A body produced by a zero-frame stream settles as `Empty`: nothing is
/// peeked, nothing is ever yielded, and end-of-stream is reported at once —
/// whatever the (never consulted) second-frame probe would have said.
pub proof fn lemma_empty_body<D, T, E>(probe: Probe<D, T, E>, inner_end_stream: bool)
    ensures
        PeekTrailersBody::spec_read_body(FrameEvent::End, probe)
            == PeekTrailersBody::<D, T, E>::Empty,
        PeekTrailersBody::<D, T, E>::Empty.spec_peek_trailers() is None,
        PeekTrailersBody::<D, T, E>::Empty.spec_read_step()
            == (PeekTrailersBody::<D, T, E>::Empty, ReadOut::<D, T, E>::Eos),
        PeekTrailersBody::<D, T, E>::Empty.spec_is_end_stream(inner_end_stream),
{
}

/// Trailers are peeked exactly when the body's very next frame after at
/// most one data frame was a trailers frame that arrived without any wait;
/// and a peeked value is always one the body really produced. In
/// particular a body whose second frame was another data frame — however
/// quickly it arrived — peeks nothing.
pub proof fn lemma_peek_iff_immediate_trailers<D, T, E>(
    first: FrameEvent<D, T, E>,
    probe: Probe<D, T, E>,
)
    ensures
        PeekTrailersBody::spec_read_body(first, probe).spec_peek_trailers() is Some <==> {
            ||| first matches FrameEvent::Yielded(BodyFrame::Trailers(_))
            ||| {
                &&& first matches FrameEvent::Yielded(BodyFrame::Data(_))
                &&& probe matches Probe::Ready(FrameEvent::Yielded(BodyFrame::Trailers(_)))
            }
        },
        PeekTrailersBody::spec_read_body(first, probe).spec_peek_trailers() matches Some(t) ==> {
            ||| first == FrameEvent::<D, T, E>::Yielded(BodyFrame::Trailers(t))
            ||| probe == Probe::<D, T, E>::Ready(FrameEvent::Yielded(BodyFrame::Trailers(t)))
        },
{
}

/// The fast path: one data frame followed immediately by a trailers frame
/// is fully recorded. The trailers are peeked, and draining the wrapped
/// body yields the original data, then the original trailers, unmodified,
/// then end-of-stream.
pub proof fn lemma_data_then_immediate_trailers<D, T, E>(d: D, t: T)
    ensures
        ({
            let b0 = PeekTrailersBody::<D, T, E>::spec_read_body(
                FrameEvent::Yielded(BodyFrame::Data(d)),
                Probe::Ready(FrameEvent::Yielded(BodyFrame::Trailers(t))),
            );
            let b1 = PeekTrailersBody::<D, T, E>::Unary {
                data: None,
                trailers: Some(Ok(t)),
            };
            let b2 = PeekTrailersBody::<D, T, E>::Unary { data: None, trailers: None };
            &&& b0 == (PeekTrailersBody::<D, T, E>::Unary {
                data: Some(Ok(d)),
                trailers: Some(Ok(t)),
            })
            &&& b0.spec_peek_trailers() == Some(t)
            &&& b0.spec_read_step() == (b1, ReadOut::<D, T, E>::Emit(Ok(BodyFrame::Data(d))))
            &&& b1.spec_read_step() == (b2, ReadOut::<D, T, E>::Emit(Ok(BodyFrame::Trailers(t))))
            &&& b2.spec_read_step() == (b2, ReadOut::<D, T, E>::Eos)
        }),
{
}

/// The conservative path: when the second-frame probe would have had to
/// wait, nothing is peeked, yet nothing is lost either — the one data
/// frame read early is replayed first, and every later read delegates to
/// the untouched inner body, so the drained stream is the same one the
/// unwrapped body would have produced.
pub proof fn lemma_data_then_pending<D, T, E>(d: D, inner_end_stream: bool)
    ensures
        ({
            let b0 = PeekTrailersBody::<D, T, E>::spec_read_body(
                FrameEvent::Yielded(BodyFrame::Data(d)),
                Probe::Pending,
            );
            let b1 = PeekTrailersBody::<D, T, E>::Buffered { first: None, second: None };
            &&& b0 == (PeekTrailersBody::<D, T, E>::Buffered {
                first: Some(Ok(d)),
                second: None,
            })
            &&& b0.spec_peek_trailers() is None
            &&& b0.spec_read_step() == (b1, ReadOut::<D, T, E>::Emit(Ok(BodyFrame::Data(d))))
            &&& b1.spec_read_step() == (b1, ReadOut::<D, T, E>::Inner)
            &&& b1.spec_is_end_stream(inner_end_stream) == inner_end_stream
        }),
{
}

} // verus!
