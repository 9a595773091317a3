//! A request body wrapped for replay: bytes are retained as they stream
//! out, up to a fixed ceiling, so that a retry attempt can reissue the
//! same body. Once the ceiling is exceeded the buffering is abandoned and
//! the body is marked capped — a capped body can no longer be faithfully
//! replayed, and the retry policy refuses to retry it.
//!
//! The byte buffering itself happens in the surrounding (unverified) I/O
//! layer, which owns the actual stream; this type tracks the accounting
//! that the retry decision depends on: how much was retained, whether the
//! stream finished, and whether the ceiling was crossed.

use vstd::prelude::*;

verus! {

/// A request body of payload `B`, wrapped for replay.
#[derive(Debug, PartialEq, Eq)]
pub struct ReplayBody<B> {
    /// The wrapped body payload, opaque to the accounting here.
    pub inner: B,
    /// The buffering ceiling this body was wrapped with, in bytes.
    pub max_bytes: usize,
    /// Bytes retained so far. Meaningful only while not capped.
    pub buffered: usize,
    /// Whether the body has finished streaming.
    pub complete: bool,
    /// Whether the ceiling was exceeded and buffering was abandoned.
    pub capped: bool,
}

impl<B> ReplayBody<B> {
    /// The accounting never holds more than the ceiling: crossing it flips
    /// `capped` instead.
    pub open spec fn wf(self) -> bool {
        !self.capped ==> self.buffered <= self.max_bytes
    }

    /// Wrap a body for replay, failing over to the unwrapped original when
    /// the body is already known to exceed the ceiling. `known_min_len` is
    /// the least number of bytes the body is known to hold before any are
    /// read (a size hint's lower bound); a body whose known size already
    /// exceeds `max_bytes` could never be replayed, so it is handed back
    /// untouched rather than pointlessly buffered.
    pub fn try_new(body: B, known_min_len: usize, max_bytes: usize) -> (r: Result<
        ReplayBody<B>,
        B,
    >)
        ensures
            known_min_len <= max_bytes <==> r is Ok,
            r matches Ok(rb) ==> rb == (ReplayBody {
                inner: body,
                max_bytes,
                buffered: 0,
                complete: false,
                capped: false,
            }),
            r matches Err(b) ==> b == body,
    {
        if known_min_len <= max_bytes {
            Ok(
                ReplayBody {
                    inner: body,
                    max_bytes,
                    buffered: 0,
                    complete: false,
                    capped: false,
                },
            )
        } else {
            Err(body)
        }
    }

    /// Whether this body was forced to give up buffering: `Some(true)`
    /// once the ceiling was exceeded, `Some(false)` once the body finished
    /// streaming within the ceiling, and `None` while the body is still
    /// streaming and its fate is not yet determinable.
    pub open spec fn spec_is_capped(self) -> Option<bool> {
        if self.capped {
            Some(true)
        } else if self.complete {
            Some(false)
        } else {
            None
        }
    }

    pub fn is_capped(&self) -> (r: Option<bool>)
        ensures
            r == self.spec_is_capped(),
    {
        if self.capped {
            Some(true)
        } else if self.complete {
            Some(false)
        } else {
            None
        }
    }

    /// Account for `n` more bytes having streamed out of the body. While
    /// the total stays within the ceiling the bytes are retained; the
    /// first byte past it abandons buffering for good.
    pub fn record_chunk(&mut self, n: usize)
        requires
            old(self).wf(),
        ensures
            final(self).wf(),
            final(self).inner == old(self).inner,
            final(self).max_bytes == old(self).max_bytes,
            final(self).complete == old(self).complete,
            old(self).capped ==> *final(self) == *old(self),
            !old(self).capped && n <= old(self).max_bytes - old(self).buffered ==> *final(self)
                == (ReplayBody { buffered: (old(self).buffered + n) as usize, ..*old(self) }),
            !old(self).capped && n > old(self).max_bytes - old(self).buffered ==> *final(self)
                == (ReplayBody { capped: true, ..*old(self) }),
    {
        if !self.capped {
            if n <= self.max_bytes - self.buffered {
                self.buffered = self.buffered + n;
            } else {
                self.capped = true;
            }
        }
    }

    /// Record that the body finished streaming.
    pub fn mark_complete(&mut self)
        ensures
            *final(self) == (ReplayBody { complete: true, ..*old(self) }),
    {
        self.complete = true;
    }

}

impl<B: Clone> ReplayBody<B> {
    /// An independent duplicate for a retry attempt. The accounting fields
    /// are carried over exactly; the payload is duplicated with its own
    /// `Clone`.
    pub fn duplicate(&self) -> (r: ReplayBody<B>)
        ensures
            r.max_bytes == self.max_bytes,
            r.buffered == self.buffered,
            r.complete == self.complete,
            r.capped == self.capped,
            r.spec_is_capped() == self.spec_is_capped(),
            cloned(self.inner, r.inner),
    {
        ReplayBody {
            inner: self.inner.clone(),
            max_bytes: self.max_bytes,
            buffered: self.buffered,
            complete: self.complete,
            capped: self.capped,
        }
    }
}

} // verus!
