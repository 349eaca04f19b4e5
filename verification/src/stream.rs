//! Position and buffer accounting of the resilient byte stream.
//!
//! The stream serves one remote resource of fixed length. Its logical
//! position counts the bytes its caller has consumed; fetched bytes that the
//! caller has not consumed yet wait in an internal buffer. A read failure of
//! the live source never moves the position: the stream starts one ranged
//! reconnect at the fetch offset (where fetched bytes end, so the buffer's
//! contents are neither repeated nor skipped) and serves nothing until a
//! reconnect succeeds. The network itself lives outside the library: the
//! caller reads from the live source and feeds the outcome into these
//! transitions.

use vstd::prelude::*;

use crate::track::all_digits;
use crate::track::dec_value;
use crate::track::parse_u64;
use vstd::string::StringSliceAdditionalSpecFns;

verus! {

/// At most this many bytes are served per read call, however many are
/// buffered. A smoothing heuristic, not a load-bearing constant.
pub const SERVE_CAP: usize = 12288;

/// Whether a ranged reconnect worker is outstanding.
enum ReconnectState {
    Idle,
    InFlight,
}

/// What the caller should do about a failed read of the live source.
#[derive(PartialEq, Eq, Structural, Debug)]
pub enum ReadFailurePlan {
    /// No reconnect was outstanding: spawn one, requesting the resource from
    /// the returned byte offset, and serve nothing this call.
    StartReconnect(u64),
    /// A reconnect is still pending, or the finished one failed: serve
    /// nothing this call and try again later.
    KeepWaiting,
    /// The finished reconnect produced a live source: adopt it and retry the
    /// read once.
    AdoptAndRetry,
}

/// Byte-position and buffer state of one resilient stream.
pub struct TrackStream {
    pos: u64,
    buf: Vec<u8>,
    content_length: u64,
    reconnect: ReconnectState,
}

impl TrackStream {
    /// Bytes consumed by the caller so far.
    pub closed spec fn spec_pos(&self) -> int {
        self.pos as int
    }

    /// Fetched bytes the caller has not consumed yet.
    pub closed spec fn spec_buf(&self) -> Seq<u8> {
        self.buf@
    }

    /// Total length of the remote resource, fixed at creation.
    pub closed spec fn length(&self) -> int {
        self.content_length as int
    }

    /// Offset where fetched bytes end; a reconnect resumes here.
    pub open spec fn spec_fetched(&self) -> int {
        self.spec_pos() + self.spec_buf().len()
    }

    /// Whether a reconnect worker is outstanding.
    pub closed spec fn reconnect_in_flight(&self) -> bool {
        self.reconnect is InFlight
    }

    /// The invariant: consumed plus buffered bytes never exceed the
    /// resource's length.
    pub open spec fn wf(&self) -> bool {
        0 <= self.spec_pos() && self.spec_fetched() <= self.length()
    }

    /// The stream's state agrees with `content` being the remote resource:
    /// the buffer holds exactly the fetched-but-unserved slice of it.
    pub open spec fn valid_for(&self, content: Seq<u8>) -> bool {
        &&& self.length() == content.len()
        &&& self.wf()
        &&& self.spec_buf() == content.subrange(self.spec_pos(), self.spec_fetched())
    }

    /// A fresh stream at position zero. The argument is the Content-Length
    /// header of the initial response; a missing or unparseable header means
    /// no stream (the caller reports the resource unusable).
    pub fn new(content_length_header: Option<&str>) -> (r: Option<TrackStream>)
        ensures
            match r {
                Some(s) => {
                    &&& content_length_header matches Some(h) && h.spec_bytes().len() > 0
                        && all_digits(h.spec_bytes()) && dec_value(h.spec_bytes()) == s.length()
                    &&& s.spec_pos() == 0
                    &&& s.spec_buf() == Seq::<u8>::empty()
                    &&& !s.reconnect_in_flight()
                    &&& s.wf()
                },
                None => match content_length_header {
                    Some(h) => h.spec_bytes().len() == 0 || !all_digits(h.spec_bytes())
                        || dec_value(h.spec_bytes()) > u64::MAX,
                    None => true,
                },
            },
    {
        let header = match content_length_header {
            Some(h) => h,
            None => {
                return None;
            },
        };
        let content_length = match parse_u64(header) {
            Some(n) => n,
            None => {
                return None;
            },
        };
        Some(
            TrackStream {
                pos: 0,
                buf: Vec::new(),
                content_length,
                reconnect: ReconnectState::Idle,
            },
        )
    }

    /// Total length of the resource.
    pub fn byte_len(&self) -> (n: u64)
        ensures
            n == self.length(),
    {
        self.content_length
    }

    /// The fetch offset: where fetched bytes end, and where a reconnect or
    /// the next accepted chunk must resume.
    pub fn fetched_offset(&self) -> (n: u64)
        requires
            self.wf(),
        ensures
            n == self.spec_fetched(),
    {
        self.pos + self.buf.len() as u64
    }

    /// The stream supports seeking.
    pub fn is_seekable(&self) -> (b: bool)
        ensures
            b,
    {
        true
    }

    /// Decides what to do when the live source fails to read. The position
    /// and the buffer never change here: a failure costs a zero-byte read,
    /// never bytes. `worker_done` reports the outstanding worker, if any:
    /// `None` while it still runs, otherwise whether it produced a source.
    pub fn on_read_error(&mut self, worker_done: Option<bool>) -> (plan: ReadFailurePlan)
        requires
            old(self).wf(),
        ensures
            final (self).spec_pos() == old(self).spec_pos(),
            final (self).spec_buf() == old(self).spec_buf(),
            final (self).length() == old(self).length(),
            final (self).wf(),
            if !old(self).reconnect_in_flight() {
                &&& plan == ReadFailurePlan::StartReconnect(old(self).spec_fetched() as u64)
                &&& final (self).reconnect_in_flight()
            } else {
                match worker_done {
                    None => plan == ReadFailurePlan::KeepWaiting
                        && final (self).reconnect_in_flight(),
                    Some(true) => plan == ReadFailurePlan::AdoptAndRetry
                        && !final (self).reconnect_in_flight(),
                    Some(false) => plan == ReadFailurePlan::KeepWaiting
                        && !final (self).reconnect_in_flight(),
                }
            },
    {
        match self.reconnect {
            ReconnectState::Idle => {
                self.reconnect = ReconnectState::InFlight;
                ReadFailurePlan::StartReconnect(self.pos + self.buf.len() as u64)
            },
            ReconnectState::InFlight => {
                match worker_done {
                    None => ReadFailurePlan::KeepWaiting,
                    Some(true) => {
                        self.reconnect = ReconnectState::Idle;
                        ReadFailurePlan::AdoptAndRetry
                    },
                    Some(false) => {
                        self.reconnect = ReconnectState::Idle;
                        ReadFailurePlan::KeepWaiting
                    },
                }
            },
        }
    }

    /// Absorbs bytes read from the live source into the buffer. The caller
    /// hands in at most what the resource still has past the fetch offset.
    pub fn accept_chunk(&mut self, chunk: &[u8])
        requires
            old(self).wf(),
            old(self).spec_fetched() + chunk@.len() <= old(self).length(),
        ensures
            final (self).spec_pos() == old(self).spec_pos(),
            final (self).spec_buf() == old(self).spec_buf() + chunk@,
            final (self).length() == old(self).length(),
            final (self).reconnect_in_flight() == old(self).reconnect_in_flight(),
            final (self).wf(),
            forall|content: Seq<u8>|
                old(self).valid_for(content) && chunk@ == content.subrange(
                    old(self).spec_fetched(),
                    old(self).spec_fetched() + chunk@.len(),
                ) ==> #[trigger] final (self).valid_for(content),
    {
        let n = chunk.len();
        let mut i: usize = 0;
        while i < n
            invariant
                0 <= i <= n,
                n == chunk@.len(),
                self.buf@ == old(self).spec_buf() + chunk@.take(i as int),
                self.pos == old(self).pos,
                self.content_length == old(self).content_length,
                self.reconnect == old(self).reconnect,
                old(self).spec_fetched() + n <= old(self).length(),
            decreases n - i,
        {
            let b = chunk[i];
            self.buf.push(b);
            proof {
                assert(self.buf@ =~= old(self).spec_buf() + chunk@.take(i + 1));
            }
            i += 1;
        }
        proof {
            assert(self.buf@ =~= old(self).spec_buf() + chunk@);
            assert forall|content: Seq<u8>|
                old(self).valid_for(content) && chunk@ == content.subrange(
                    old(self).spec_fetched(),
                    old(self).spec_fetched() + chunk@.len(),
                ) implies #[trigger] self.valid_for(content) by {
                assert(self.buf@ =~= content.subrange(self.spec_pos(), self.spec_fetched()));
            }
        }
    }

    /// Serves buffered bytes to the caller: up to `out_cap` of them, and
    /// never more than `SERVE_CAP` per call. Served bytes leave the buffer
    /// and advance the logical position.
    pub fn serve(&mut self, out_cap: usize) -> (out: Vec<u8>)
        requires
            old(self).wf(),
        ensures
            final (self).length() == old(self).length(),
            final (self).reconnect_in_flight() == old(self).reconnect_in_flight(),
            final (self).wf(),
            out@.len() == vstd::math::min(
                vstd::math::min(SERVE_CAP as int, out_cap as int),
                old(self).spec_buf().len() as int,
            ),
            out@ == old(self).spec_buf().take(out@.len() as int),
            final (self).spec_buf() == old(self).spec_buf().skip(out@.len() as int),
            final (self).spec_pos() == old(self).spec_pos() + out@.len(),
            forall|content: Seq<u8>|
                old(self).valid_for(content) ==> #[trigger] final (self).valid_for(content) && out@
                    == content.subrange(old(self).spec_pos(), old(self).spec_pos() + out@.len()),
    {
        let cap = if out_cap < SERVE_CAP {
            out_cap
        } else {
            SERVE_CAP
        };
        let k = if cap < self.buf.len() {
            cap
        } else {
            self.buf.len()
        };
        let mut out: Vec<u8> = Vec::new();
        let mut i: usize = 0;
        while i < k
            invariant
                0 <= i <= k,
                k <= self.buf@.len(),
                out@ == self.buf@.take(i as int),
            decreases k - i,
        {
            let b = self.buf[i];
            out.push(b);
            proof {
                assert(out@ =~= self.buf@.take(i + 1));
            }
            i += 1;
        }
        let mut rest: Vec<u8> = Vec::new();
        let mut j: usize = k;
        while j < self.buf.len()
            invariant
                k <= j <= self.buf@.len(),
                self.buf@ == old(self).spec_buf(),
                rest@ == self.buf@.subrange(k as int, j as int),
            decreases self.buf@.len() - j,
        {
            let b = self.buf[j];
            rest.push(b);
            proof {
                assert(rest@ =~= self.buf@.subrange(k as int, j + 1));
            }
            j += 1;
        }
        proof {
            assert(rest@ =~= old(self).spec_buf().skip(k as int));
        }
        self.buf = rest;
        self.pos = self.pos + k as u64;
        proof {
            assert(out@ =~= old(self).spec_buf().take(k as int));
            assert forall|content: Seq<u8>| old(self).valid_for(content) implies #[trigger] self
                .valid_for(content) && out@ == content.subrange(
                old(self).spec_pos(),
                old(self).spec_pos() + out@.len(),
            ) by {
                assert(self.buf@ =~= content.subrange(self.spec_pos(), self.spec_fetched()));
                assert(out@ =~= content.subrange(
                    old(self).spec_pos(),
                    old(self).spec_pos() + out@.len(),
                ));
            }
        }
        out
    }

    /// Computes the absolute target of a seek: from the start, the end, or
    /// the current logical position. `None` when the target would fall
    /// before the start of the resource or past `u64::MAX`.
    pub fn seek_target(&self, whence: SeekWhence) -> (r: Option<u64>)
        ensures
            match whence {
                SeekWhence::Start(o) => r == Some(o),
                SeekWhence::End(off) => r == if 0 <= self.length() + off <= u64::MAX {
                    Some((self.length() + off) as u64)
                } else {
                    None::<u64>
                },
                SeekWhence::Current(off) => r == if 0 <= self.spec_pos() + off <= u64::MAX {
                    Some((self.spec_pos() + off) as u64)
                } else {
                    None::<u64>
                },
            },
    {
        match whence {
            SeekWhence::Start(o) => Some(o),
            SeekWhence::End(off) => self.content_length.checked_add_signed(off),
            SeekWhence::Current(off) => self.pos.checked_add_signed(off),
        }
    }

    /// Re-points the stream after a seek's reconnect came up at `target`:
    /// the buffer is discarded, the logical position becomes the target, and
    /// any stale reconnect worker is forgotten. The caller only gets here
    /// once the ranged request at `target` succeeded; on failure the seek
    /// fails as a whole and the stream is left as it was.
    pub fn complete_seek(&mut self, target: u64)
        requires
            old(self).wf(),
            target <= old(self).length(),
        ensures
            final (self).spec_pos() == target,
            final (self).spec_buf() == Seq::<u8>::empty(),
            final (self).length() == old(self).length(),
            !final (self).reconnect_in_flight(),
            final (self).wf(),
            forall|content: Seq<u8>|
                old(self).valid_for(content) ==> #[trigger] final (self).valid_for(content),
    {
        self.pos = target;
        self.buf = Vec::new();
        self.reconnect = ReconnectState::Idle;
        proof {
            assert forall|content: Seq<u8>| old(self).valid_for(content) implies #[trigger] self
                .valid_for(content) by {
                assert(self.buf@ =~= content.subrange(self.spec_pos(), self.spec_fetched()));
            }
        }
    }
}

/// Where a seek is measured from, with its offset.
pub enum SeekWhence {
    /// Absolute offset from the start of the resource.
    Start(u64),
    /// Offset relative to the end of the resource.
    End(i64),
    /// Offset relative to the current logical position.
    Current(i64),
}

/// One mid-stream read failure followed by a successful reconnect loses no
/// byte and repeats none: the failed read left position and buffer alone,
/// the reconnected source resumes at the fetch offset, and what the stream
/// then serves is exactly the resource's contents from the logical position
/// onward — bytes served before and after the failure join up with no gap
/// and no duplication.
pub proof fn lemma_recovery_resumes_in_place(
    s: TrackStream,
    content: Seq<u8>,
    chunk: Seq<u8>,
    k: int,
)
    requires
        s.valid_for(content),
        chunk == content.subrange(s.spec_fetched(), s.spec_fetched() + chunk.len()),
        s.spec_fetched() + chunk.len() <= content.len(),
        0 <= k <= s.spec_buf().len() + chunk.len(),
    ensures
        (s.spec_buf() + chunk).take(k) == content.subrange(s.spec_pos(), s.spec_pos() + k),
{
    assert((s.spec_buf() + chunk).take(k) =~= content.subrange(s.spec_pos(), s.spec_pos() + k));
}

/// Seeking to offset `x` and then reading returns the resource's bytes
/// starting at `x`: after the seek the buffer is empty and the position is
/// `x`, so the first bytes fetched and served are `content[x ..]`.
pub proof fn lemma_seek_then_read(content: Seq<u8>, x: int, chunk: Seq<u8>, k: int)
    requires
        0 <= x,
        x + chunk.len() <= content.len(),
        chunk == content.subrange(x, x + chunk.len()),
        0 <= k <= chunk.len(),
    ensures
        chunk.take(k) == content.subrange(x, x + k),
{
    assert(chunk.take(k) =~= content.subrange(x, x + k));
}

} // verus!
