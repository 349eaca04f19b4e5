//! The track queue: an ordered list of descriptors plus a cursor.
//!
//! The cursor always stays inside `[0, len]`; `len` itself is a valid cursor
//! and means "past the last track". Every mutation re-establishes that
//! invariant, so no sequence of queue commands can push the cursor out of
//! bounds.

use std::collections::VecDeque;
use vstd::prelude::*;

use crate::track::Track;

verus! {

/// Where `set_pos` puts the cursor: the requested position, clamped to the
/// queue length.
pub open spec fn clamp_pos(p: int, len: int) -> int {
    if p > len {
        len
    } else {
        p
    }
}

/// Where `remove` leaves the cursor: removing at or before the cursor pulls
/// it back by one (never below zero) so that "current" stays stable.
pub open spec fn remove_cursor(pos: int, index: int) -> int {
    if index <= pos {
        if pos > 0 {
            pos - 1
        } else {
            0
        }
    } else {
        pos
    }
}

/// The cursor set by `set_pos` is always inside `[0, len]`, whatever
/// position was asked for.
pub proof fn lemma_set_pos_in_bounds(len: int, p: int)
    requires
        len >= 0,
        p >= 0,
    ensures
        0 <= clamp_pos(p, len) <= len,
{
}

/// Adding a track and then removing at the position it landed on restores
/// the queue's contents, and the cursor stays in bounds.
pub proof fn lemma_add_remove_round_trip(tracks: Seq<Track>, pos: int, t: Track)
    requires
        0 <= pos <= tracks.len(),
    ensures
        tracks.push(t).remove(tracks.len() as int) =~= tracks,
        0 <= remove_cursor(pos, tracks.len() as int) <= tracks.len(),
{
}

/// Ordered track list plus cursor.
pub struct TracksQueue {
    inner: VecDeque<Track>,
    pos: usize,
}

/// Read-only snapshot of the queue, for callers outside the orchestrator.
pub struct TracksQueueHandle {
    inner: VecDeque<Track>,
    pos: usize,
}

impl TracksQueue {
    /// The tracks, in order.
    pub closed spec fn tracks(&self) -> Seq<Track> {
        self.inner@
    }

    /// The cursor.
    pub closed spec fn cursor(&self) -> int {
        self.pos as int
    }

    /// The invariant: the cursor is inside `[0, len]`.
    pub open spec fn wf(&self) -> bool {
        0 <= self.cursor() <= self.tracks().len()
    }

    /// An empty queue with the cursor at zero.
    pub fn new() -> (q: TracksQueue)
        ensures
            q.tracks() == Seq::<Track>::empty(),
            q.cursor() == 0,
            q.wf(),
    {
        TracksQueue { inner: VecDeque::new(), pos: 0 }
    }

    /// A snapshot of the queue: same cursor, same tracks (fieldwise).
    pub fn handle(&self) -> (h: TracksQueueHandle)
        ensures
            h.spec_pos() == self.cursor(),
            h.tracks().len() == self.tracks().len(),
            forall|i: int|
                0 <= i < self.tracks().len() ==> (#[trigger] h.tracks()[i]).like(
                    &self.tracks()[i],
                ),
    {
        let inner = self.inner.clone();
        proof {
            assert forall|i: int| 0 <= i < self.inner@.len() implies (#[trigger] inner@[i]).like(
                &self.inner@[i],
            ) by {
                assert(cloned::<Track>(self.inner@[i], inner@[i]));
            }
        }
        TracksQueueHandle { inner, pos: self.pos }
    }

    /// Empties the queue and resets the cursor.
    pub fn clear(&mut self)
        ensures
            final (self).tracks() == Seq::<Track>::empty(),
            final (self).cursor() == 0,
            final (self).wf(),
    {
        self.inner.clear();
        self.pos = 0;
    }

    /// Number of tracks.
    pub fn len(&self) -> (n: usize)
        ensures
            n == self.tracks().len(),
    {
        self.inner.len()
    }

    /// Whether the queue holds no track.
    pub fn is_empty(&self) -> (b: bool)
        ensures
            b == (self.tracks().len() == 0),
    {
        self.inner.len() == 0
    }

    /// The cursor.
    pub fn pos(&self) -> (p: usize)
        ensures
            p == self.cursor(),
    {
        self.pos
    }

    /// Moves the cursor, clamped into `[0, len]`.
    pub fn set_pos(&mut self, pos: usize)
        ensures
            final (self).tracks() == old(self).tracks(),
            final (self).cursor() == clamp_pos(pos as int, old(self).tracks().len() as int),
            final (self).wf(),
    {
        let len = self.inner.len();
        self.pos = if pos > len {
            len
        } else {
            pos
        };
    }

    /// Appends a track; the cursor does not move.
    pub fn push_back(&mut self, track: Track)
        requires
            old(self).wf(),
        ensures
            final (self).tracks() == old(self).tracks().push(track),
            final (self).cursor() == old(self).cursor(),
            final (self).wf(),
    {
        self.inner.push_back(track);
    }

    /// Prepends a track; the cursor does not move, so what it points at
    /// shifts by one.
    pub fn push_front(&mut self, track: Track)
        requires
            old(self).wf(),
        ensures
            final (self).tracks() == seq![track] + old(self).tracks(),
            final (self).cursor() == old(self).cursor(),
            final (self).wf(),
    {
        self.inner.push_front(track);
        proof {
            assert(self.inner@ =~= seq![track] + old(self).tracks());
        }
    }

    /// Removes the track at `index`, if any. Removing at or before the
    /// cursor pulls the cursor back by one (never below zero), so that the
    /// track it pointed at stays current; removing exactly at the cursor
    /// shifts "current" to what was next.
    pub fn remove(&mut self, index: usize) -> (r: Option<Track>)
        requires
            old(self).wf(),
        ensures
            final (self).wf(),
            if index < old(self).tracks().len() {
                &&& r == Some(old(self).tracks()[index as int])
                &&& final (self).tracks() == old(self).tracks().remove(index as int)
                &&& final (self).cursor() == remove_cursor(old(self).cursor(), index as int)
            } else {
                &&& r is None
                &&& final (self).tracks() == old(self).tracks()
                &&& final (self).cursor() == old(self).cursor()
            },
    {
        if index >= self.inner.len() {
            return None;
        }
        if index <= self.pos && self.pos > 0 {
            self.pos = self.pos - 1;
        }
        self.inner.remove(index)
    }

    /// The track under the cursor, or none when the cursor sits past the
    /// end (empty queue included).
    pub fn current(&self) -> (r: Option<&Track>)
        requires
            self.wf(),
        ensures
            match r {
                Some(t) => self.cursor() < self.tracks().len() && *t == self.tracks()[self.cursor()],
                None => self.cursor() >= self.tracks().len(),
            },
    {
        if self.pos < self.inner.len() {
            Some(&self.inner[self.pos])
        } else {
            None
        }
    }

    /// Advances the cursor and returns the new current track; at the end of
    /// the queue it returns none and leaves the cursor unchanged.
    pub fn next_track(&mut self) -> (r: Option<&Track>)
        requires
            old(self).wf(),
        ensures
            final (self).tracks() == old(self).tracks(),
            final (self).wf(),
            match r {
                Some(t) => {
                    &&& old(self).cursor() + 1 < old(self).tracks().len()
                    &&& final (self).cursor() == old(self).cursor() + 1
                    &&& *t == old(self).tracks()[final (self).cursor()]
                },
                None => {
                    &&& old(self).cursor() + 1 >= old(self).tracks().len()
                    &&& final (self).cursor() == old(self).cursor()
                },
            },
    {
        let len = self.inner.len();
        if len == 0 || self.pos >= len - 1 {
            return None;
        }
        self.pos = self.pos + 1;
        Some(&self.inner[self.pos])
    }

    /// The track after the cursor, without moving the cursor.
    pub fn peek_next(&self) -> (r: Option<&Track>)
        requires
            self.wf(),
        ensures
            match r {
                Some(t) => self.cursor() + 1 < self.tracks().len() && *t == self.tracks()[
                    self.cursor() + 1
                ],
                None => self.cursor() + 1 >= self.tracks().len(),
            },
    {
        let len = self.inner.len();
        if len == 0 || self.pos >= len - 1 {
            return None;
        }
        Some(&self.inner[self.pos + 1])
    }

    /// Moves the cursor back and returns the new current track; at the
    /// start of the queue it returns none and leaves the cursor unchanged.
    pub fn prev_track(&mut self) -> (r: Option<&Track>)
        requires
            old(self).wf(),
        ensures
            final (self).tracks() == old(self).tracks(),
            final (self).wf(),
            match r {
                Some(t) => {
                    &&& old(self).cursor() > 0
                    &&& final (self).cursor() == old(self).cursor() - 1
                    &&& *t == old(self).tracks()[final (self).cursor()]
                },
                None => {
                    &&& old(self).cursor() == 0
                    &&& final (self).cursor() == old(self).cursor()
                },
            },
    {
        if self.pos == 0 {
            return None;
        }
        self.pos = self.pos - 1;
        Some(&self.inner[self.pos])
    }

    /// The track before the cursor, without moving the cursor.
    pub fn peek_prev(&self) -> (r: Option<&Track>)
        requires
            self.wf(),
        ensures
            match r {
                Some(t) => self.cursor() > 0 && *t == self.tracks()[self.cursor() - 1],
                None => self.cursor() == 0,
            },
    {
        if self.pos == 0 {
            return None;
        }
        Some(&self.inner[self.pos - 1])
    }

    /// Swaps two tracks in place; out-of-range indices make it a no-op. The
    /// cursor does not move, so swapping at the cursor changes which track
    /// is current.
    pub fn swap(&mut self, from: usize, to: usize)
        requires
            old(self).wf(),
        ensures
            final (self).cursor() == old(self).cursor(),
            final (self).wf(),
            if from < old(self).tracks().len() && to < old(self).tracks().len() {
                final (self).tracks() == old(self).tracks().update(
                    from as int,
                    old(self).tracks()[to as int],
                ).update(to as int, old(self).tracks()[from as int])
            } else {
                final (self).tracks() == old(self).tracks()
            },
    {
        let len = self.inner.len();
        if from >= len || to >= len {
            return ;
        }
        if from == to {
            proof {
                assert(self.inner@ =~= old(self).tracks().update(
                    from as int,
                    old(self).tracks()[to as int],
                ).update(to as int, old(self).tracks()[from as int]));
            }
            return ;
        }
        let a = if from < to {
            from
        } else {
            to
        };
        let b = if from < to {
            to
        } else {
            from
        };
        let tb = match self.inner.remove(b) {
            Some(t) => t,
            None => {
                return ;
            },
        };
        let ta = match self.inner.remove(a) {
            Some(t) => t,
            None => {
                return ;
            },
        };
        self.inner.insert(a, tb);
        self.inner.insert(b, ta);
        proof {
            assert(self.inner@ =~= old(self).tracks().update(
                from as int,
                old(self).tracks()[to as int],
            ).update(to as int, old(self).tracks()[from as int]));
        }
    }
}

impl TracksQueueHandle {
    /// The tracks of the snapshot.
    pub closed spec fn tracks(&self) -> Seq<Track> {
        self.inner@
    }

    /// The snapshot's cursor.
    pub closed spec fn spec_pos(&self) -> int {
        self.pos as int
    }

    /// The track list.
    pub fn list(&self) -> (l: &VecDeque<Track>)
        ensures
            l@ == self.tracks(),
    {
        &self.inner
    }

    /// The cursor at snapshot time.
    pub fn pos(&self) -> (p: usize)
        ensures
            p == self.spec_pos(),
    {
        self.pos
    }
}

} // verus!
