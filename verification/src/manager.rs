//! The playback orchestrator's decision logic.
//!
//! The player's shared state — queue, current and prefetched-next track
//! handles, their completion signals, the sink input — is modelled as one
//! `PlayerState`, and every command handler and monitor decision is a
//! verified transition on it. The surrounding machinery (the command
//! channel, the periodic monitor task, the sink, decoding) lives outside
//! the library: each of its handlers calls these transitions in order and
//! carries out the actions they return.

use vstd::prelude::*;

use crate::queue::TracksQueue;
use crate::queue::clamp_pos;
use crate::queue::remove_cursor;
use crate::source::TrackSourceHandle;
use crate::track::Track;

verus! {

/// Prefetch of the next track starts when this little of the current track
/// remains, in seconds.
pub const PREFETCH_WINDOW_SECS: u64 = 10;

/// Which queue entry a play command targets.
#[derive(PartialEq, Eq, Structural, Debug, Clone, Copy)]
pub enum Play {
    /// The track before the cursor.
    Prev,
    /// The track under the cursor.
    Current,
    /// The track after the cursor.
    Next,
    /// The track at an absolute position (clamped into range).
    Pos(usize),
}

/// A queue-mutation command.
pub enum Queue {
    /// Drop every track and reset the cursor.
    Clear,
    /// Resolve this identifier and append the track (a failed resolution is
    /// a silent no-op).
    Add(String),
    /// Remove the track at a position.
    Remove(usize),
    /// Swap two tracks in place.
    Swap(usize, usize),
}

/// What the current track's completion signal reported this tick.
#[derive(PartialEq, Eq, Structural, Debug, Clone, Copy)]
pub enum SignalEvent {
    /// The signal fired: the current source finished playing.
    Fired,
    /// Nothing yet.
    Pending,
    /// The signal's producing side is gone.
    Disconnected,
}

/// What the monitor should do to the sink after a handoff step.
#[derive(PartialEq, Eq, Structural, Debug, Clone, Copy)]
pub enum HandoffAction {
    /// Nothing happened.
    NoChange,
    /// The prefetched track was promoted to current; playback continues.
    Promoted,
    /// The current track ended with nothing prefetched: pause the sink.
    PauseSink,
}

/// Seconds of the current track still to play.
pub open spec fn remaining_secs(duration: u64, elapsed: u64) -> int {
    if duration > elapsed {
        duration - elapsed
    } else {
        0
    }
}

/// Shared playback state of one orchestrator.
pub struct PlayerState {
    /// The track queue.
    pub queue: TracksQueue,
    /// Handle of the track the sink is playing, if any.
    pub current: Option<TrackSourceHandle>,
    /// Whether a completion signal for the current track is held.
    pub has_current_signal: bool,
    /// Handle of the prefetched next track, if any.
    pub next: Option<TrackSourceHandle>,
    /// Whether a completion signal for the next track is held.
    pub has_next_signal: bool,
    /// Whether a sink input exists to append prefetched sources to.
    pub has_input: bool,
    /// Mirror of the sink's not-paused state.
    pub is_playing: bool,
}

impl PlayerState {
    /// The invariant: the queue's cursor is in bounds.
    pub open spec fn wf(&self) -> bool {
        self.queue.wf()
    }

    /// The monitor triggers a prefetch when a current track is within the
    /// prefetch window of its end, nothing is prefetched yet, and the queue
    /// has a next track.
    pub open spec fn spec_prefetch_due(&self, current_time: u64) -> bool {
        &&& match self.current {
            Some(h) => remaining_secs(h.spec_metadata().duration, current_time)
                < PREFETCH_WINDOW_SECS as int,
            None => false,
        }
        &&& self.next is None
        &&& self.queue.cursor() + 1 < self.queue.tracks().len()
    }

    /// Idle state: empty queue, no tracks, nothing playing.
    pub fn new() -> (s: PlayerState)
        ensures
            s.queue.tracks() == Seq::<Track>::empty(),
            s.queue.cursor() == 0,
            s.current is None,
            !s.has_current_signal,
            s.next is None,
            !s.has_next_signal,
            !s.has_input,
            !s.is_playing,
            s.wf(),
    {
        PlayerState {
            queue: TracksQueue::new(),
            current: None,
            has_current_signal: false,
            next: None,
            has_next_signal: false,
            has_input: false,
            is_playing: false,
        }
    }

    /// Navigates the queue for a play command and hands back the descriptor
    /// to decode, if the target exists. Navigation happens whether or not
    /// the decode that follows succeeds, as the queue is the cursor's only
    /// owner.
    pub fn play_select(&mut self, request: &Play) -> (t: Option<Track>)
        requires
            old(self).wf(),
        ensures
            final (self).wf(),
            final (self).queue.tracks() == old(self).queue.tracks(),
            final (self).current == old(self).current,
            final (self).has_current_signal == old(self).has_current_signal,
            final (self).next == old(self).next,
            final (self).has_next_signal == old(self).has_next_signal,
            final (self).has_input == old(self).has_input,
            final (self).is_playing == old(self).is_playing,
            match *request {
                Play::Prev => if old(self).queue.cursor() > 0 {
                    &&& final (self).queue.cursor() == old(self).queue.cursor() - 1
                    &&& t matches Some(c) && c.like(
                        &old(self).queue.tracks()[final (self).queue.cursor()],
                    )
                } else {
                    &&& final (self).queue.cursor() == old(self).queue.cursor()
                    &&& t is None
                },
                Play::Current => {
                    &&& final (self).queue.cursor() == old(self).queue.cursor()
                    &&& if old(self).queue.cursor() < old(self).queue.tracks().len() {
                        t matches Some(c) && c.like(
                            &old(self).queue.tracks()[old(self).queue.cursor()],
                        )
                    } else {
                        t is None
                    }
                },
                Play::Next => if old(self).queue.cursor() + 1 < old(self).queue.tracks().len() {
                    &&& final (self).queue.cursor() == old(self).queue.cursor() + 1
                    &&& t matches Some(c) && c.like(
                        &old(self).queue.tracks()[final (self).queue.cursor()],
                    )
                } else {
                    &&& final (self).queue.cursor() == old(self).queue.cursor()
                    &&& t is None
                },
                Play::Pos(p) => {
                    &&& final (self).queue.cursor() == clamp_pos(
                        p as int,
                        old(self).queue.tracks().len() as int,
                    )
                    &&& if final (self).queue.cursor() < old(self).queue.tracks().len() {
                        t matches Some(c) && c.like(
                            &old(self).queue.tracks()[final (self).queue.cursor()],
                        )
                    } else {
                        t is None
                    }
                },
            },
    {
        match *request {
            Play::Prev => match self.queue.prev_track() {
                Some(t) => Some(t.clone()),
                None => None,
            },
            Play::Current => match self.queue.current() {
                Some(t) => Some(t.clone()),
                None => None,
            },
            Play::Next => match self.queue.next_track() {
                Some(t) => Some(t.clone()),
                None => None,
            },
            Play::Pos(p) => {
                self.queue.set_pos(p);
                match self.queue.current() {
                    Some(t) => Some(t.clone()),
                    None => None,
                }
            },
        }
    }

    /// Whether a play command takes the lazy path: it asked for lazy, the
    /// next slot is free, and a sink input exists to append to.
    pub fn lazy_available(&self, lazy: bool) -> (b: bool)
        ensures
            b == (lazy && self.next is None && self.has_input),
    {
        lazy && self.next.is_none() && self.has_input
    }

    /// Stores a freshly decoded track in the next slot, with its completion
    /// signal, and rolls the queue cursor back by one (never below zero):
    /// the cursor must keep pointing at the current track, and the handoff
    /// that later promotes this track advances it again.
    pub fn play_apply_lazy(&mut self, handle: TrackSourceHandle)
        requires
            old(self).wf(),
        ensures
            final (self).wf(),
            final (self).queue.tracks() == old(self).queue.tracks(),
            final (self).queue.cursor() == if old(self).queue.cursor() > 0 {
                old(self).queue.cursor() - 1
            } else {
                0
            },
            final (self).next == Some(handle),
            final (self).has_next_signal,
            final (self).current == old(self).current,
            final (self).has_current_signal == old(self).has_current_signal,
            final (self).has_input == old(self).has_input,
            final (self).is_playing == old(self).is_playing,
    {
        let p = self.queue.pos();
        self.queue.set_pos(if p > 0 {
            p - 1
        } else {
            0
        });
        self.next = Some(handle);
        self.has_next_signal = true;
    }

    /// Makes a freshly decoded track the current one on a brand-new sink
    /// input: whatever played before is dropped, any prefetched next track
    /// is dropped with its signal, and playback starts.
    pub fn play_apply_fresh(&mut self, handle: TrackSourceHandle)
        requires
            old(self).wf(),
        ensures
            final (self).wf(),
            final (self).queue.tracks() == old(self).queue.tracks(),
            final (self).queue.cursor() == old(self).queue.cursor(),
            final (self).current == Some(handle),
            final (self).has_current_signal,
            final (self).next is None,
            !final (self).has_next_signal,
            final (self).has_input,
            final (self).is_playing,
    {
        self.current = Some(handle);
        self.has_current_signal = true;
        self.next = None;
        self.has_next_signal = false;
        self.has_input = true;
        self.is_playing = true;
    }

    /// Applies a queue command. `resolved` is the descriptor the resolver
    /// produced for an `Add` (resolution happens outside the library; a
    /// failed resolution is a silent no-op).
    pub fn queue_step(&mut self, request: &Queue, resolved: Option<Track>)
        requires
            old(self).wf(),
        ensures
            final (self).wf(),
            final (self).current == old(self).current,
            final (self).has_current_signal == old(self).has_current_signal,
            final (self).next == old(self).next,
            final (self).has_next_signal == old(self).has_next_signal,
            final (self).has_input == old(self).has_input,
            final (self).is_playing == old(self).is_playing,
            match *request {
                Queue::Clear => {
                    &&& final (self).queue.tracks() == Seq::<Track>::empty()
                    &&& final (self).queue.cursor() == 0
                },
                Queue::Add(_) => match resolved {
                    Some(t) => {
                        &&& final (self).queue.tracks() == old(self).queue.tracks().push(t)
                        &&& final (self).queue.cursor() == old(self).queue.cursor()
                    },
                    None => {
                        &&& final (self).queue.tracks() == old(self).queue.tracks()
                        &&& final (self).queue.cursor() == old(self).queue.cursor()
                    },
                },
                Queue::Remove(p) => if p < old(self).queue.tracks().len() {
                    &&& final (self).queue.tracks() == old(self).queue.tracks().remove(p as int)
                    &&& final (self).queue.cursor() == remove_cursor(
                        old(self).queue.cursor(),
                        p as int,
                    )
                } else {
                    &&& final (self).queue.tracks() == old(self).queue.tracks()
                    &&& final (self).queue.cursor() == old(self).queue.cursor()
                },
                Queue::Swap(a, b) => {
                    &&& final (self).queue.cursor() == old(self).queue.cursor()
                    &&& if a < old(self).queue.tracks().len() && b < old(
                        self,
                    ).queue.tracks().len() {
                        final (self).queue.tracks() == old(self).queue.tracks().update(
                            a as int,
                            old(self).queue.tracks()[b as int],
                        ).update(b as int, old(self).queue.tracks()[a as int])
                    } else {
                        final (self).queue.tracks() == old(self).queue.tracks()
                    }
                },
            },
    {
        match request {
            Queue::Clear => self.queue.clear(),
            Queue::Add(_) => {
                match resolved {
                    Some(t) => self.queue.push_back(t),
                    None => (),
                }
            },
            Queue::Remove(p) => {
                let _ = self.queue.remove(*p);
            },
            Queue::Swap(a, b) => self.queue.swap(*a, *b),
        }
    }

    /// The monitor's prefetch test, run every tick with the current track's
    /// elapsed time: true exactly when a lazy play of the next track should
    /// be requested.
    pub fn prefetch_due(&self, current_time: u64) -> (b: bool)
        requires
            self.wf(),
        ensures
            b == self.spec_prefetch_due(current_time),
    {
        let near_end = match &self.current {
            Some(h) => {
                let d = h.metadata().duration;
                let rem = if d > current_time {
                    d - current_time
                } else {
                    0
                };
                rem < PREFETCH_WINDOW_SECS
            },
            None => false,
        };
        near_end && self.next.is_none() && self.queue.peek_next().is_some()
    }

    /// Mirrors the sink's pause state into the player, as the monitor does
    /// at the start of every tick.
    pub fn observe_sink(&mut self, sink_paused: bool)
        ensures
            final (self).is_playing == !sink_paused,
            final (self).queue == old(self).queue,
            final (self).current == old(self).current,
            final (self).has_current_signal == old(self).has_current_signal,
            final (self).next == old(self).next,
            final (self).has_next_signal == old(self).has_next_signal,
            final (self).has_input == old(self).has_input,
    {
        self.is_playing = !sink_paused;
    }

    /// A seek command touches the pipeline only when a current track exists;
    /// with none it is a no-op.
    pub fn should_seek(&self) -> (b: bool)
        ensures
            b == (self.current is Some),
    {
        self.current.is_some()
    }

    /// The monitor's handoff step, run when the current completion signal
    /// reports `event`. When the signal fired (or its producer is gone) the
    /// prefetched track — if one is ready with its signal — is promoted to
    /// current, gaplessly; with nothing prefetched the sink is paused and
    /// the last-played track stays in place. A firing also advances the
    /// queue cursor, completing the rollback done at prefetch time.
    pub fn handoff_step(&mut self, event: SignalEvent) -> (a: HandoffAction)
        requires
            old(self).wf(),
        ensures
            final (self).wf(),
            final (self).queue.tracks() == old(self).queue.tracks(),
            final (self).has_input == old(self).has_input,
            if !old(self).has_current_signal || event is Pending {
                &&& a == HandoffAction::NoChange
                &&& final (self).queue.cursor() == old(self).queue.cursor()
                &&& final (self).current == old(self).current
                &&& final (self).has_current_signal == old(self).has_current_signal
                &&& final (self).next == old(self).next
                &&& final (self).has_next_signal == old(self).has_next_signal
                &&& final (self).is_playing == old(self).is_playing
            } else {
                &&& final (self).queue.cursor() == if event is Fired {
                    clamp_pos(old(self).queue.cursor() + 1, old(self).queue.tracks().len() as int)
                } else {
                    old(self).queue.cursor()
                }
                &&& final (self).has_current_signal
                &&& final (self).next is None
                &&& !final (self).has_next_signal
                &&& if old(self).next is Some && old(self).has_next_signal {
                    &&& a == HandoffAction::Promoted
                    &&& final (self).current == old(self).next
                    &&& final (self).is_playing == old(self).is_playing
                } else {
                    &&& a == HandoffAction::PauseSink
                    &&& final (self).current == old(self).current
                    &&& !final (self).is_playing
                }
            },
    {
        if !self.has_current_signal {
            return HandoffAction::NoChange;
        }
        match event {
            SignalEvent::Pending => HandoffAction::NoChange,
            SignalEvent::Fired => {
                let p = self.queue.pos();
                let l = self.queue.len();
                self.queue.set_pos(
                    if p < l {
                        p + 1
                    } else {
                        l
                    },
                );
                self.promote_or_pause()
            },
            SignalEvent::Disconnected => self.promote_or_pause(),
        }
    }

    /// Takes the prefetched pair; promotes it when complete, else pauses.
    fn promote_or_pause(&mut self) -> (a: HandoffAction)
        requires
            old(self).wf(),
        ensures
            final (self).wf(),
            final (self).queue == old(self).queue,
            final (self).has_current_signal == old(self).has_current_signal,
            final (self).has_input == old(self).has_input,
            final (self).next is None,
            !final (self).has_next_signal,
            if old(self).next is Some && old(self).has_next_signal {
                &&& a == HandoffAction::Promoted
                &&& final (self).current == old(self).next
                &&& final (self).is_playing == old(self).is_playing
            } else {
                &&& a == HandoffAction::PauseSink
                &&& final (self).current == old(self).current
                &&& !final (self).is_playing
            },
    {
        let next = self.next.take();
        let had_signal = self.has_next_signal;
        self.has_next_signal = false;
        match next {
            Some(h) => {
                if had_signal {
                    self.current = Some(h);
                    HandoffAction::Promoted
                } else {
                    self.is_playing = false;
                    HandoffAction::PauseSink
                }
            },
            None => {
                self.is_playing = false;
                HandoffAction::PauseSink
            },
        }
    }
}

/// Prefetch triggers at most once per track: it is only due while the next
/// slot is empty, and the lazy play it triggers fills that slot, so however
/// the elapsed time moves on, it cannot trigger again until a handoff (or a
/// fresh play) clears the slot.
pub proof fn lemma_prefetch_triggers_once(
    before: PlayerState,
    after: PlayerState,
    t_before: u64,
    t_after: u64,
)
    requires
        before.spec_prefetch_due(t_before),
        after.next is Some,
    ensures
        before.next is None,
        !after.spec_prefetch_due(t_after),
{
}

} // verus!
