//! Decode bookkeeping of one playing track.
//!
//! The decoder and demuxer themselves live outside the library; what is
//! modelled here is the state they drive: the sample buffer's fill level and
//! refill policy, the packet-timestamp counter that elapsed time is derived
//! from, and the split into an exclusive producer side (`TrackSource`) and a
//! shared read side (`TrackSourceHandle`). The producer feeds packets in;
//! the handle answers time and metadata queries.

use vstd::prelude::*;

use crate::track::Track;
use crate::track::sample_rate_of;

verus! {

/// Samples counted for a packet when the decoder does not say.
pub const DEFAULT_PACKET_SAMPLES: usize = 1500;

/// Display metadata of one track, shared with the orchestrator.
pub struct Metadata {
    /// Track title.
    pub title: String,
    /// Track author.
    pub author: String,
    /// Thumbnail URLs.
    pub thumbnails: Vec<String>,
    /// Duration in whole seconds.
    pub duration: u64,
}

impl Metadata {
    /// Fieldwise agreement; the thumbnail list is compared by its element
    /// sequence. This is exactly what a clone preserves.
    pub open spec fn like(&self, other: &Metadata) -> bool {
        &&& self.title == other.title
        &&& self.author == other.author
        &&& self.thumbnails@ == other.thumbnails@
        &&& self.duration == other.duration
    }

    /// The metadata a descriptor carries.
    pub fn from_track(track: &Track) -> (m: Metadata)
        ensures
            m.title == track.title,
            m.author == track.author,
            m.thumbnails@ == track.thumbnails@,
            m.duration == track.duration,
    {
        let thumbnails = track.thumbnails.clone();
        proof {
            assert forall|i: int| 0 <= i < track.thumbnails@.len() implies track.thumbnails@[i]
                == thumbnails@[i] by {
                assert(cloned::<String>(track.thumbnails@[i], thumbnails@[i]));
            }
            assert(track.thumbnails@ =~= thumbnails@);
        }
        Metadata {
            title: track.title.clone(),
            author: track.author.clone(),
            thumbnails,
            duration: track.duration,
        }
    }
}

impl Clone for Metadata {
    fn clone(&self) -> (res: Self)
        ensures
            self.like(&res),
            res.like(self),
    {
        let thumbnails = self.thumbnails.clone();
        proof {
            assert forall|i: int| 0 <= i < self.thumbnails@.len() implies self.thumbnails@[i]
                == thumbnails@[i] by {
                assert(cloned::<String>(self.thumbnails@[i], thumbnails@[i]));
            }
            assert(self.thumbnails@ =~= thumbnails@);
        }
        Metadata {
            title: self.title.clone(),
            author: self.author.clone(),
            thumbnails,
            duration: self.duration,
        }
    }
}

/// Exclusive producer side: sample-buffer and timestamp bookkeeping.
pub struct TrackSource {
    channels: u16,
    sample_rate: u32,
    duration: u64,
    current_time_ms: u64,
    buffered: usize,
    ended: bool,
}

/// Shared read side: elapsed time and metadata.
pub struct TrackSourceHandle {
    current_time_ms: u64,
    metadata: Metadata,
}

/// How many samples a packet contributes: what the decoder reported, or the
/// default, times the channel count.
pub open spec fn packet_sample_count(reported: Option<usize>, channels: u16) -> int {
    (match reported {
        Some(n) => n as int,
        None => DEFAULT_PACKET_SAMPLES as int,
    }) * channels
}

impl TrackSource {
    /// Channel count the decoder was built with.
    pub closed spec fn spec_channels(&self) -> u16 {
        self.channels
    }

    /// Sample rate the decoder was built with.
    pub closed spec fn spec_sample_rate(&self) -> u32 {
        self.sample_rate
    }

    /// Track duration in seconds.
    pub closed spec fn spec_duration(&self) -> u64 {
        self.duration
    }

    /// Timestamp of the last packet fed in, in milliseconds.
    pub closed spec fn time_ms(&self) -> u64 {
        self.current_time_ms
    }

    /// Samples currently buffered.
    pub closed spec fn buffered(&self) -> int {
        self.buffered as int
    }

    /// Whether the packet stream has ended (end of stream or decode failure).
    pub closed spec fn spec_ended(&self) -> bool {
        self.ended
    }

    /// Bookkeeping for a fresh decode of `track`: channel count and sample
    /// rate from the format (with their defaults), an empty sample buffer,
    /// and the handle the orchestrator keeps.
    pub fn new(track: &Track) -> (r: (TrackSource, TrackSourceHandle))
        ensures
            r.0.spec_channels() == match track.format.audio_channels {
                Some(n) => n as u16,
                None => 2u16,
            },
            r.0.spec_sample_rate() == sample_rate_of(track.format.audio_sample_rate),
            r.0.spec_duration() == track.duration,
            r.0.time_ms() == 0,
            r.0.buffered() == 0,
            !r.0.spec_ended(),
            r.1.time_ms() == 0,
            r.1.spec_metadata().title == track.title,
            r.1.spec_metadata().author == track.author,
            r.1.spec_metadata().thumbnails@ == track.thumbnails@,
            r.1.spec_metadata().duration == track.duration,
    {
        let channels = track.format.channel_count();
        let sample_rate = track.format.sample_rate();
        let source = TrackSource {
            channels,
            sample_rate,
            duration: track.duration,
            current_time_ms: 0,
            buffered: 0,
            ended: false,
        };
        let handle = TrackSourceHandle {
            current_time_ms: 0,
            metadata: Metadata::from_track(track),
        };
        (source, handle)
    }

    /// The refill policy: decode another packet once the buffer has drained
    /// to half of its last-seen capacity (the capacity is whatever the
    /// allocation currently holds, so the caller reads and passes it).
    pub fn needs_refill(&self, capacity: usize) -> (b: bool)
        ensures
            b == (self.buffered() <= capacity / 2),
    {
        self.buffered <= capacity / 2
    }

    /// Accounts for one decoded packet: the timestamp counter takes the
    /// packet's timestamp and the samples join the buffer.
    pub fn on_packet(&mut self, ts_ms: u64, reported_samples: Option<usize>)
        requires
            old(self).buffered() + packet_sample_count(reported_samples, old(self).spec_channels())
                <= usize::MAX,
        ensures
            final (self).time_ms() == ts_ms,
            final (self).buffered() == old(self).buffered() + packet_sample_count(
                reported_samples,
                old(self).spec_channels(),
            ),
            final (self).spec_channels() == old(self).spec_channels(),
            final (self).spec_sample_rate() == old(self).spec_sample_rate(),
            final (self).spec_duration() == old(self).spec_duration(),
            final (self).spec_ended() == old(self).spec_ended(),
    {
        self.current_time_ms = ts_ms;
        let per_channel = match reported_samples {
            Some(n) => n,
            None => DEFAULT_PACKET_SAMPLES,
        };
        self.buffered = self.buffered + per_channel * (self.channels as usize);
    }

    /// Accounts for one sample handed to the output.
    pub fn take_sample(&mut self)
        requires
            old(self).buffered() > 0,
        ensures
            final (self).buffered() == old(self).buffered() - 1,
            final (self).time_ms() == old(self).time_ms(),
            final (self).spec_channels() == old(self).spec_channels(),
            final (self).spec_sample_rate() == old(self).spec_sample_rate(),
            final (self).spec_duration() == old(self).spec_duration(),
            final (self).spec_ended() == old(self).spec_ended(),
    {
        self.buffered = self.buffered - 1;
    }

    /// Marks the packet stream over: end of stream, or a decode failure —
    /// either way the track ends rather than failing the pipeline.
    pub fn mark_ended(&mut self)
        ensures
            final (self).spec_ended(),
            final (self).buffered() == old(self).buffered(),
            final (self).time_ms() == old(self).time_ms(),
            final (self).spec_channels() == old(self).spec_channels(),
            final (self).spec_sample_rate() == old(self).spec_sample_rate(),
            final (self).spec_duration() == old(self).spec_duration(),
    {
        self.ended = true;
    }

    /// Whether the packet stream has ended.
    pub fn is_ended(&self) -> (b: bool)
        ensures
            b == self.spec_ended(),
    {
        self.ended
    }

    /// Buffered sample count, as the output sink polls it.
    pub fn current_frame_len(&self) -> (n: usize)
        ensures
            n == self.buffered(),
    {
        self.buffered
    }

    /// Channel count, as the output sink polls it.
    pub fn channels(&self) -> (c: u16)
        ensures
            c == self.spec_channels(),
    {
        self.channels
    }

    /// Sample rate, as the output sink polls it.
    pub fn sample_rate(&self) -> (r: u32)
        ensures
            r == self.spec_sample_rate(),
    {
        self.sample_rate
    }

    /// Track duration in seconds, as the output sink polls it.
    pub fn total_duration(&self) -> (d: u64)
        ensures
            d == self.spec_duration(),
    {
        self.duration
    }
}

impl TrackSourceHandle {
    /// Timestamp of the last packet the producer delivered, in milliseconds.
    pub closed spec fn time_ms(&self) -> u64 {
        self.current_time_ms
    }

    /// The metadata carried by the handle.
    pub closed spec fn spec_metadata(&self) -> Metadata {
        self.metadata
    }

    /// Mirrors the producer's timestamp counter (the two sides share it).
    pub fn observe_packet(&mut self, ts_ms: u64)
        ensures
            final (self).time_ms() == ts_ms,
            final (self).spec_metadata() == old(self).spec_metadata(),
    {
        self.current_time_ms = ts_ms;
    }

    /// Elapsed time in whole seconds: the last packet timestamp, which
    /// tracks decode progress, not what is already audible.
    pub fn current_time(&self) -> (t: u64)
        ensures
            t == self.time_ms() / 1000,
    {
        self.current_time_ms / 1000
    }

    /// The track's metadata.
    pub fn metadata(&self) -> (m: &Metadata)
        ensures
            *m == self.spec_metadata(),
    {
        &self.metadata
    }
}

impl Clone for TrackSourceHandle {
    fn clone(&self) -> (res: Self)
        ensures
            res.time_ms() == self.time_ms(),
            res.spec_metadata().like(&self.spec_metadata()),
    {
        TrackSourceHandle {
            current_time_ms: self.current_time_ms,
            metadata: self.metadata.clone(),
        }
    }
}

} // verus!
