//! Playback-orchestration core of a streaming audio player.
//!
//! The crate models the decision logic of the player — the track queue, the
//! resilient byte stream's position and buffer accounting, the decode
//! bookkeeping, and the orchestrator's prefetch/handoff protocol — as plain
//! data with verified transition functions. All I/O (HTTP, the audio device,
//! the container demuxer and codec) lives outside the library and drives
//! these state machines.

pub mod manager;
pub mod queue;
pub mod source;
pub mod stream;
pub mod track;

pub use manager::Play;
pub use manager::PlayerState;
pub use manager::Queue;
pub use queue::TracksQueue;
pub use queue::TracksQueueHandle;
pub use source::Metadata;
pub use source::TrackSource;
pub use source::TrackSourceHandle;
pub use stream::TrackStream;
pub use track::AudioFormat;
pub use track::Track;
