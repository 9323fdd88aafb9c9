//! Verified core of the native helper processes.
//!
//! The audio recorder's pipeline: the framed output protocol (`framing`),
//! 16-bit PCM payloads (`pcm`), taking one channel out of interleaved audio
//! (`downmix`), chunking in front of the resampler (`resample`), device
//! selection (`device`) and the command state machine (`session`). Beside it,
//! the keyboard listener's hotkey bookkeeping (`hotkeys`, `keys`) and the
//! selected-text reader's decisions (`text_selection`).

pub mod device;
pub mod downmix;
pub mod framing;
pub mod hotkeys;
pub mod keys;
pub mod pcm;
pub mod resample;
pub mod session;
pub mod text_selection;
