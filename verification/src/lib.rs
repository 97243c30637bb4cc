//! Streaming decode-and-playback core for compressed audio.
//!
//! The library turns compressed audio frames into a flat,
//! channel-interleaved sequence of fixed-width output samples, and
//! drives a playback engine that drains a command queue, pulls decoded
//! samples into a bounded buffer, and reports playback status.

pub mod channel;
pub mod cursor;
pub mod frame;
pub mod mad;
pub mod mp3;
pub mod player;
pub mod sample;
pub mod time;
