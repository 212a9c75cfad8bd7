//! Keyframe-interval bitrate estimation for demultiplexed media streams.
//!
//! A container demuxer yields a finite sequence of packets, each carrying a
//! stream index, a byte size, an optional presentation timestamp and a
//! keyframe flag. One [`counter::StreamCounter`] per stream accumulates byte
//! counts and, at each keyframe boundary, closes the interval since the
//! previous keyframe by emitting a [`counter::Sample`]. The
//! [`coordinator::Coordinator`] routes packets to the matching counter and
//! flushes a trailing partial interval once the source is exhausted.
//!
//! All quantities are kept as integers (byte deltas, timestamp ticks and the
//! rational time base); rendering a sample as seconds and bits per second is
//! left to the caller.

pub mod counter;
pub mod coordinator;

