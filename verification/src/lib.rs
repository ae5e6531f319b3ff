//! A verified core for the VBAN audio-over-UDP transport: header framing,
//! PCM payload coding, and the sender and recipient engines.
//!
//! The engines hold no socket, clock, or audio device of their own: the
//! caller owns those and feeds the engines plain values (packet bytes, a
//! millisecond clock, decoded samples), while the audio backends stand
//! behind the [`VbanSource`] and [`VbanSink`] traits.

use vstd::prelude::*;

pub mod bytes;
pub mod chunks;
pub mod header;
pub mod vban_recipient;
pub mod vban_sender;

verus! {

/// Largest VBAN packet: 28 header bytes plus up to 1436 payload bytes.
pub const VBAN_PROTOCOL_MAX_SIZE: usize = 1464;

/// Bytes of the header, frame counter included.
pub const VBAN_HEADER_TOTAL_SIZE: usize = 28;

/// Bytes of the stream-name field.
pub const VBAN_STREAM_NAME_SIZE: usize = 16;

/// A capture backend: fills buffers with interleaved 16-bit PCM samples at
/// the rate and channel count it was opened with, blocking until the buffer
/// is full. On a backend failure an implementation hands back zero-filled
/// data instead of stalling the engine.
pub trait VbanSource {
    /// Fills `buf` with the next interleaved samples. The buffer keeps its
    /// length: implementations fill the space they are given, as a backend
    /// fills a borrowed slice.
    fn read(&mut self, buf: &mut Vec<i16>)
        ensures
            final(buf)@.len() == old(buf)@.len(),
    ;
}

/// A playback backend: accepts interleaved 16-bit PCM samples, blocking
/// until the backend takes them. On a backend error an implementation makes
/// one recovery attempt and retries once; a block that still fails is
/// dropped, and `write` can be called again after any outcome.
pub trait VbanSink: Sized {
    /// Opens the named device at a channel count and sample rate, or fails.
    fn init(device: &str, num_channels: u32, sample_rate: u32) -> Option<Self>;

    /// Plays one block of interleaved samples.
    fn write(&mut self, buf: &Vec<i16>);

    /// Plays out whatever the backend still buffers, before a close or a
    /// reopen.
    fn drain(&mut self);
}

} // verus!
