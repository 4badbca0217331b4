//! Error taxonomy. Every error here is fatal by design: the host reports it
//! and terminates, with no retry or recovery.

use vstd::prelude::*;

verus! {

/// Failures of the one-time initialization, in the order its steps run.
#[derive(Debug, PartialEq)]
pub enum InitError {
    /// The byte source could not be read at all.
    UnreadableSource,
    /// No container format matched the probed source.
    UnsupportedFormat(String),
    /// No track carries a codec other than the unknown sentinel.
    NoSupportedTrack,
    /// No decoder is registered for the selected track's codec.
    UnsupportedCodec(String),
}

/// Failures of a Playing tick.
#[derive(Debug, PartialEq)]
pub enum StreamError {
    /// End of stream, or an I/O fault while pulling a packet.
    IoFailure(String),
    /// Malformed container or codec data.
    DecodeFailure(String),
    /// A packet belongs to a track other than the one selected at
    /// initialization: an unrecoverable desynchronization.
    TrackMismatch { got: u32, expected: u32 },
}

/// Any fatal outcome of a tick.
#[derive(Debug, PartialEq)]
pub enum FatalError {
    Init(InitError),
    Stream(StreamError),
}

} // verus!
