//! What can go wrong, by how far the damage reaches.

use vstd::prelude::*;

verus! {

/// Failures that keep a session from starting. Each ends the session before
/// any packet is read.
#[derive(Clone, Copy, Debug, PartialEq, Eq, Structural)]
pub enum FatalError {
    /// The sampling stride is zero.
    InvalidInterval,
    /// The stream could not be opened.
    SourceUnavailable,
    /// The source carries no video stream.
    NoVideoStream,
    /// The decoder or the converter could not be set up for the stream.
    DecoderInitFailed,
}

/// Failures that cost one sampled frame its output and nothing more.
#[derive(Clone, Copy, Debug, PartialEq, Eq, Structural)]
pub enum FrameError {
    /// The converted frame does not have the shape it claims.
    ConversionFailed,
    /// The presentation time does not fit the range of seconds.
    TimeOutOfRange,
    /// The raster could not be encoded.
    EncodeFailed,
    /// The encoded image could not be written.
    IOWriteFailed,
    /// The metadata store could not be opened.
    StoreUnavailable,
    /// The metadata store refused the row.
    InsertFailed,
}

} // verus!
