//! Error taxonomy of the audio layer. Each variant carries the detail text
//! reported upward; the playback orchestration above decides what survives a
//! failure (a track-level error state, never a crash of the process).

use vstd::prelude::*;

verus! {

/// What went wrong in the audio layer.
#[derive(Clone, Debug)]
pub enum AudioError {
    /// The audio output device failed.
    DeviceError(String),
    /// The streaming pipeline failed: a length probe without a
    /// content length, or a bounded wait for data that ran out of attempts.
    StreamError(String),
    /// The external decoder could not parse or continue the stream.
    DecodingError(String),
    /// The requested track does not exist.
    TrackNotFound(String),
    /// A network request failed.
    NetworkError(String),
    /// Anything else.
    Unknown(String),
}

} // verus!
