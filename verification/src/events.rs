//! Control signals addressed to the playback layer.

use vstd::prelude::*;

verus! {

/// An out-of-band playback control request.
#[derive(Clone, Copy, Debug, PartialEq, Eq, Structural)]
pub enum ControlSignal {
    /// Stop playback.
    Stop,
    /// Seek to an absolute position, in seconds.
    Seek(u64),
    /// Seek forward by this many seconds.
    SeekForward(u64),
    /// Seek backward by this many seconds.
    SeekBackward(u64),
}

} // verus!
