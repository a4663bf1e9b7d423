//! Track-progress sink: byte, position, bitrate and duration figures
//! published for display.
//!
//! Durations are carried as whole milliseconds. The figures are best-effort
//! display state; the reset generation lets a new track discredit updates
//! still arriving from a superseded session.

use vstd::prelude::*;

verus! {

/// Progress figures for the track being played: playback position, total
/// duration, byte counts, bitrate, and the reset generation.
pub struct TrackProgress {
    /// Current playback position, in milliseconds.
    pub current_position_millis: u64,
    /// Total track duration, in milliseconds.
    pub total_duration_millis: u64,
    /// Length of the track's remote resource, in bytes.
    pub total_bytes: u64,
    /// How far the resource has been buffered, in bytes.
    pub buffered_bytes: u64,
    /// Track bitrate, in kilobits per second.
    pub bitrate: u64,
    /// Bumped by every reset, so late updates from a superseded session can
    /// be recognized and dropped.
    pub generation: u64,
}

impl TrackProgress {
    /// Fresh figures: everything zero.
    pub fn new() -> (r: Self)
        ensures
            r == (TrackProgress {
                current_position_millis: 0,
                total_duration_millis: 0,
                total_bytes: 0,
                buffered_bytes: 0,
                bitrate: 0,
                generation: 0,
            }),
    {
        TrackProgress {
            current_position_millis: 0,
            total_duration_millis: 0,
            total_bytes: 0,
            buffered_bytes: 0,
            bitrate: 0,
            generation: 0,
        }
    }

    /// Record the playback position.
    pub fn set_current_position(&mut self, position_millis: u64)
        ensures
            *final(self) == (TrackProgress {
                current_position_millis: position_millis,
                ..*old(self)
            }),
    {
        self.current_position_millis = position_millis;
    }

    /// Record the total duration.
    pub fn set_total_duration(&mut self, duration_millis: u64)
        ensures
            *final(self) == (TrackProgress { total_duration_millis: duration_millis, ..*old(self) }),
    {
        self.total_duration_millis = duration_millis;
    }

    /// Record the resource length; with a bitrate already known, derive the
    /// total duration from it (`bytes * 8 / bitrate` milliseconds, the
    /// byte count read at `bitrate` kilobits per second).
    pub fn set_total_bytes(&mut self, bytes: u64)
        requires
            bytes * 8 <= u64::MAX,
        ensures
            old(self).bitrate > 0 ==> *final(self) == (TrackProgress {
                total_bytes: bytes,
                total_duration_millis: (bytes * 8 / old(self).bitrate as int) as u64,
                ..*old(self)
            }),
            old(self).bitrate == 0 ==> *final(self) == (TrackProgress {
                total_bytes: bytes,
                ..*old(self)
            }),
    {
        self.total_bytes = bytes;
        if self.bitrate > 0 {
            self.total_duration_millis = bytes * 8 / self.bitrate;
        }
    }

    /// Record how far the resource has been buffered.
    pub fn set_buffered_bytes(&mut self, bytes: u64)
        ensures
            *final(self) == (TrackProgress { buffered_bytes: bytes, ..*old(self) }),
    {
        self.buffered_bytes = bytes;
    }

    /// Record the track bitrate, in kilobits per second.
    pub fn set_bitrate(&mut self, bitrate: u64)
        ensures
            *final(self) == (TrackProgress { bitrate: bitrate, ..*old(self) }),
    {
        self.bitrate = bitrate;
    }

    /// The playback position and total duration, in milliseconds.
    pub fn get_progress(&self) -> (r: (u64, u64))
        ensures
            r.0 == self.current_position_millis,
            r.1 == self.total_duration_millis,
    {
        (self.current_position_millis, self.total_duration_millis)
    }

    /// The track bitrate, in kilobits per second.
    pub fn get_bitrate(&self) -> (r: u64)
        ensures
            r == self.bitrate,
    {
        self.bitrate
    }

    /// The resource length, in bytes.
    pub fn get_total_bytes(&self) -> (r: u64)
        ensures
            r == self.total_bytes,
    {
        self.total_bytes
    }

    /// How far the resource has been buffered, in bytes.
    pub fn get_buffered_bytes(&self) -> (r: u64)
        ensures
            r == self.buffered_bytes,
    {
        self.buffered_bytes
    }

    /// The reset generation these figures belong to.
    pub fn get_generation(&self) -> (r: u64)
        ensures
            r == self.generation,
    {
        self.generation
    }

    /// Start a new epoch: bump the generation and zero every figure, so
    /// updates still arriving from the superseded session are recognizable.
    pub fn reset(&mut self)
        requires
            old(self).generation < u64::MAX,
        ensures
            *final(self) == (TrackProgress {
                current_position_millis: 0,
                total_duration_millis: 0,
                total_bytes: 0,
                buffered_bytes: 0,
                bitrate: 0,
                generation: (old(self).generation + 1) as u64,
            }),
    {
        self.generation = self.generation + 1;
        self.set_buffered_bytes(0);
        self.set_current_position(0);
        self.set_total_duration(0);
        self.set_total_bytes(0);
        self.set_bitrate(0);
    }
}

impl Default for TrackProgress {
    /// Fresh figures: everything zero.
    fn default() -> (r: Self)
        ensures
            r == (TrackProgress {
                current_position_millis: 0,
                total_duration_millis: 0,
                total_bytes: 0,
                buffered_bytes: 0,
                bitrate: 0,
                generation: 0,
            }),
    {
        TrackProgress::new()
    }
}

} // verus!
