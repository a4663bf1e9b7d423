//! Random-access reader state over a remote resource, backed by the sliding
//! buffer window.
//!
//! The reader presents a read-N-bytes / seek-to-offset contract. It plans
//! background range fetches (`FetchRequest`) and applies their results;
//! performing the fetches — HTTP requests, the worker thread, the command
//! channel, the bounded waits — is the caller's side of the bargain. Every
//! decision of the read path lives here: when a resynchronization is needed,
//! what range to fetch, when the in-flight fetch is discredited by a seek,
//! when enough is buffered to proceed, and when to prefetch ahead of the
//! cursor.

use vstd::prelude::*;

use crate::buffer::BUFFER_SIZE;
use crate::buffer::BufferModel;
use crate::buffer::BufferState;
use crate::buffer::PREFETCH_TRIGGER;

verus! {

/// Size of each background range fetch (256 KiB).
pub const PREFETCH_SIZE: usize = 256 * 1024;

/// Bytes that must be buffered before a freshly constructed reader reports
/// ready, so the decoder can read its header without stalling (64 KiB).
pub const MIN_INITIAL_DATA: usize = 64 * 1024;

/// Ceiling on timed wait attempts while blocking for fetched data; exceeding
/// it turns the wait into a hard error instead of an unbounded stall.
pub const MAX_ATTEMPTS: usize = 100;

/// A range fetch the background worker is asked to perform: bytes
/// `[start, end)`, requested under `generation`. A result coming back under
/// a generation that is no longer current is not trusted to shape the
/// window.
#[derive(Clone, Copy, Debug, PartialEq, Eq, Structural)]
pub struct FetchRequest {
    /// First byte offset to fetch.
    pub start: u64,
    /// One past the last byte offset to fetch.
    pub end: u64,
    /// The reader generation under which the fetch was requested.
    pub generation: u64,
}

/// A seek target: an absolute offset, an offset relative to the resource
/// end, or an offset relative to the current cursor.
#[derive(Clone, Copy, Debug, PartialEq, Eq, Structural)]
pub enum SeekWhence {
    /// Absolute offset from the start of the resource.
    Start(u64),
    /// Signed offset from the end of the resource.
    End(i64),
    /// Signed offset from the current cursor.
    Current(i64),
}

/// The sequential state of the streaming reader: the buffer window, the
/// logical read cursor (independent of the window), the generation counter
/// bumped on every window reset, and the resource length.
pub struct StreamingDataSource {
    /// The sliding window of cached bytes.
    pub buffer: BufferState,
    /// Current logical read cursor.
    pub position: u64,
    /// Monotonically increasing counter; a fetch result is only applied if it
    /// was requested under the generation still current when it completes.
    pub generation: u64,
    /// Resource length, known up front from a metadata probe.
    pub total_bytes: u64,
}

impl StreamingDataSource {
    /// Well-formedness: the window is well-formed and belongs to this
    /// resource.
    pub open spec fn wf(self) -> bool {
        &&& self.buffer@.wf()
        &&& self.buffer@.total == self.total_bytes as int
    }

    /// The exclusive end of a fetch of `size` bytes at `start`, clamped to
    /// the resource length.
    pub open spec fn spec_fetch_end(self, start: int, size: int) -> int {
        if start + size <= self.total_bytes {
            start + size
        } else {
            self.total_bytes as int
        }
    }

    /// How many bytes a resynchronization at `pos` asks for: a prefetch-sized
    /// chunk, clamped to what the resource still holds past `pos`.
    pub open spec fn spec_resync_chunk(self, pos: int) -> int {
        let remaining = if pos <= self.total_bytes {
            self.total_bytes - pos
        } else {
            0
        };
        if PREFETCH_SIZE <= remaining {
            PREFETCH_SIZE as int
        } else {
            remaining
        }
    }

    /// Where a seek lands: the resolved target (saturating at the 64-bit
    /// bounds, as the arithmetic does), clamped to the resource length.
    pub open spec fn spec_seek_target(self, from: SeekWhence) -> int {
        let raw = match from {
            SeekWhence::Start(o) => o as int,
            SeekWhence::End(off) => if self.total_bytes + off <= 0 {
                0
            } else if self.total_bytes + off >= u64::MAX {
                u64::MAX as int
            } else {
                self.total_bytes + off
            },
            SeekWhence::Current(off) => if self.position + off <= 0 {
                0
            } else if self.position + off >= u64::MAX {
                u64::MAX as int
            } else {
                self.position + off
            },
        };
        if raw <= self.total_bytes {
            raw
        } else {
            self.total_bytes as int
        }
    }

    /// Whether, with the reader in its current state, a prefetch ahead of the
    /// cursor should be issued: the window asks for one and the resource
    /// still has bytes past the window end.
    pub open spec fn spec_wants_prefetch(self) -> bool {
        &&& self.buffer@.should_prefetch(self.position as int)
        &&& self.buffer@.end() < self.total_bytes
    }

    /// A fresh reader for a resource of `total_bytes` bytes: empty window,
    /// cursor at 0, generation 0.
    pub fn new(total_bytes: u64) -> (r: Self)
        ensures
            r.wf(),
            r.position == 0,
            r.generation == 0,
            r.total_bytes == total_bytes,
            r.buffer@ == BufferModel::initial(total_bytes as int),
    {
        StreamingDataSource {
            buffer: BufferState::new(total_bytes),
            position: 0,
            generation: 0,
            total_bytes: total_bytes,
        }
    }

    /// The resource length.
    pub fn get_total_bytes(&self) -> (r: u64)
        ensures
            r == self.total_bytes,
    {
        self.total_bytes
    }

    /// The fetch request for `size` bytes at `start` under the current
    /// generation, its end clamped to the resource length.
    pub fn fetch_request(&self, start: u64, size: u64) -> (r: FetchRequest)
        requires
            self.wf(),
            start + size <= u64::MAX,
        ensures
            r.start == start,
            r.end == self.spec_fetch_end(start as int, size as int),
            r.generation == self.generation,
    {
        let sum = start + size;
        let end = if sum < self.total_bytes {
            sum
        } else {
            self.total_bytes
        };
        FetchRequest { start: start, end: end, generation: self.generation }
    }

    /// The fetch issued right after construction: the first prefetch-sized
    /// chunk of the resource. Construction then waits until
    /// `wait_satisfied(0, MIN_INITIAL_DATA)` holds.
    pub fn initial_fetch_request(&self) -> (r: FetchRequest)
        requires
            self.wf(),
        ensures
            r.start == 0,
            r.end == self.spec_fetch_end(0, PREFETCH_SIZE as int),
            r.generation == self.generation,
    {
        self.fetch_request(0, PREFETCH_SIZE as u64)
    }

    /// Worker step: record that the fetch for `[start, end)` is in flight, so
    /// no second fetch is issued while it runs.
    pub fn mark_fetch_started(&mut self, start: u64, end: u64)
        ensures
            final(self).buffer@ == (BufferModel {
                pending: Some((start as int, end as int)),
                ..old(self).buffer@
            }),
            final(self).position == old(self).position,
            final(self).generation == old(self).generation,
            final(self).total_bytes == old(self).total_bytes,
    {
        self.buffer.mark_pending(start, end);
    }

    /// Worker step on a fetch that returned bytes. A result requested under a
    /// superseded generation is observed but ignored: the window it was meant
    /// for has been cleared by a seek since. A current result is appended to
    /// the window. Returns whether the window took the bytes.
    pub fn apply_fetch_success(&mut self, data: &[u8], start: u64, request_generation: u64) -> (applied:
        bool)
        requires
            old(self).wf(),
            data@.len() <= BUFFER_SIZE,
            start + data@.len() <= u64::MAX,
        ensures
            final(self).wf(),
            final(self).position == old(self).position,
            final(self).generation == old(self).generation,
            final(self).total_bytes == old(self).total_bytes,
            applied == (request_generation == old(self).generation
                && old(self).buffer@.append_accepts(data@, start as int)),
            request_generation != old(self).generation ==> final(self).buffer@ == old(
                self,
            ).buffer@,
            request_generation == old(self).generation ==> final(self).buffer@ == old(
                self,
            ).buffer@.append_model(data@, start as int),
    {
        if request_generation != self.generation {
            return false;
        }
        self.buffer.append(data, start)
    }

    /// Worker step on a fetch that failed: retire the pending marker so
    /// waiters are not starved; the next resynchronization or prefetch
    /// simply retries.
    pub fn apply_fetch_failure(&mut self)
        ensures
            final(self).buffer@ == (BufferModel { pending: None, ..old(self).buffer@ }),
            final(self).position == old(self).position,
            final(self).generation == old(self).generation,
            final(self).total_bytes == old(self).total_bytes,
    {
        self.buffer.clear_pending();
    }

    /// True when the read cursor is at or past the resource end; a read then
    /// returns 0 bytes without touching the window.
    pub fn at_end(&self) -> (r: bool)
        ensures
            r == (self.position >= self.total_bytes),
    {
        self.position >= self.total_bytes
    }

    /// True when the window does not hold the cursor, so a read must
    /// resynchronize first.
    pub fn needs_resync(&self) -> (r: bool)
        requires
            self.wf(),
        ensures
            r == !self.buffer@.contains(self.position as int),
    {
        !self.buffer.contains(self.position)
    }

    /// The wait predicate while blocking for data at `pos`: enough bytes
    /// have arrived, or the window has reached the resource end.
    pub fn wait_satisfied(&self, pos: u64, min_bytes: usize) -> (r: bool)
        requires
            self.wf(),
        ensures
            r == (self.buffer@.available_from(pos as int) >= min_bytes || self.buffer@.eof),
    {
        self.buffer.available_from(pos) >= min_bytes || self.buffer.is_eof()
    }

    /// Synchronous half of resynchronizing the window onto the cursor. When
    /// the cursor is already cached, nothing happens. Otherwise the
    /// generation is bumped — discrediting whatever fetch may still be in
    /// flight — the window is cleared to the cursor, and the fetch to issue
    /// is returned: a prefetch-sized chunk at the cursor, or `None` when the
    /// resource holds nothing at or past it. The caller sends the request,
    /// then waits until `wait_satisfied(position, (end - start) as usize)`
    /// holds, giving up after `MAX_ATTEMPTS` timed attempts.
    pub fn begin_resync(&mut self) -> (r: Option<FetchRequest>)
        requires
            old(self).wf(),
            old(self).generation < u64::MAX,
        ensures
            final(self).wf(),
            final(self).position == old(self).position,
            final(self).total_bytes == old(self).total_bytes,
            old(self).buffer@.contains(old(self).position as int) ==> {
                &&& final(self).generation == old(self).generation
                &&& final(self).buffer@ == old(self).buffer@
                &&& r is None
            },
            !old(self).buffer@.contains(old(self).position as int) ==> {
                &&& final(self).generation == old(self).generation + 1
                &&& final(self).buffer@ == old(self).buffer@.clear_model(
                    old(self).position as int,
                )
                &&& (r is Some <==> old(self).spec_resync_chunk(old(self).position as int) > 0)
                &&& (r matches Some(req) ==> req == (FetchRequest {
                    start: old(self).position,
                    end: (old(self).position + old(self).spec_resync_chunk(
                        old(self).position as int,
                    )) as u64,
                    generation: (old(self).generation + 1) as u64,
                }))
            },
    {
        if self.buffer.contains(self.position) {
            return None;
        }
        self.generation = self.generation + 1;
        self.buffer.clear(self.position);
        let remaining = self.total_bytes.saturating_sub(self.position);
        let size = if (PREFETCH_SIZE as u64) < remaining {
            PREFETCH_SIZE as u64
        } else {
            remaining
        };
        if size > 0 {
            Some(self.fetch_request(self.position, size))
        } else {
            None
        }
    }

    /// Plan the fire-and-forget prefetch the reader wants in its current
    /// state, if any: the next prefetch-sized chunk starting at the window
    /// end, under the current generation.
    pub fn trigger_prefetch(&self) -> (r: Option<FetchRequest>)
        requires
            self.wf(),
        ensures
            (r is Some <==> self.spec_wants_prefetch()),
            r matches Some(req) ==> req == (FetchRequest {
                start: self.buffer@.end() as u64,
                end: self.spec_fetch_end(self.buffer@.end(), PREFETCH_SIZE as int) as u64,
                generation: self.generation,
            }),
    {
        if self.buffer.should_prefetch(self.position) {
            let start = self.buffer.end_pos();
            let remaining = self.total_bytes.saturating_sub(start);
            let size = if (PREFETCH_SIZE as u64) < remaining {
                PREFETCH_SIZE as u64
            } else {
                remaining
            };
            if size > 0 {
                Some(self.fetch_request(start, size))
            } else {
                None
            }
        } else {
            None
        }
    }

    /// Completing half of a read, run once the window has been
    /// resynchronized onto the cursor (or found to already hold it, or the
    /// resynchronization has legitimately ended at EOF): copy what is
    /// available at the cursor into the front of `buf`, advance the cursor,
    /// evict the consumed bytes so the window trails the cursor, and plan a
    /// prefetch if the window has now run low. Returns the byte count and
    /// the prefetch to issue, if any.
    pub fn complete_read(&mut self, buf: &mut Vec<u8>) -> (result: (usize, Option<FetchRequest>))
        requires
            old(self).wf(),
        ensures
            final(self).wf(),
            final(self).generation == old(self).generation,
            final(self).total_bytes == old(self).total_bytes,
            result.0 == if old(buf)@.len() <= old(self).buffer@.available_from(
                old(self).position as int,
            ) {
                old(buf)@.len() as int
            } else {
                old(self).buffer@.available_from(old(self).position as int)
            },
            final(buf)@.len() == old(buf)@.len(),
            forall|i: int|
                0 <= i < result.0 ==> final(buf)@[i] == old(self).buffer@.byte_at(
                    old(self).position + i,
                ),
            forall|i: int|
                result.0 <= i < final(buf)@.len() ==> final(buf)@[i] == old(buf)@[i],
            result.0 > 0 ==> {
                &&& final(self).position == old(self).position + result.0
                &&& final(self).buffer@ == old(self).buffer@.discard_model(
                    old(self).position + result.0,
                )
                &&& (result.1 is Some <==> final(self).spec_wants_prefetch())
                &&& (result.1 matches Some(req) ==> req == (FetchRequest {
                    start: final(self).buffer@.end() as u64,
                    end: final(self).spec_fetch_end(
                        final(self).buffer@.end(),
                        PREFETCH_SIZE as int,
                    ) as u64,
                    generation: old(self).generation,
                }))
            },
            result.0 == 0 ==> {
                &&& final(self).position == old(self).position
                &&& final(self).buffer@ == old(self).buffer@
                &&& result.1 is None
            },
    {
        let pos = self.position;
        let n = self.buffer.read_at(pos, buf);
        if n > 0 {
            self.buffer.discard_before(pos + n as u64);
            self.position = pos + n as u64;
            let plan = self.trigger_prefetch();
            (n, plan)
        } else {
            (n, None)
        }
    }

    /// Apply a seek: resolve the target offset (saturating at the 64-bit
    /// bounds), clamp it to the resource length, and move the cursor there.
    /// The window is then resynchronized by `begin_resync` and the bounded
    /// wait, exactly as on the read path.
    pub fn seek(&mut self, from: SeekWhence) -> (newpos: u64)
        requires
            old(self).wf(),
            (from matches SeekWhence::End(off) ==> off != i64::MIN),
            (from matches SeekWhence::Current(off) ==> off != i64::MIN),
        ensures
            final(self).wf(),
            newpos == old(self).spec_seek_target(from),
            final(self).position == newpos,
            final(self).generation == old(self).generation,
            final(self).total_bytes == old(self).total_bytes,
            final(self).buffer@ == old(self).buffer@,
    {
        let target = match from {
            SeekWhence::Start(o) => o,
            SeekWhence::End(off) => if off >= 0 {
                self.total_bytes.saturating_add(off as u64)
            } else {
                self.total_bytes.saturating_sub((-off) as u64)
            },
            SeekWhence::Current(off) => if off >= 0 {
                self.position.saturating_add(off as u64)
            } else {
                self.position.saturating_sub((-off) as u64)
            },
        };
        let newpos = if target < self.total_bytes {
            target
        } else {
            self.total_bytes
        };
        self.position = newpos;
        newpos
    }
}

/// The inclusive end offset placed in an HTTP `Range: bytes=start-end`
/// header for a fetch whose exclusive end is `end`.
pub fn range_header_end(end: u64) -> (r: u64)
    ensures
        r == if end > 0 {
            end - 1
        } else {
            0
        },
{
    end.saturating_sub(1)
}

} // verus!
