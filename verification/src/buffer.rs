//! Sliding byte-buffer window over one remote resource.
//!
//! The window caches a single contiguous run of bytes, tracks the one
//! outstanding fetch range, evicts from the front when the capacity is
//! exceeded, and remembers whether the cached run has reached the end of the
//! resource.

use std::collections::VecDeque;
use vstd::prelude::*;

verus! {

/// Capacity of the sliding window, in bytes (16 MiB).
pub const BUFFER_SIZE: usize = 16 * 1024 * 1024;

/// Remaining-buffered-bytes threshold below which a background prefetch is
/// issued ahead of the read cursor (256 KiB).
pub const PREFETCH_TRIGGER: usize = 256 * 1024;

/// Mathematical model of the window: the cached bytes, the absolute offset of
/// the first cached byte, the resource length, the end-of-file flag, the
/// outstanding fetch range, and the high-water bookkeeping used for display.
#[verifier::ext_equal]
pub ghost struct BufferModel {
    /// The cached contiguous run of bytes, `window[i]` sitting at absolute
    /// offset `start + i`.
    pub window: Seq<u8>,
    /// Absolute byte offset of the first cached byte.
    pub start: int,
    /// Length of the whole remote resource.
    pub total: int,
    /// True once an appended range has reached `total`.
    pub eof: bool,
    /// The at-most-one outstanding fetch range `(start, end)`.
    pub pending: Option<(int, int)>,
    /// Largest window end reached while buffering forward from `base`.
    pub high_water: int,
    /// Offset from which the current forward buffering run began.
    pub base: int,
}

impl BufferModel {
    /// Absolute offset one past the last cached byte.
    pub open spec fn end(self) -> int {
        self.start + self.window.len()
    }

    /// Well-formedness: the window respects the capacity and its offsets fit
    /// in the 64-bit offset space.
    pub open spec fn wf(self) -> bool {
        &&& self.window.len() <= BUFFER_SIZE
        &&& 0 <= self.start
        &&& self.end() <= u64::MAX
    }

    /// Whether the byte at absolute offset `pos` is cached.
    pub open spec fn contains(self, pos: int) -> bool {
        self.start <= pos < self.end()
    }

    /// How many bytes are readable starting at `pos` without a new fetch.
    pub open spec fn available_from(self, pos: int) -> int {
        if self.contains(pos) {
            self.end() - pos
        } else {
            0
        }
    }

    /// The byte cached at absolute offset `pos`, for `pos` inside the window.
    pub open spec fn byte_at(self, pos: int) -> u8 {
        self.window[pos - self.start]
    }

    /// A prefetch is wanted when the resource end is not cached, no fetch is
    /// outstanding, and fewer than `PREFETCH_TRIGGER` bytes remain at `pos`.
    pub open spec fn should_prefetch(self, pos: int) -> bool {
        &&& !self.eof
        &&& self.pending is None
        &&& self.available_from(pos) < PREFETCH_TRIGGER
    }

    /// The freshly constructed window for a resource of `total` bytes.
    pub open spec fn initial(total: int) -> Self {
        BufferModel {
            window: Seq::empty(),
            start: 0,
            total: total,
            eof: false,
            pending: None,
            high_water: 0,
            base: 0,
        }
    }

    /// An append whose offset falls inside the pending range retires that
    /// pending marker.
    pub open spec fn with_pending_retired(self, start: int) -> Self {
        if self.pending matches Some(p) && p.0 <= start < p.1 {
            BufferModel { pending: None, ..self }
        } else {
            self
        }
    }

    /// Whether `append` accepts data: the input is non-empty, does not lie
    /// before the window, and meets an empty window only at its start.
    pub open spec fn append_accepts(self, new: Seq<u8>, start: int) -> bool {
        &&& new.len() > 0
        &&& start >= self.start
        &&& !(self.window.len() == 0 && start != self.start)
    }

    /// A non-empty window met at an offset other than its end is discarded
    /// and the window restarts at `start` (the newest data is trusted).
    pub open spec fn rebased_for(self, start: int) -> Self {
        if self.window.len() == 0 || start == self.end() {
            self
        } else {
            BufferModel { window: Seq::empty(), start: start, eof: false, ..self }
        }
    }

    /// Front eviction making room for `extra` incoming bytes.
    pub open spec fn evicted_for(self, extra: int) -> Self {
        let over = self.window.len() + extra - BUFFER_SIZE;
        if over > 0 {
            BufferModel { window: self.window.skip(over), start: self.start + over, ..self }
        } else {
            self
        }
    }

    /// High-water update: when the window still extends the forward buffering
    /// run that began at `base`, record the farthest end reached.
    pub open spec fn with_high_water_raised(self) -> Self {
        if self.base <= self.start <= self.high_water + 1 && self.end() > self.high_water {
            BufferModel { high_water: self.end(), ..self }
        } else {
            self
        }
    }

    /// The window state after `append(new, start)`, accepted or not.
    pub open spec fn append_model(self, new: Seq<u8>, start: int) -> Self {
        if new.len() == 0 {
            self
        } else {
            let retired = self.with_pending_retired(start);
            if !self.append_accepts(new, start) {
                retired
            } else {
                let room = retired.rebased_for(start).evicted_for(new.len() as int);
                let grown = BufferModel {
                    eof: room.eof || start + new.len() >= self.total,
                    window: room.window + new,
                    ..room
                };
                grown.with_high_water_raised()
            }
        }
    }

    /// The window state after `clear(start)`: empty, rebased, nothing pending.
    pub open spec fn clear_model(self, start: int) -> Self {
        let reanchored = start <= self.high_water;
        BufferModel {
            window: Seq::empty(),
            start: start,
            pending: None,
            eof: false,
            base: if reanchored { start } else { self.base },
            high_water: if reanchored { start } else { self.high_water },
            ..self
        }
    }

    /// The window state after `discard_before(pos)`: bytes strictly before
    /// `pos` are evicted, up to the whole window.
    pub open spec fn discard_model(self, pos: int) -> Self {
        if pos <= self.start {
            self
        } else {
            let dropped = if pos - self.start < self.window.len() {
                pos - self.start
            } else {
                self.window.len() as int
            };
            if dropped == 0 {
                self
            } else {
                let shrunk = BufferModel {
                    window: self.window.skip(dropped),
                    start: self.start + dropped,
                    ..self
                };
                shrunk.with_high_water_raised_after_discard()
            }
        }
    }

    /// High-water update after a discard: the end does not move, but earlier
    /// seeks may have lowered the marker below it.
    pub open spec fn with_high_water_raised_after_discard(self) -> Self {
        if self.end() > self.high_water {
            BufferModel { high_water: self.end(), ..self }
        } else {
            self
        }
    }
}

/// Window contiguity, rebase half: an accepted append that meets a non-empty
/// window at an offset other than its end discards all prior data; the window
/// afterwards is exactly the new bytes, starting at the append offset.
pub proof fn lemma_append_non_adjacent_discards(m: BufferModel, new: Seq<u8>, start: int)
    requires
        m.wf(),
        new.len() <= BUFFER_SIZE,
        m.append_accepts(new, start),
        m.window.len() > 0,
        start != m.end(),
    ensures
        m.append_model(new, start).start == start,
        m.append_model(new, start).window == new,
{
    assert(m.append_model(new, start).window =~= new);
}

/// Window contiguity, extension half: an accepted append that meets the
/// window exactly at its end keeps the surviving cached bytes and places the
/// new bytes directly after them, one contiguous run.
pub proof fn lemma_append_adjacent_extends(m: BufferModel, new: Seq<u8>, start: int)
    requires
        m.wf(),
        new.len() <= BUFFER_SIZE,
        m.append_accepts(new, start),
        m.window.len() == 0 || start == m.end(),
    ensures
        ({
            let over = if m.window.len() + new.len() > BUFFER_SIZE {
                m.window.len() + new.len() - BUFFER_SIZE
            } else {
                0
            };
            let m2 = m.append_model(new, start);
            m2.window == m.window.skip(over) + new && m2.start == m.start + over
        }),
{
    let over = if m.window.len() + new.len() > BUFFER_SIZE {
        m.window.len() + new.len() - BUFFER_SIZE
    } else {
        0int
    };
    let m2 = m.append_model(new, start);
    assert(m2.window =~= m.window.skip(over) + new);
}

/// Capacity bound: an append, accepted or not, keeps the window within
/// `BUFFER_SIZE` bytes, preserves well-formedness, and never moves the window
/// start backwards. Applied step by step, this covers any sequence of
/// appends.
pub proof fn lemma_append_capacity_and_monotone(m: BufferModel, new: Seq<u8>, start: int)
    requires
        m.wf(),
        new.len() <= BUFFER_SIZE,
        start + new.len() <= u64::MAX,
    ensures
        m.append_model(new, start).wf(),
        m.append_model(new, start).window.len() <= BUFFER_SIZE,
        m.append_model(new, start).start >= m.start,
{
}

/// Read exactness, round trip: after an accepted append the appended bytes
/// sit at the window's tail, every one of them is available from the append
/// offset, and each reads back unchanged. Together with `read_at`'s own
/// contract (at most `available_from(pos)` bytes, each equal to
/// `byte_at(pos + i)`), a read at the append offset returns exactly the bytes
/// appended.
pub proof fn lemma_append_read_round_trip(m: BufferModel, new: Seq<u8>, start: int)
    requires
        m.wf(),
        new.len() <= BUFFER_SIZE,
        start + new.len() <= u64::MAX,
        m.append_accepts(new, start),
    ensures
        ({
            let m2 = m.append_model(new, start);
            &&& m2.end() == start + new.len()
            &&& m2.available_from(start) == new.len()
            &&& forall|i: int| 0 <= i < new.len() ==> m2.byte_at(start + i) == new[i]
        }),
{
    let m2 = m.append_model(new, start);
    assert forall|i: int| 0 <= i < new.len() implies m2.byte_at(start + i) == new[i] by {
        assert(start + i - m2.start >= m2.window.len() - new.len());
    }
}

/// EOF trigger: an accepted append whose range reaches the resource length
/// leaves the end-of-file flag set.
pub proof fn lemma_append_reaching_total_sets_eof(m: BufferModel, new: Seq<u8>, start: int)
    requires
        m.wf(),
        new.len() <= BUFFER_SIZE,
        m.append_accepts(new, start),
        start + new.len() >= m.total,
    ensures
        m.append_model(new, start).eof,
{
}

/// EOF persistence: once set, the end-of-file flag survives every append
/// except one that rebases the window to a new offset (which restarts
/// buffering elsewhere and re-evaluates EOF from the new range).
pub proof fn lemma_eof_persists_without_rebase(m: BufferModel, new: Seq<u8>, start: int)
    requires
        m.eof,
        m.window.len() == 0 || start == m.end() || !m.append_accepts(new, start),
    ensures
        m.append_model(new, start).eof,
{
}

/// At EOF no prefetch is wanted, whatever the cursor position.
pub proof fn lemma_no_prefetch_at_eof(m: BufferModel, pos: int)
    requires
        m.eof,
    ensures
        !m.should_prefetch(pos),
{
}

/// An in-memory sliding cache of bytes downloaded from one remote resource:
/// a single contiguous run, capacity-bounded eviction, and in-flight-fetch
/// bookkeeping. Pure data structure, no I/O.
pub struct BufferState {
    /// The cached contiguous run, ordered by byte offset.
    pub data: VecDeque<u8>,
    /// Absolute byte offset of the first cached byte.
    pub start_pos: u64,
    /// Resource length, known up front from a metadata probe.
    pub total_bytes: u64,
    /// True once the cached window's end has reached `total_bytes`.
    pub eof: bool,
    /// At most one outstanding `(start, end)` fetch range.
    pub pending: Option<(u64, u64)>,
    /// Largest window end reached while buffering forward.
    pub max_buffered_from_start: u64,
    /// Offset from which the current forward buffering run began.
    pub buffering_base: u64,
}

impl View for BufferState {
    type V = BufferModel;

    open spec fn view(&self) -> BufferModel {
        BufferModel {
            window: self.data@,
            start: self.start_pos as int,
            total: self.total_bytes as int,
            eof: self.eof,
            pending: match self.pending {
                Some(p) => Some((p.0 as int, p.1 as int)),
                None => None,
            },
            high_water: self.max_buffered_from_start as int,
            base: self.buffering_base as int,
        }
    }
}

impl BufferState {
    /// A fresh, empty window for a resource of `total_bytes` bytes.
    pub fn new(total_bytes: u64) -> (r: Self)
        ensures
            r@ == BufferModel::initial(total_bytes as int),
    {
        let r = BufferState {
            data: VecDeque::with_capacity(BUFFER_SIZE),
            start_pos: 0,
            total_bytes: total_bytes,
            eof: false,
            pending: None,
            max_buffered_from_start: 0,
            buffering_base: 0,
        };
        proof {
            assert(r@ =~= BufferModel::initial(total_bytes as int));
        }
        r
    }

    /// True iff the byte at absolute offset `pos` is cached.
    pub fn contains(&self, pos: u64) -> (r: bool)
        requires
            self@.wf(),
        ensures
            r == self@.contains(pos as int),
    {
        pos >= self.start_pos && pos < self.start_pos + self.data.len() as u64
    }

    /// Bytes immediately readable starting at `pos` without a new fetch;
    /// 0 if `pos` is not cached.
    pub fn available_from(&self, pos: u64) -> (r: usize)
        requires
            self@.wf(),
        ensures
            r == self@.available_from(pos as int),
    {
        if !self.contains(pos) {
            return 0;
        }
        let off = (pos - self.start_pos) as usize;
        self.data.len() - off
    }

    /// Absolute offset one past the last cached byte.
    pub fn end_pos(&self) -> (r: u64)
        requires
            self@.wf(),
        ensures
            r == self@.end(),
    {
        self.start_pos + self.data.len() as u64
    }

    /// The high-water marker of the current forward buffering run.
    pub fn max_buffered_from_start(&self) -> (r: u64)
        ensures
            r == self@.high_water,
    {
        self.max_buffered_from_start
    }

    /// True once the cached window's end has reached the resource length.
    pub fn is_eof(&self) -> (r: bool)
        ensures
            r == self@.eof,
    {
        self.eof
    }

    /// True when a prefetch ahead of `pos` should be issued: not at EOF, no
    /// fetch outstanding, and fewer than `PREFETCH_TRIGGER` bytes remain.
    pub fn should_prefetch(&self, pos: u64) -> (r: bool)
        requires
            self@.wf(),
        ensures
            r == self@.should_prefetch(pos as int),
    {
        !self.eof && self.pending.is_none() && self.available_from(pos) < PREFETCH_TRIGGER
    }

    /// Copy `min(buf.len(), available_from(pos))` cached bytes starting at
    /// `pos` into the front of `buf`, leaving the rest of `buf` unchanged.
    /// The caller issues a fetch first if this returns less than requested.
    #[verifier::loop_isolation(false)]
    pub fn read_at(&mut self, pos: u64, buf: &mut Vec<u8>) -> (n: usize)
        requires
            old(self)@.wf(),
        ensures
            final(self)@ == old(self)@,
            n == if old(buf)@.len() <= old(self)@.available_from(pos as int) {
                old(buf)@.len() as int
            } else {
                old(self)@.available_from(pos as int)
            },
            final(buf)@.len() == old(buf)@.len(),
            forall|i: int| 0 <= i < n ==> final(buf)@[i] == old(self)@.byte_at(pos + i),
            forall|i: int| n <= i < final(buf)@.len() ==> final(buf)@[i] == old(buf)@[i],
    {
        let avail = self.available_from(pos);
        let len = if buf.len() < avail {
            buf.len()
        } else {
            avail
        };
        if len == 0 {
            return 0;
        }
        let off = (pos - self.start_pos) as usize;
        let ghost buf0 = buf@;
        let mut i: usize = 0;
        while i < len
            invariant
                i <= len,
                buf@.len() == buf0.len(),
                forall|j: int| 0 <= j < i ==> buf@[j] == self@.byte_at(pos + j),
                forall|j: int| i <= j < buf@.len() ==> buf@[j] == buf0[j],
            decreases len - i,
        {
            buf[i] = self.data[off + i];
            i = i + 1;
        }
        len
    }

    /// Evict `count` bytes from the front of the window, advancing its
    /// start.
    #[verifier::loop_isolation(false)]
    fn evict_front(&mut self, count: usize)
        requires
            old(self)@.wf(),
            count <= old(self)@.window.len(),
        ensures
            final(self)@ == (BufferModel {
                window: old(self)@.window.skip(count as int),
                start: old(self)@.start + count,
                ..old(self)@
            }),
    {
        let ghost window0 = self.data@;
        let mut k: usize = 0;
        while k < count
            invariant
                k <= count,
                count <= window0.len(),
                self@ == (BufferModel { window: window0.skip(k as int), ..old(self)@ }),
            decreases count - k,
        {
            self.data.pop_front();
            k = k + 1;
        }
        self.start_pos = self.start_pos + count as u64;
        proof {
            assert(self@ =~= (BufferModel {
                window: old(self)@.window.skip(count as int),
                start: old(self)@.start + count,
                ..old(self)@
            }));
        }
    }

    /// Push all of `new` onto the back of the window.
    #[verifier::loop_isolation(false)]
    fn push_bytes(&mut self, new: &[u8])
        requires
            old(self)@.window.len() + new@.len() <= BUFFER_SIZE,
        ensures
            final(self)@ == (BufferModel {
                window: old(self)@.window + new@,
                ..old(self)@
            }),
    {
        let ghost window0 = self.data@;
        let mut j: usize = 0;
        while j < new.len()
            invariant
                j <= new@.len(),
                self@ == (BufferModel { window: window0 + new@.take(j as int), ..old(self)@ }),
            decreases new@.len() - j,
        {
            self.data.push_back(new[j]);
            j = j + 1;
        }
        proof {
            assert(self@ =~= (BufferModel { window: old(self)@.window + new@, ..old(self)@ }));
        }
    }

    /// Accept fetched bytes at absolute offset `start`. Data landing before
    /// the window, or meeting an empty window away from its start, is
    /// rejected; data meeting a non-empty window away from its end rebases
    /// the window there (trust the newest data). Capacity eviction runs from
    /// the front, EOF is marked when the appended range reaches the resource
    /// length, and a pending marker covering `start` is retired.
    #[verifier::loop_isolation(false)]
    pub fn append(&mut self, new: &[u8], start: u64) -> (accepted: bool)
        requires
            old(self)@.wf(),
            new@.len() <= BUFFER_SIZE,
            start + new@.len() <= u64::MAX,
        ensures
            accepted == old(self)@.append_accepts(new@, start as int),
            final(self)@ == old(self)@.append_model(new@, start as int),
            final(self)@.wf(),
    {
        if new.len() == 0 {
            return false;
        }

        match self.pending {
            Some(p) => {
                if start >= p.0 && start < p.1 {
                    self.pending = None;
                }
            },
            None => {},
        }
        let ghost retired = old(self)@.with_pending_retired(start as int);
        proof {
            assert(self@ =~= retired);
        }

        if start < self.start_pos {
            return false;
        }

        if self.data.len() == 0 {
            if start != self.start_pos {
                return false;
            }
        } else {
            let exp_end = self.start_pos + self.data.len() as u64;
            if start != exp_end {
                self.data.clear();
                self.start_pos = start;
                self.eof = false;
            }
        }
        let ghost rebased = retired.rebased_for(start as int);
        proof {
            assert(self@ =~= rebased);
        }

        let overflow = (self.data.len() + new.len()).saturating_sub(BUFFER_SIZE);
        if overflow > 0 {
            self.evict_front(overflow);
        }
        let ghost evicted = rebased.evicted_for(new@.len() as int);
        proof {
            assert(self@ =~= evicted);
        }

        if start + new.len() as u64 >= self.total_bytes {
            self.eof = true;
        }

        self.push_bytes(new);
        let ghost grown = (BufferModel {
            eof: evicted.eof || start as int + new@.len() >= old(self)@.total,
            window: evicted.window + new@,
            ..evicted
        });
        proof {
            assert(self@ =~= grown);
        }

        let new_end = self.start_pos + self.data.len() as u64;
        if self.start_pos >= self.buffering_base
            && (self.start_pos == 0 || self.start_pos - 1 <= self.max_buffered_from_start)
        {
            if new_end > self.max_buffered_from_start {
                self.max_buffered_from_start = new_end;
            }
        }
        proof {
            assert(self@ =~= old(self)@.append_model(new@, start as int));
        }

        true
    }

    /// Drop all cached bytes and restart the window at `start`; used on every
    /// seek.
    pub fn clear(&mut self, start: u64)
        ensures
            final(self)@ == old(self)@.clear_model(start as int),
            final(self)@.wf(),
    {
        self.data.clear();
        self.start_pos = start;
        self.pending = None;
        self.eof = false;
        if start <= self.max_buffered_from_start {
            self.buffering_base = start;
            self.max_buffered_from_start = start;
        }
        proof {
            assert(self@ =~= old(self)@.clear_model(start as int));
        }
    }

    /// Evict cached bytes strictly before `pos`, so the window trails the
    /// read cursor instead of retaining already-consumed data.
    #[verifier::loop_isolation(false)]
    pub fn discard_before(&mut self, pos: u64)
        requires
            old(self)@.wf(),
        ensures
            final(self)@ == old(self)@.discard_model(pos as int),
            final(self)@.wf(),
    {
        if pos <= self.start_pos {
            return;
        }
        let diff = pos - self.start_pos;
        let drop_n = if diff < self.data.len() as u64 {
            diff as usize
        } else {
            self.data.len()
        };
        if drop_n == 0 {
            return;
        }
        let ghost window0 = self.data@;
        let mut k: usize = 0;
        while k < drop_n
            invariant
                k <= drop_n,
                drop_n <= window0.len(),
                self@ == (BufferModel { window: window0.skip(k as int), ..old(self)@ }),
            decreases drop_n - k,
        {
            self.data.pop_front();
            k = k + 1;
        }
        self.start_pos = self.start_pos + drop_n as u64;
        let current_end = self.start_pos + self.data.len() as u64;
        if current_end > self.max_buffered_from_start {
            self.max_buffered_from_start = current_end;
        }
        proof {
            assert(self@ =~= old(self)@.discard_model(pos as int));
        }
    }

    /// Record the one in-flight fetch range.
    pub fn mark_pending(&mut self, start: u64, end: u64)
        ensures
            final(self)@ == (BufferModel {
                pending: Some((start as int, end as int)),
                ..old(self)@
            }),
    {
        self.pending = Some((start, end));
    }

    /// Retire the in-flight fetch range.
    pub fn clear_pending(&mut self)
        ensures
            final(self)@ == (BufferModel { pending: None, ..old(self)@ }),
    {
        self.pending = None;
    }
}

} // verus!
