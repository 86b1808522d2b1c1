//! The allocator: two bump segments, the cycle counter that classifies byte
//! requests, and the one-shot probe that makes the host grow the heap.
use vstd::prelude::*;

use crate::layout::{
    align_up, checked_align_up, in_segment_a, is_power_of_two, lemma_align_up,
    routes_to_segment_a, CYCLE_LEN, PROBE_SIZE, SEGMENT_A_SIZE,
};

verus! {

/// Why a request was not served.
#[derive(PartialEq, Eq, Structural, Clone, Copy, Debug)]
pub enum AllocError {
    /// The extent would pass the end of the heap, or the host is asked to grow it.
    OutOfMemory,
    /// The query is not offered by this allocator.
    Unsupported,
}

/// The abstract state of a `LabByteAllocator`.
pub struct AllocatorModel {
    /// First address of the heap, fixed by `init`.
    pub heap_start: int,
    /// One past the last address of the heap.
    pub heap_end: int,
    /// Next free byte of segment A.
    pub a_cursor: int,
    /// Allocations outstanding in segment A.
    pub a_live: nat,
    /// Next free byte of segment B.
    pub b_cursor: int,
    /// Allocations outstanding in segment B.
    pub b_live: nat,
    /// Position of the next byte request in the repeating pattern.
    pub cycle: nat,
    /// Size of the latest request seen at cycle position 0, less the probe size.
    pub probe_delta: int,
    /// Whether the deliberate first failure has been given.
    pub probe_issued: bool,
}

impl AllocatorModel {
    /// The bounds that every reachable state keeps: addresses and counts fit in a
    /// `usize`, and segment A's cursor lies within segment A.
    pub open spec fn wf(self) -> bool {
        &&& 0 <= self.heap_start
        &&& self.heap_start + SEGMENT_A_SIZE <= usize::MAX
        &&& 0 <= self.heap_end <= usize::MAX
        &&& self.heap_start <= self.a_cursor <= self.segment_a_end()
        &&& 0 <= self.b_cursor <= usize::MAX
        &&& self.a_live <= usize::MAX
        &&& self.b_live <= usize::MAX
        &&& self.cycle < CYCLE_LEN
        &&& PROBE_SIZE + self.probe_delta >= 0
        &&& PROBE_SIZE + self.probe_delta <= usize::MAX
    }

    /// One past the last byte of segment A; also the base of segment B.
    pub open spec fn segment_a_end(self) -> int {
        self.heap_start + SEGMENT_A_SIZE
    }

    pub open spec fn routes_to_a(self, size: usize, align: usize) -> bool {
        in_segment_a(self.cycle, size, align)
    }

    /// Whether a request of `size` bytes is the one refused to make the host grow the heap.
    pub open spec fn is_probe(self, size: usize) -> bool {
        self.cycle == 0 && size == PROBE_SIZE && !self.probe_issued
    }

    /// The counter stands at 0 and the latest request seen at position 0 had the
    /// probe size (or none has been seen). This holds before the first real request,
    /// and holds again whenever the counter comes back to 0 after such a request,
    /// for instance after a full cycle of byte requests that began with one.
    pub open spec fn probing_phase(self) -> bool {
        self.cycle == 0 && self.probe_delta == 0
    }

    /// The state once a request of `size` bytes has been seen: at cycle position 0
    /// its distance to the probe size is recorded.
    pub open spec fn sampled(self, size: usize) -> AllocatorModel {
        if self.cycle == 0 {
            AllocatorModel { probe_delta: size - PROBE_SIZE, ..self }
        } else {
            self
        }
    }

    /// The state after the probe has been refused.
    pub open spec fn probed(self) -> AllocatorModel {
        AllocatorModel { probe_delta: 0, probe_issued: true, ..self }
    }

    /// Where a request would be placed: its segment's cursor, aligned up.
    pub open spec fn placement(self, size: usize, align: usize) -> int {
        if self.routes_to_a(size, align) {
            align_up(self.a_cursor, align as int)
        } else {
            align_up(self.b_cursor, align as int)
        }
    }

    pub open spec fn extent_end(self, size: usize, align: usize) -> int {
        self.placement(size, align) + size
    }

    /// Whether segment B has been placed behind segment A. Until then its cursor
    /// lies in front of its base and no request is served from it.
    pub open spec fn segment_b_placed(self) -> bool {
        self.b_cursor >= self.segment_a_end()
    }

    /// Whether the request can be served: its segment is usable and its extent ends
    /// within the heap.
    pub open spec fn fits(self, size: usize, align: usize) -> bool {
        &&& self.routes_to_a(size, align) || self.segment_b_placed()
        &&& self.extent_end(size, align) <= self.heap_end
    }

    /// Whether serving the request would write segment A past its fixed end.
    pub open spec fn breaks_segment_a(self, size: usize, align: usize) -> bool {
        &&& !self.is_probe(size)
        &&& self.fits(size, align)
        &&& self.routes_to_a(size, align)
        &&& self.extent_end(size, align) > self.segment_a_end()
    }

    /// Whether the live count of the request's segment can still grow in a `usize`.
    pub open spec fn live_has_room(self, size: usize, align: usize) -> bool {
        if self.routes_to_a(size, align) {
            self.a_live < usize::MAX
        } else {
            self.b_live < usize::MAX
        }
    }

    /// Whether `allocate` may be called: the fatal cases are left out.
    pub open spec fn may_allocate(self, size: usize, align: usize) -> bool {
        !self.breaks_segment_a(size, align) && self.live_has_room(size, align)
    }

    /// The state after a request has been served.
    pub open spec fn committed(self, size: usize, align: usize) -> AllocatorModel {
        let s = self.sampled(size);
        let end = self.extent_end(size, align);
        let cycle = if align == 1 { ((self.cycle + 1) % (CYCLE_LEN as nat)) as nat } else { self.cycle };
        if self.routes_to_a(size, align) {
            AllocatorModel { a_cursor: end, a_live: self.a_live + 1, cycle, ..s }
        } else {
            AllocatorModel { b_cursor: end, b_live: self.b_live + 1, cycle, ..s }
        }
    }

    /// Whether the segment that a free of this layout credits has a live allocation.
    pub open spec fn may_free(self, size: usize, align: usize) -> bool {
        if self.routes_to_a(size, align) {
            self.a_live > 0
        } else {
            self.b_live > 0
        }
    }

    /// The state after a free: the segment, chosen by the current counter, loses one
    /// live allocation, and every segment with none left is reset to its base.
    pub open spec fn freed(self, size: usize, align: usize) -> AllocatorModel {
        let a_live = if self.routes_to_a(size, align) { (self.a_live - 1) as nat } else { self.a_live };
        let b_live = if self.routes_to_a(size, align) { self.b_live } else { (self.b_live - 1) as nat };
        AllocatorModel {
            a_live,
            b_live,
            a_cursor: if a_live == 0 { self.heap_start } else { self.a_cursor },
            b_cursor: if b_live == 0 { self.segment_a_end() } else { self.b_cursor },
            ..self
        }
    }

    pub open spec fn initialized(self, start: usize, size: usize) -> AllocatorModel {
        AllocatorModel { heap_start: start as int, heap_end: start + size, a_cursor: start as int, ..self }
    }

    /// The state after the host handed over memory up to `start + size`; in the
    /// probing phase this also places segment B behind segment A.
    pub open spec fn grown(self, start: usize, size: usize) -> AllocatorModel {
        if self.probing_phase() {
            AllocatorModel { heap_end: start + size, b_cursor: self.segment_a_end(), ..self }
        } else {
            AllocatorModel { heap_end: start + size, ..self }
        }
    }

    /// Whether `capacity` is a byte count: segment B's cursor is not past the heap's end.
    pub open spec fn capacity_defined(self) -> bool {
        self.probing_phase() || self.b_cursor <= self.heap_end
    }

    /// The capacity reported to the host: segment A's size while probing, afterwards
    /// the bytes left behind segment B's cursor.
    pub open spec fn capacity(self) -> int {
        if self.probing_phase() {
            SEGMENT_A_SIZE as int
        } else {
            self.heap_end - self.b_cursor
        }
    }
}

/// A byte allocator for one cyclic workload, with two bump segments.
pub struct LabByteAllocator {
    heap_start: usize,
    heap_end: usize,
    a_pos: usize,
    a_count: usize,
    b_pos: usize,
    b_count: usize,
    cycle: usize,
    probe_size: usize,
    probe_issued: bool,
}

impl View for LabByteAllocator {
    type V = AllocatorModel;

    closed spec fn view(&self) -> AllocatorModel {
        AllocatorModel {
            heap_start: self.heap_start as int,
            heap_end: self.heap_end as int,
            a_cursor: self.a_pos as int,
            a_live: self.a_count as nat,
            b_cursor: self.b_pos as int,
            b_live: self.b_count as nat,
            cycle: self.cycle as nat,
            probe_delta: self.probe_size - PROBE_SIZE,
            probe_issued: self.probe_issued,
        }
    }
}

impl Default for LabByteAllocator {
    fn default() -> (r: Self)
        ensures
            r@ == LabByteAllocator::empty_model(),
            r@.wf(),
    {
        Self::new()
    }
}

impl LabByteAllocator {
    /// The state of a new allocator: no heap, nothing counted, no probe yet.
    pub open spec fn empty_model() -> AllocatorModel {
        AllocatorModel {
            heap_start: 0,
            heap_end: 0,
            a_cursor: 0,
            a_live: 0,
            b_cursor: 0,
            b_live: 0,
            cycle: 0,
            probe_delta: 0,
            probe_issued: false,
        }
    }

    /// An allocator with no heap yet; `init` hands it one.
    pub fn new() -> (r: Self)
        ensures
            r@ == Self::empty_model(),
            r@.wf(),
    {
        LabByteAllocator {
            heap_start: 0,
            heap_end: 0,
            a_pos: 0,
            a_count: 0,
            b_pos: 0,
            b_count: 0,
            cycle: 0,
            probe_size: PROBE_SIZE,
            probe_issued: false,
        }
    }

    /// Serves a request of `size` bytes aligned to `align`, returning the address.
    ///
    /// The first request of the probe size at cycle position 0 is refused once, so
    /// that the host grows the heap. Otherwise the request goes to the segment that
    /// the classifier picks, at that segment's cursor aligned up, and fails with
    /// `OutOfMemory` where the extent would pass the end of the heap, or where it
    /// goes to segment B before that segment has been placed.
    pub fn allocate(&mut self, size: usize, align: usize) -> (r: Result<usize, AllocError>)
        requires
            old(self)@.wf(),
            is_power_of_two(align as nat),
            old(self)@.may_allocate(size, align),
        ensures
            final(self)@.wf(),
            old(self)@.is_probe(size) ==> {
                &&& r == Err::<usize, AllocError>(AllocError::OutOfMemory)
                &&& final(self)@ == old(self)@.probed()
            },
            !old(self)@.is_probe(size) && !old(self)@.fits(size, align) ==> {
                &&& r == Err::<usize, AllocError>(AllocError::OutOfMemory)
                &&& final(self)@ == old(self)@.sampled(size)
            },
            !old(self)@.is_probe(size) && old(self)@.fits(size, align) ==> {
                &&& r == Ok::<usize, AllocError>(old(self)@.placement(size, align) as usize)
                &&& final(self)@ == old(self)@.committed(size, align)
            },
            final(self)@.probe_issued == (old(self)@.probe_issued || old(self)@.is_probe(size)),
            r matches Ok(addr) ==> {
                &&& addr % align == 0
                &&& addr + size <= final(self)@.heap_end
                &&& final(self)@.heap_start <= addr
                &&& old(self)@.routes_to_a(size, align) ==> addr + size <= final(self)@.segment_a_end()
            },
    {
        if self.cycle == 0 {
            self.probe_size = size;
        }
        if self.cycle == 0 && self.probe_size == PROBE_SIZE && !self.probe_issued {
            self.probe_issued = true;
            return Err(AllocError::OutOfMemory);
        }
        let to_a = routes_to_segment_a(self.cycle, size, align);
        if !to_a && self.b_pos < self.heap_start + SEGMENT_A_SIZE {
            return Err(AllocError::OutOfMemory);
        }
        let pos = if to_a { self.a_pos } else { self.b_pos };
        proof {
            lemma_align_up(pos as int, align as int);
        }
        let alloc_start = match checked_align_up(pos, align) {
            Some(v) => v,
            None => return Err(AllocError::OutOfMemory),
        };
        let alloc_end = match alloc_start.checked_add(size) {
            Some(v) => v,
            None => return Err(AllocError::OutOfMemory),
        };
        if alloc_end > self.heap_end {
            return Err(AllocError::OutOfMemory);
        }
        if to_a {
            self.a_pos = alloc_end;
            self.a_count = self.a_count + 1;
        } else {
            self.b_pos = alloc_end;
            self.b_count = self.b_count + 1;
        }
        if align == 1 {
            self.cycle = (self.cycle + 1) % CYCLE_LEN;
        }
        Ok(alloc_start)
    }

    /// Frees an allocation made with this `size` and `align`. The segment to credit is
    /// chosen by the classifier with the counter as it stands now; the address is not
    /// consulted, and the caller vouches that it came from a matching `allocate`.
    pub fn deallocate(&mut self, pos: usize, size: usize, align: usize)
        requires
            old(self)@.wf(),
            old(self)@.may_free(size, align),
        ensures
            final(self)@.wf(),
            final(self)@ == old(self)@.freed(size, align),
    {
        if routes_to_segment_a(self.cycle, size, align) {
            self.a_count = self.a_count - 1;
        } else {
            self.b_count = self.b_count - 1;
        }
        if self.a_count == 0 {
            self.a_pos = self.heap_start;
        }
        if self.b_count == 0 {
            self.b_pos = self.heap_start + SEGMENT_A_SIZE;
        }
    }

    /// Takes the heap `[start, start + size)`; segment A starts at `start`.
    pub fn init(&mut self, start: usize, size: usize)
        requires
            old(self)@.wf(),
            start + size <= usize::MAX,
            start + SEGMENT_A_SIZE <= usize::MAX,
        ensures
            final(self)@.wf(),
            final(self)@ == old(self)@.initialized(start, size),
    {
        self.heap_start = start;
        self.heap_end = start + size;
        self.a_pos = start;
    }

    /// Moves the end of the heap to `start + size`. In the probing phase this also
    /// places segment B right behind segment A.
    pub fn add_memory(&mut self, start: usize, size: usize)
        requires
            old(self)@.wf(),
            start + size <= usize::MAX,
        ensures
            final(self)@.wf(),
            final(self)@ == old(self)@.grown(start, size),
            old(self)@.probing_phase() ==> final(self)@.segment_b_placed(),
    {
        self.heap_end = start + size;
        if self.cycle == 0 && self.probe_size == PROBE_SIZE {
            self.b_pos = self.heap_start + SEGMENT_A_SIZE;
        }
    }

    /// The capacity reported to the host (see `AllocatorModel::capacity`).
    pub fn total_bytes(&self) -> (r: usize)
        requires
            self@.wf(),
            self@.capacity_defined(),
        ensures
            r == self@.capacity(),
    {
        if self.cycle == 0 && self.probe_size == PROBE_SIZE {
            return SEGMENT_A_SIZE;
        }
        self.heap_end - self.b_pos
    }

    /// Bytes in use: not offered by this allocator.
    pub fn used_bytes(&self) -> (r: Result<usize, AllocError>)
        ensures
            r == Err::<usize, AllocError>(AllocError::Unsupported),
    {
        Err(AllocError::Unsupported)
    }

    /// Bytes available: not offered by this allocator.
    pub fn available_bytes(&self) -> (r: Result<usize, AllocError>)
        ensures
            r == Err::<usize, AllocError>(AllocError::Unsupported),
    {
        Err(AllocError::Unsupported)
    }

    /// Whether `allocate` may be called with this layout, rather than the request
    /// breaking segment A's fixed end or a live count's range, which is fatal.
    pub fn may_allocate(&self, size: usize, align: usize) -> (r: bool)
        requires
            self@.wf(),
            is_power_of_two(align as nat),
        ensures
            r == self@.may_allocate(size, align),
    {
        let to_a = routes_to_segment_a(self.cycle, size, align);
        let room = if to_a { self.a_count < usize::MAX } else { self.b_count < usize::MAX };
        if !room {
            return false;
        }
        if self.cycle == 0 && size == PROBE_SIZE && !self.probe_issued {
            return true;
        }
        if !to_a {
            return true;
        }
        proof {
            lemma_align_up(self.a_pos as int, align as int);
        }
        match checked_align_up(self.a_pos, align) {
            None => true,
            Some(start) => match start.checked_add(size) {
                None => true,
                Some(end) => end > self.heap_end || end <= self.heap_start + SEGMENT_A_SIZE,
            },
        }
    }

    /// Whether `deallocate` may be called with this layout: the segment it credits
    /// has a live allocation.
    pub fn may_free(&self, size: usize, align: usize) -> (r: bool)
        ensures
            r == self@.may_free(size, align),
    {
        if routes_to_segment_a(self.cycle, size, align) {
            self.a_count > 0
        } else {
            self.b_count > 0
        }
    }

    /// Whether `total_bytes` is defined: segment B's cursor is not past the heap's end.
    pub fn capacity_defined(&self) -> (r: bool)
        ensures
            r == self@.capacity_defined(),
    {
        (self.cycle == 0 && self.probe_size == PROBE_SIZE) || self.b_pos <= self.heap_end
    }

    pub fn heap_start(&self) -> (r: usize)
        ensures
            r == self@.heap_start,
    {
        self.heap_start
    }

    pub fn heap_end(&self) -> (r: usize)
        ensures
            r == self@.heap_end,
    {
        self.heap_end
    }

    pub fn segment_a_cursor(&self) -> (r: usize)
        ensures
            r == self@.a_cursor,
    {
        self.a_pos
    }

    pub fn segment_a_live(&self) -> (r: usize)
        ensures
            r == self@.a_live,
    {
        self.a_count
    }

    pub fn segment_b_cursor(&self) -> (r: usize)
        ensures
            r == self@.b_cursor,
    {
        self.b_pos
    }

    pub fn segment_b_live(&self) -> (r: usize)
        ensures
            r == self@.b_live,
    {
        self.b_count
    }

    pub fn cycle_counter(&self) -> (r: usize)
        ensures
            r == self@.cycle,
    {
        self.cycle
    }

    pub fn probe_issued(&self) -> (r: bool)
        ensures
            r == self@.probe_issued,
    {
        self.probe_issued
    }
}

} // verus!
