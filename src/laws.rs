//! Properties of whole workloads, stated over the allocator's model.
//!
//! A workload step is `(true, size, align)` for an allocation that was served and
//! `(false, size, align)` for a free of that layout; these are the transitions that
//! `LabByteAllocator::allocate` and `LabByteAllocator::deallocate` promise.
use vstd::prelude::*;

use crate::allocator::AllocatorModel;
use crate::layout::CYCLE_LEN;

verus! {

pub open spec fn step(s: AllocatorModel, op: (bool, usize, usize)) -> AllocatorModel {
    if op.0 {
        s.committed(op.1, op.2)
    } else {
        s.freed(op.1, op.2)
    }
}

/// The state after the steps `ops`, in order, starting from `s`.
pub open spec fn run(s: AllocatorModel, ops: Seq<(bool, usize, usize)>) -> AllocatorModel
    decreases ops.len(),
{
    if ops.len() == 0 {
        s
    } else {
        step(run(s, ops.drop_last()), ops.last())
    }
}

/// What the last step does to a live count: +1 for an allocation in the segment,
/// -1 for a free credited to it, as routed in the state that the step meets.
pub open spec fn last_change(s: AllocatorModel, ops: Seq<(bool, usize, usize)>, in_a: bool) -> int
    recommends
        ops.len() > 0,
{
    let op = ops.last();
    if run(s, ops.drop_last()).routes_to_a(op.1, op.2) == in_a {
        if op.0 {
            1
        } else {
            -1
        }
    } else {
        0
    }
}

/// Allocations minus frees that the steps `ops` route to segment A (`in_a`) or B.
pub open spec fn net(s: AllocatorModel, ops: Seq<(bool, usize, usize)>, in_a: bool) -> int
    decreases ops.len(),
{
    if ops.len() == 0 {
        0
    } else {
        net(s, ops.drop_last(), in_a) + last_change(s, ops, in_a)
    }
}

/// At no point of the workload has a segment been credited more frees than allocations.
pub open spec fn never_overdrawn(s: AllocatorModel, ops: Seq<(bool, usize, usize)>) -> bool
    decreases ops.len(),
{
    ops.len() == 0 || {
        &&& never_overdrawn(s, ops.drop_last())
        &&& net(s, ops, true) >= 0
        &&& net(s, ops, false) >= 0
    }
}

/// Every allocation of the workload is freed, with its own layout, in its own segment.
pub open spec fn balanced(s: AllocatorModel, ops: Seq<(bool, usize, usize)>) -> bool {
    &&& never_overdrawn(s, ops)
    &&& net(s, ops, true) == 0
    &&& net(s, ops, false) == 0
}

/// Number of served allocations of alignment 1 among `ops`.
pub open spec fn byte_allocations(ops: Seq<(bool, usize, usize)>) -> nat
    decreases ops.len(),
{
    if ops.len() == 0 {
        0
    } else {
        byte_allocations(ops.drop_last()) + if ops.last().0 && ops.last().2 == 1 {
            1nat
        } else {
            0nat
        }
    }
}

proof fn lemma_run_counts(s: AllocatorModel, ops: Seq<(bool, usize, usize)>)
    requires
        s.a_live == 0,
        s.b_live == 0,
        s.a_cursor == s.heap_start,
        s.b_cursor == s.segment_a_end(),
        never_overdrawn(s, ops),
    ensures
        run(s, ops).heap_start == s.heap_start,
        run(s, ops).a_live == net(s, ops, true),
        run(s, ops).b_live == net(s, ops, false),
        run(s, ops).a_live == 0 ==> run(s, ops).a_cursor == s.heap_start,
        run(s, ops).b_live == 0 ==> run(s, ops).b_cursor == s.segment_a_end(),
    decreases ops.len(),
{
    if ops.len() > 0 {
        lemma_run_counts(s, ops.drop_last());
    }
}

/// A workload that is balanced per segment, started with both segments empty and
/// at their bases, leaves both live counts at 0 and both cursors at their bases.
pub proof fn lemma_balanced_run_reclaims(s: AllocatorModel, ops: Seq<(bool, usize, usize)>)
    requires
        s.a_live == 0,
        s.b_live == 0,
        s.a_cursor == s.heap_start,
        s.b_cursor == s.segment_a_end(),
        balanced(s, ops),
    ensures
        run(s, ops).a_live == 0,
        run(s, ops).b_live == 0,
        run(s, ops).a_cursor == s.heap_start,
        run(s, ops).b_cursor == s.segment_a_end(),
{
    lemma_run_counts(s, ops);
}

/// The cycle counter equals the number of byte-granularity allocations served so
/// far, modulo the cycle length; frees never move it.
pub proof fn lemma_cycle_counts_byte_allocations(s: AllocatorModel, ops: Seq<(bool, usize, usize)>)
    requires
        s.cycle < CYCLE_LEN,
    ensures
        run(s, ops).cycle == (s.cycle + byte_allocations(ops)) % (CYCLE_LEN as nat),
    decreases ops.len(),
{
    if ops.len() == 0 {
        vstd::arithmetic::div_mod::lemma_small_mod(s.cycle, CYCLE_LEN as nat);
    } else {
        let p = ops.drop_last();
        lemma_cycle_counts_byte_allocations(s, p);
        if ops.last().0 && ops.last().2 == 1 {
            vstd::arithmetic::div_mod::lemma_add_mod_noop(
                (s.cycle + byte_allocations(p)) as int,
                1,
                CYCLE_LEN as int,
            );
            vstd::arithmetic::div_mod::lemma_small_mod(1, CYCLE_LEN as nat);
        }
    }
}

/// A request served into segment A never ends past segment A's fixed end. The
/// requests that `allocate` leaves out as fatal are exactly those that would.
pub proof fn lemma_segment_a_commits_stay_inside(s: AllocatorModel, size: usize, align: usize)
    requires
        s.wf(),
        s.routes_to_a(size, align),
        !s.is_probe(size),
        s.fits(size, align),
    ensures
        !s.breaks_segment_a(size, align) <==> s.extent_end(size, align) <= s.segment_a_end(),
        !s.breaks_segment_a(size, align) ==> {
            &&& s.committed(size, align).a_cursor <= s.segment_a_end()
            &&& s.committed(size, align).segment_a_end() == s.segment_a_end()
        },
{
}

/// The probe is refused at most once: after it, the mark stays set through every
/// transition, and no request is taken for the probe again.
pub proof fn lemma_probe_refused_once(
    s: AllocatorModel,
    size: usize,
    start: usize,
    grow_size: usize,
)
    requires
        s.is_probe(size),
    ensures
        s.probed().probe_issued,
        !s.probed().sampled(size).is_probe(size),
        !s.probed().grown(start, grow_size).is_probe(size),
        forall|t: AllocatorModel, n: usize, a: usize|
            t.probe_issued ==> {
                &&& !t.is_probe(n)
                &&& t.sampled(n).probe_issued
                &&& t.committed(n, a).probe_issued
                &&& t.freed(n, a).probe_issued
                &&& t.grown(start, grow_size).probe_issued
                &&& t.initialized(start, grow_size).probe_issued
            },
{
}

} // verus!
