//! The fixed partition of the heap and the rule that routes a request to a segment.
use vstd::prelude::*;

verus! {

/// Bytes reserved at the front of the heap for the workload's fixed-size records
/// and its even-position byte requests.
pub const SEGMENT_A_SIZE: usize = 704932;

/// Sizes of the workload's recurring records, which always go to segment A.
pub const RECORD_SIZE_LARGE: usize = 384;

pub const RECORD_SIZE_MEDIUM: usize = 192;

pub const RECORD_SIZE_SMALL: usize = 96;

/// Alignment that the recurring records are requested with.
pub const RECORD_ALIGN: usize = 8;

/// Length of the repeating pattern of byte-granularity requests.
pub const CYCLE_LEN: usize = 15;

/// Size of the request that the host issues first; it is refused once on purpose.
pub const PROBE_SIZE: usize = 32;

pub open spec fn is_power_of_two(a: nat) -> bool
    decreases a,
{
    if a <= 1 {
        a == 1
    } else {
        a % 2 == 0 && is_power_of_two(a / 2)
    }
}

pub open spec fn is_record_size(size: usize) -> bool {
    size == RECORD_SIZE_LARGE || size == RECORD_SIZE_MEDIUM || size == RECORD_SIZE_SMALL
}

/// Whether a request of `size` bytes aligned to `align` belongs to segment A
/// when the cycle counter stands at `cycle`.
pub open spec fn in_segment_a(cycle: nat, size: usize, align: usize) -> bool {
    (is_record_size(size) && align == RECORD_ALIGN) || (cycle % 2 == 0 && align == 1)
}

/// The least multiple of `align` that is at least `pos`.
pub open spec fn align_up(pos: int, align: int) -> int
    recommends
        align > 0,
{
    if pos % align == 0 {
        pos
    } else {
        pos + (align - pos % align)
    }
}

pub proof fn lemma_align_up(pos: int, align: int)
    requires
        pos >= 0,
        align > 0,
    ensures
        pos <= align_up(pos, align) < pos + align,
        align_up(pos, align) % align == 0,
{
    if pos % align != 0 {
        assert((pos + (align - pos % align)) % align == 0) by (nonlinear_arith)
            requires
                align > 0,
                pos >= 0,
        {
            vstd::arithmetic::div_mod::lemma_fundamental_div_mod(pos, align);
            vstd::arithmetic::div_mod::lemma_mod_multiples_basic(pos / align + 1, align);
        }
    }
}

pub fn is_record(size: usize) -> (r: bool)
    ensures
        r == is_record_size(size),
{
    size == RECORD_SIZE_LARGE || size == RECORD_SIZE_MEDIUM || size == RECORD_SIZE_SMALL
}

/// Routes a request: `true` for segment A, `false` for segment B.
pub fn routes_to_segment_a(cycle: usize, size: usize, align: usize) -> (r: bool)
    ensures
        r == in_segment_a(cycle as nat, size, align),
{
    (is_record(size) && align == RECORD_ALIGN) || (cycle % 2 == 0 && align == 1)
}

/// `align_up(pos, align)`, or `None` where that does not fit in a `usize`.
pub fn checked_align_up(pos: usize, align: usize) -> (r: Option<usize>)
    requires
        align > 0,
    ensures
        match r {
            Some(v) => v == align_up(pos as int, align as int),
            None => align_up(pos as int, align as int) > usize::MAX,
        },
{
    let rem = pos % align;
    if rem == 0 {
        Some(pos)
    } else {
        pos.checked_add(align - rem)
    }
}

} // verus!
