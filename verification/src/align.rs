//! Rounding a byte length up to the 8-byte boundary on which every entry of
//! the attribute certificate table starts.

use vstd::prelude::*;

verus! {

/// Alignment, in bytes, of the entries of an attribute certificate table.
pub const ALIGNMENT: usize = 8;

/// The least multiple of 8 that is not below `val`.
pub open spec fn spec_align_up_to_8(val: int) -> int {
    ((val + 7) / 8) * 8
}

/// `spec_align_up_to_8(val)` is a multiple of 8, is not below `val` and adds
/// fewer than 8 bytes.
pub proof fn lemma_align_up_bounds(val: int)
    ensures
        spec_align_up_to_8(val) % 8 == 0,
        val <= spec_align_up_to_8(val) < val + 8,
{
}

/// No multiple of 8 lies between `val` and `spec_align_up_to_8(val)`.
pub proof fn lemma_align_up_is_least_multiple(val: int, m: int)
    requires
        m % 8 == 0,
        val <= m,
    ensures
        spec_align_up_to_8(val) <= m,
{
}

/// A value that is a multiple of 8 is left as it is.
pub proof fn lemma_align_up_of_multiple(val: int)
    requires
        val % 8 == 0,
    ensures
        spec_align_up_to_8(val) == val,
{
}

/// Aligning is idempotent: an aligned value aligns to itself.
pub proof fn lemma_align_up_idempotent(val: int)
    ensures
        spec_align_up_to_8(spec_align_up_to_8(val)) == spec_align_up_to_8(val),
{
}

/// Zero stays zero, and every length within one 8-byte block rounds to the
/// end of that block: `8 * k + 1 ..= 8 * k + 8` all give `8 * k + 8`.
pub proof fn lemma_align_up_blocks(k: int, i: int)
    requires
        1 <= i <= 8,
    ensures
        spec_align_up_to_8(0) == 0,
        spec_align_up_to_8(8 * k + i) == 8 * k + 8,
{
}

/// What `align_up_to_8` returns: the aligned value where it is
/// representable, nothing where it is not.
pub open spec fn spec_checked_align_up_to_8(val: usize) -> Option<usize> {
    if spec_align_up_to_8(val as int) <= usize::MAX {
        Some(spec_align_up_to_8(val as int) as usize)
    } else {
        None
    }
}

/// Rounds `val` up to the next multiple of 8. Returns `None` if the result
/// would not fit in a `usize`.
pub fn align_up_to_8(val: usize) -> (aligned: Option<usize>)
    ensures
        aligned == spec_checked_align_up_to_8(val),
{
    let r: usize = val % ALIGNMENT;
    if r == 0 {
        Some(val)
    } else {
        let pad: usize = ALIGNMENT - r;
        val.checked_add(pad)
    }
}

/// Once `align_up_to_8` has succeeded, applying it to its own result
/// succeeds again and changes nothing.
pub proof fn lemma_checked_align_up_idempotent(val: usize)
    ensures
        spec_checked_align_up_to_8(val) matches Some(a) ==> spec_checked_align_up_to_8(a)
            == Some(a),
{
}

} // verus!
