//! Exact predicates on IEEE-754 double-precision bit patterns.
//!
//! The engine stores every numeric entry as the `u64` bit pattern of a
//! double. The encoding is monotone in the magnitude for non-NaN values:
//! clearing the sign bit yields an unsigned integer that orders magnitudes,
//! the exponent field all ones with a zero mantissa is infinity, and any
//! larger magnitude field is a NaN. That makes the guards the engine needs --
//! "is this entry NaN", "does this bias exceed machine epsilon", "is this
//! regularization factor positive" -- exact integer comparisons, which are
//! stated here once as spec functions and proved of the executable tests.

use vstd::prelude::*;

verus! {

/// Mask of every bit but the sign bit.
pub const ABS_MASK: u64 = 0x7fff_ffff_ffff_ffff;

/// The sign bit.
pub const SIGN_MASK: u64 = 0x8000_0000_0000_0000;

/// Magnitude field of positive infinity: exponent all ones, mantissa zero.
/// A magnitude above this is a NaN.
pub const INF_BITS: u64 = 0x7ff0_0000_0000_0000;

/// Bit pattern of machine epsilon for doubles, 2^-52.
pub const EPSILON_BITS: u64 = 0x3cb0_0000_0000_0000;

/// A quiet NaN: the pattern used where the engine stores "not a number"
/// deliberately (for example the regularizers of a model restored from
/// plain coefficient values, which were never fitted).
pub const QUIET_NAN_BITS: u64 = 0x7ff8_0000_0000_0000;

/// The magnitude field of a double: its bit pattern with the sign cleared.
pub open spec fn abs_bits(b: u64) -> u64 {
    b & ABS_MASK
}

/// The double with bit pattern `b` is a NaN.
pub open spec fn is_nan_bits(b: u64) -> bool {
    abs_bits(b) > INF_BITS
}

/// The double with bit pattern `b` satisfies `|x| > epsilon`.
/// False for NaN, true for infinities.
pub open spec fn abs_gt_epsilon_bits(b: u64) -> bool {
    EPSILON_BITS < abs_bits(b) <= INF_BITS
}

/// The double with bit pattern `b` satisfies `x > 0`.
/// The sign bit is clear, the magnitude is non-zero and not a NaN.
pub open spec fn is_gt_zero_bits(b: u64) -> bool {
    0 < b <= INF_BITS
}

/// The double with bit pattern `b` satisfies `x <= 0`: either zero of either
/// sign, or the sign bit set with a non-NaN magnitude. False for NaN.
pub open spec fn is_le_zero_bits(b: u64) -> bool {
    b == 0 || (SIGN_MASK <= b && abs_bits(b) <= INF_BITS)
}

/// Some entry of the sequence is a NaN.
pub open spec fn seq_has_nan(s: Seq<u64>) -> bool {
    exists|i: int| 0 <= i < s.len() && is_nan_bits(s[i])
}

/// Executable NaN test on one bit pattern.
pub fn is_nan(b: u64) -> (r: bool)
    ensures
        r == is_nan_bits(b),
{
    (b & ABS_MASK) > INF_BITS
}

/// Executable `|x| > epsilon` test on one bit pattern.
pub fn abs_gt_epsilon(b: u64) -> (r: bool)
    ensures
        r == abs_gt_epsilon_bits(b),
{
    let m = b & ABS_MASK;
    EPSILON_BITS < m && m <= INF_BITS
}

/// Executable `x > 0` test on one bit pattern.
pub fn is_gt_zero(b: u64) -> (r: bool)
    ensures
        r == is_gt_zero_bits(b),
{
    0 < b && b <= INF_BITS
}

/// Executable `x <= 0` test on one bit pattern.
pub fn is_le_zero(b: u64) -> (r: bool)
    ensures
        r == is_le_zero_bits(b),
{
    b == 0 || (SIGN_MASK <= b && (b & ABS_MASK) <= INF_BITS)
}

/// Copies a vector of bit patterns.
pub fn copy_bits_vec(xs: &Vec<u64>) -> (r: Vec<u64>)
    ensures
        r@ == xs@,
{
    let mut r: Vec<u64> = Vec::new();
    let mut i: usize = 0;
    while i < xs.len()
        invariant
            i <= xs@.len(),
            r@ == xs@.subrange(0, i as int),
        decreases xs@.len() - i,
    {
        r.push(xs[i]);
        assert(r@ =~= xs@.subrange(0, i + 1 as int));
        i += 1;
    }
    assert(r@ =~= xs@);
    r
}

/// Scans a row of bit patterns for a NaN entry.
pub fn vec_has_nan(xs: &Vec<u64>) -> (r: bool)
    ensures
        r == seq_has_nan(xs@),
{
    let mut i: usize = 0;
    while i < xs.len()
        invariant
            i <= xs@.len(),
            forall|j: int| 0 <= j < i ==> !is_nan_bits(xs@[j]),
        decreases xs@.len() - i,
    {
        if is_nan(xs[i]) {
            return true;
        }
        i += 1;
    }
    false
}

} // verus!
