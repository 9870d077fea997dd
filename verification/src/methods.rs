//! The closed enumerations that select a solver and a regression family,
//! with their exact parsing rules.
//!
//! Parsing from user-facing strings falls back to the default on any
//! unrecognized input, mirroring the engine's configuration surface; the
//! contracts state the mapping exactly, so the fallback is visible in the
//! specification rather than silent.

use vstd::prelude::*;
use vstd::string::StrSliceExecFns;

use crate::bits::{is_gt_zero, is_gt_zero_bits, is_le_zero, is_le_zero_bits};

verus! {

/// Decomposition strategy for the normal-equations solve.
#[derive(Clone, Copy, Debug, PartialEq, Eq, Structural)]
pub enum LRSolverMethods {
    SVD,
    Choleskey,
    QR,
}

/// Regression family: plain normal equations, L1 (lasso), L2 (ridge), or
/// elastic-net.
#[derive(Clone, Copy, Debug, PartialEq, Eq, Structural)]
pub enum LRMethods {
    Normal,
    L1,
    L2,
    ElasticNet,
}

/// The solver named by a string: "qr", "svd" or "choleskey"; anything else
/// selects the default, QR.
pub open spec fn solver_from_chars(s: Seq<char>) -> LRSolverMethods {
    if s == seq!['q', 'r'] {
        LRSolverMethods::QR
    } else if s == seq!['s', 'v', 'd'] {
        LRSolverMethods::SVD
    } else if s == seq!['c', 'h', 'o', 'l', 'e', 's', 'k', 'e', 'y'] {
        LRSolverMethods::Choleskey
    } else {
        LRSolverMethods::QR
    }
}

/// The regression family named by a string: "l1" or "lasso", "l2" or
/// "ridge", "elastic"; anything else selects the default, Normal.
pub open spec fn method_from_chars(s: Seq<char>) -> LRMethods {
    if s == seq!['l', '1'] || s == seq!['l', 'a', 's', 's', 'o'] {
        LRMethods::L1
    } else if s == seq!['l', '2'] || s == seq!['r', 'i', 'd', 'g', 'e'] {
        LRMethods::L2
    } else if s == seq!['e', 'l', 'a', 's', 't', 'i', 'c'] {
        LRMethods::ElasticNet
    } else {
        LRMethods::Normal
    }
}

/// The regression family implied by a pair of regularization strengths,
/// given as double bit patterns: a positive L1 strength alone selects L1, a
/// positive L2 strength alone selects L2, both positive select elastic-net,
/// anything else (including NaN strengths) selects Normal.
pub open spec fn method_from_regularization(l1: u64, l2: u64) -> LRMethods {
    if is_gt_zero_bits(l1) && is_le_zero_bits(l2) {
        LRMethods::L1
    } else if is_le_zero_bits(l1) && is_gt_zero_bits(l2) {
        LRMethods::L2
    } else if is_gt_zero_bits(l1) && is_gt_zero_bits(l2) {
        LRMethods::ElasticNet
    } else {
        LRMethods::Normal
    }
}

impl Default for LRSolverMethods {
    /// The default solver is column-pivoted QR.
    fn default() -> (r: Self)
        ensures
            r == LRSolverMethods::QR,
    {
        LRSolverMethods::QR
    }
}

impl Default for LRMethods {
    /// The default family is the plain normal equations.
    fn default() -> (r: Self)
        ensures
            r == LRMethods::Normal,
    {
        LRMethods::Normal
    }
}

impl From<&str> for LRSolverMethods {
    /// Parses a solver name, falling back to QR on unrecognized input.
    fn from(value: &str) -> (r: Self) {
        let n = value.unicode_len();
        if n == 2 && value.get_char(0) == 'q' && value.get_char(1) == 'r' {
            proof {
                assert(value@ =~= seq!['q', 'r']);
            }
            LRSolverMethods::QR
        } else if n == 3 && value.get_char(0) == 's' && value.get_char(1) == 'v' && value.get_char(
            2,
        ) == 'd' {
            proof {
                assert(value@ =~= seq!['s', 'v', 'd']);
            }
            LRSolverMethods::SVD
        } else if n == 9 && value.get_char(0) == 'c' && value.get_char(1) == 'h' && value.get_char(
            2,
        ) == 'o' && value.get_char(3) == 'l' && value.get_char(4) == 'e' && value.get_char(5)
            == 's' && value.get_char(6) == 'k' && value.get_char(7) == 'e' && value.get_char(8)
            == 'y' {
            proof {
                assert(value@ =~= seq!['c', 'h', 'o', 'l', 'e', 's', 'k', 'e', 'y']);
            }
            LRSolverMethods::Choleskey
        } else {
            LRSolverMethods::QR
        }
    }
}

impl vstd::std_specs::convert::FromSpecImpl<&str> for LRSolverMethods {
    open spec fn obeys_from_spec() -> bool {
        true
    }

    open spec fn from_spec(value: &str) -> Self {
        solver_from_chars(value@)
    }
}

impl From<&str> for LRMethods {
    /// Parses a family name, falling back to Normal on unrecognized input.
    fn from(value: &str) -> (r: Self) {
        let n = value.unicode_len();
        if n == 2 && value.get_char(0) == 'l' && value.get_char(1) == '1' {
            proof {
                assert(value@ =~= seq!['l', '1']);
            }
            LRMethods::L1
        } else if n == 5 && value.get_char(0) == 'l' && value.get_char(1) == 'a' && value.get_char(
            2,
        ) == 's' && value.get_char(3) == 's' && value.get_char(4) == 'o' {
            proof {
                assert(value@ =~= seq!['l', 'a', 's', 's', 'o']);
            }
            LRMethods::L1
        } else if n == 2 && value.get_char(0) == 'l' && value.get_char(1) == '2' {
            proof {
                assert(value@ =~= seq!['l', '2']);
            }
            LRMethods::L2
        } else if n == 5 && value.get_char(0) == 'r' && value.get_char(1) == 'i' && value.get_char(
            2,
        ) == 'd' && value.get_char(3) == 'g' && value.get_char(4) == 'e' {
            proof {
                assert(value@ =~= seq!['r', 'i', 'd', 'g', 'e']);
            }
            LRMethods::L2
        } else if n == 7 && value.get_char(0) == 'e' && value.get_char(1) == 'l' && value.get_char(
            2,
        ) == 'a' && value.get_char(3) == 's' && value.get_char(4) == 't' && value.get_char(5)
            == 'i' && value.get_char(6) == 'c' {
            proof {
                assert(value@ =~= seq!['e', 'l', 'a', 's', 't', 'i', 'c']);
            }
            LRMethods::ElasticNet
        } else {
            LRMethods::Normal
        }
    }
}

impl vstd::std_specs::convert::FromSpecImpl<&str> for LRMethods {
    open spec fn obeys_from_spec() -> bool {
        true
    }

    open spec fn from_spec(value: &str) -> Self {
        method_from_chars(value@)
    }
}

/// Selects the regression family from a pair of regularization strengths
/// given as double bit patterns (L1 strength first).
pub fn lr_method_from_regularization(l1_reg: u64, l2_reg: u64) -> (r: LRMethods)
    ensures
        r == method_from_regularization(l1_reg, l2_reg),
{
    if is_gt_zero(l1_reg) && is_le_zero(l2_reg) {
        LRMethods::L1
    } else if is_le_zero(l1_reg) && is_gt_zero(l2_reg) {
        LRMethods::L2
    } else if is_gt_zero(l1_reg) && is_gt_zero(l2_reg) {
        LRMethods::ElasticNet
    } else {
        LRMethods::Normal
    }
}

} // verus!
