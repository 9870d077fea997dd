//! A dense matrix of IEEE-754 double bit patterns, stored row by row.
//!
//! The matrix is the carrier the engine hands to and receives from the
//! floating-point kernels outside this crate: a fitted inverse information
//! matrix, a design matrix to scan for NaN rows, a filtered window to refit
//! on. Its well-formedness -- every row of the same width -- is established
//! by the constructors and preserved by every method.

use vstd::prelude::*;

use crate::bits::{seq_has_nan, vec_has_nan};
use crate::errors::LinalgErrors;

verus! {

/// Some row of the matrix holds a NaN entry.
pub open spec fn mat_has_nan(m: Seq<Seq<u64>>) -> bool {
    exists|i: int| 0 <= i < m.len() && seq_has_nan(m[i])
}

/// A dense matrix of double bit patterns. The view is the sequence of rows.
pub struct BitMat {
    rows: Vec<Vec<u64>>,
    ncols: usize,
}

impl View for BitMat {
    type V = Seq<Seq<u64>>;

    closed spec fn view(&self) -> Seq<Seq<u64>> {
        Seq::new(self.rows@.len(), |i: int| self.rows@[i]@)
    }
}

impl BitMat {
    /// The column count, as the matrix records it.
    pub closed spec fn spec_ncols(&self) -> int {
        self.ncols as int
    }

    /// Every row has exactly the recorded number of columns.
    pub open spec fn wf(&self) -> bool {
        forall|i: int| 0 <= i < self@.len() ==> (#[trigger] self@[i]).len() == self.spec_ncols()
    }

    /// The 0 x 0 matrix: the shape of an unfit model's state.
    pub fn empty() -> (r: BitMat)
        ensures
            r@.len() == 0,
            r.spec_ncols() == 0,
            r.wf(),
    {
        BitMat { rows: Vec::new(), ncols: 0 }
    }

    /// A matrix with no rows yet, ready to receive rows of width `ncols`.
    pub fn with_ncols(ncols: usize) -> (r: BitMat)
        ensures
            r@.len() == 0,
            r.spec_ncols() == ncols,
            r.wf(),
    {
        BitMat { rows: Vec::new(), ncols }
    }

    /// Builds a matrix from rows, rejecting ragged input.
    pub fn from_rows(rows: Vec<Vec<u64>>, ncols: usize) -> (r: Result<BitMat, LinalgErrors>)
        ensures
            r is Ok <==> (forall|i: int|
                0 <= i < rows@.len() ==> (#[trigger] rows@[i]@).len() == ncols),
            r matches Ok(m) ==> {
                &&& m@ == Seq::new(rows@.len(), |i: int| rows@[i]@)
                &&& m.spec_ncols() == ncols
                &&& m.wf()
            },
            r matches Err(e) ==> e == LinalgErrors::DimensionMismatch,
    {
        let mut i: usize = 0;
        while i < rows.len()
            invariant
                i <= rows@.len(),
                forall|j: int| 0 <= j < i ==> (#[trigger] rows@[j]@).len() == ncols,
            decreases rows@.len() - i,
        {
            if rows[i].len() != ncols {
                return Err(LinalgErrors::DimensionMismatch);
            }
            i += 1;
        }
        let m = BitMat { rows, ncols };
        assert(m@ =~= Seq::new(m.rows@.len(), |i: int| m.rows@[i]@));
        Ok(m)
    }

    /// The number of rows.
    pub fn nrows(&self) -> (r: usize)
        ensures
            r == self@.len(),
    {
        self.rows.len()
    }

    /// The number of columns.
    pub fn ncols(&self) -> (r: usize)
        ensures
            r == self.spec_ncols(),
    {
        self.ncols
    }

    /// Borrows row `i`.
    pub fn row(&self, i: usize) -> (r: &Vec<u64>)
        requires
            i < self@.len(),
        ensures
            r@ == self@[i as int],
    {
        &self.rows[i]
    }

    /// True when row `i` holds a NaN entry.
    pub fn row_has_nan(&self, i: usize) -> (r: bool)
        requires
            i < self@.len(),
        ensures
            r == seq_has_nan(self@[i as int]),
    {
        vec_has_nan(&self.rows[i])
    }

    /// Appends one row of the recorded width.
    pub fn push_row(&mut self, row: Vec<u64>)
        requires
            row@.len() == old(self).spec_ncols(),
        ensures
            final(self)@ == old(self)@.push(row@),
            final(self).spec_ncols() == old(self).spec_ncols(),
            old(self).wf() ==> final(self).wf(),
    {
        let ghost prev = self@;
        self.rows.push(row);
        assert(self@ =~= prev.push(row@));
    }
}

impl Clone for BitMat {
    /// A clone carries the same rows and the same recorded width.
    fn clone(&self) -> (r: Self)
        ensures
            r@ == self@,
            r.spec_ncols() == self.spec_ncols(),
    {
        let mut rows: Vec<Vec<u64>> = Vec::new();
        let mut i: usize = 0;
        while i < self.rows.len()
            invariant
                i <= self.rows@.len(),
                rows@.len() == i,
                forall|j: int| 0 <= j < i ==> (#[trigger] rows@[j]@) == self.rows@[j]@,
            decreases self.rows@.len() - i,
        {
            let mut row: Vec<u64> = Vec::new();
            let source = &self.rows[i];
            let mut k: usize = 0;
            while k < source.len()
                invariant
                    k <= source@.len(),
                    row@ == source@.subrange(0, k as int),
                decreases source@.len() - k,
            {
                row.push(source[k]);
                assert(row@ =~= source@.subrange(0, k + 1 as int));
                k += 1;
            }
            assert(row@ =~= source@);
            rows.push(row);
            i += 1;
        }
        let r = BitMat { rows, ncols: self.ncols };
        assert(r@ =~= self@);
        r
    }
}

/// True when any entry of the matrix is a NaN: the guard the online update
/// engine runs before absorbing a row.
pub fn has_nan(mat: &BitMat) -> (r: bool)
    ensures
        r == mat_has_nan(mat@),
{
    let mut i: usize = 0;
    while i < mat.nrows()
        invariant
            i <= mat@.len(),
            forall|j: int| 0 <= j < i ==> !seq_has_nan(mat@[j]),
        decreases mat@.len() - i,
    {
        if mat.row_has_nan(i) {
            return true;
        }
        i += 1;
    }
    false
}

} // verus!
