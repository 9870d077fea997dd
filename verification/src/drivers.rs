//! Schedules of the windowed drivers.
//!
//! Each driver -- recursive growing-window, rolling fixed-window, and
//! rolling with null-skipping -- is a sequence of Online Update Engine
//! calls: from-scratch fits, rank-1 add and remove updates, and one
//! emission per window position. The floating-point work of each call
//! happens outside this crate; what is decided and proved here is the
//! schedule itself: which rows enter and leave at each position, when a
//! position emits coefficients and when an unfit placeholder, and that the
//! incrementally maintained valid-row count agrees with a from-scratch
//! count of every window.

use vstd::prelude::*;

use crate::bits::{copy_bits_vec, is_nan, is_nan_bits, seq_has_nan};
use crate::matrix::BitMat;

verus! {

/// One scheduled action of a windowed driver, at one window position.
#[derive(Clone, Copy, Debug)]
pub enum PosAction {
    /// Too few valid rows and no fit performed yet: emit an unfit
    /// placeholder and slide on, touching no state.
    Skip,
    /// Fit from scratch on the valid rows among `[start, end)`, then emit
    /// the coefficients.
    Fresh { start: usize, end: usize },
    /// Slide by one row: retract `remove` (if given) and absorb `add` (if
    /// given) by rank-1 updates, then emit the coefficients when `emit`
    /// holds, else an unfit placeholder.
    Slide { remove: Option<usize>, add: Option<usize>, emit: bool },
}

/// Whether an action emits coefficients (rather than a placeholder).
pub open spec fn action_emits(a: PosAction) -> bool {
    match a {
        PosAction::Skip => false,
        PosAction::Fresh { .. } => true,
        PosAction::Slide { emit, .. } => emit,
    }
}

/// Row `i` is valid when neither its features nor its target hold a NaN.
pub open spec fn spec_row_valid(x: Seq<Seq<u64>>, y: Seq<u64>, i: int) -> bool {
    !seq_has_nan(x[i]) && !is_nan_bits(y[i])
}

/// The validity mask of a dataset: one flag per row.
pub open spec fn valid_mask(x: Seq<Seq<u64>>, y: Seq<u64>) -> Seq<bool> {
    Seq::new(x.len(), |i: int| spec_row_valid(x, y, i))
}

/// The number of valid rows among positions `[lo, hi)` of a mask.
pub open spec fn count_valid(v: Seq<bool>, lo: int, hi: int) -> int
    decreases hi - lo,
{
    if lo >= hi {
        0
    } else {
        count_valid(v, lo, hi - 1) + (if v[hi - 1] {
            1int
        } else {
            0int
        })
    }
}

/// A valid-row count is at least zero and at most the window width.
pub proof fn lemma_count_valid_bounds(v: Seq<bool>, lo: int, hi: int)
    ensures
        0 <= count_valid(v, lo, hi),
        lo <= hi ==> count_valid(v, lo, hi) <= hi - lo,
    decreases hi - lo,
{
    if lo < hi {
        lemma_count_valid_bounds(v, lo, hi - 1);
    }
}

/// A valid-row count can also be peeled at its left end.
pub proof fn lemma_count_valid_unfold_low(v: Seq<bool>, lo: int, hi: int)
    requires
        lo < hi,
    ensures
        count_valid(v, lo, hi) == (if v[lo] {
            1int
        } else {
            0int
        }) + count_valid(v, lo + 1, hi),
    decreases hi - lo,
{
    if lo + 1 < hi {
        lemma_count_valid_unfold_low(v, lo, hi - 1);
    } else {
        assert(count_valid(v, lo, lo) == 0);
        assert(count_valid(v, lo + 1, hi) == 0);
    }
}

/// Law: sliding a window one row to the right changes its valid-row count
/// by exactly the validity of the row entering minus that of the row
/// leaving -- the incremental bookkeeping of the null-skipping driver
/// agrees with a from-scratch count of every window.
pub proof fn lemma_count_valid_slide(v: Seq<bool>, p: int, n: int)
    requires
        p >= 1,
        n >= 1,
    ensures
        count_valid(v, p, p + n) == count_valid(v, p - 1, p - 1 + n) - (if v[p - 1] {
            1int
        } else {
            0int
        }) + (if v[p + n - 1] {
            1int
        } else {
            0int
        }),
{
    lemma_count_valid_unfold_low(v, p - 1, p - 1 + n);
}

/// Computes the validity mask of a dataset.
pub fn compute_valid_mask(x: &BitMat, y: &Vec<u64>) -> (r: Vec<bool>)
    requires
        x@.len() == y@.len(),
    ensures
        r@ == valid_mask(x@, y@),
{
    let n = x.nrows();
    let mut r: Vec<bool> = Vec::new();
    let mut i: usize = 0;
    while i < n
        invariant
            i <= n,
            n == x@.len() == y@.len(),
            r@.len() == i,
            forall|j: int| 0 <= j < i ==> r@[j] == spec_row_valid(x@, y@, j),
        decreases n - i,
    {
        let ok = !x.row_has_nan(i) && !is_nan(y[i]);
        r.push(ok);
        i += 1;
    }
    assert(r@ =~= valid_mask(x@, y@));
    r
}

/// The number of valid rows among positions `[lo, hi)`.
pub fn count_valid_range(v: &Vec<bool>, lo: usize, hi: usize) -> (c: usize)
    requires
        lo <= hi <= v@.len(),
    ensures
        c == count_valid(v@, lo as int, hi as int),
{
    let mut c: usize = 0;
    let mut i: usize = lo;
    while i < hi
        invariant
            lo <= i <= hi <= v@.len(),
            c == count_valid(v@, lo as int, i as int),
            c <= i - lo,
        decreases hi - i,
    {
        if v[i] {
            c += 1;
        }
        i += 1;
    }
    c
}

/// The valid rows among `[lo, k)`, in order, as matrix rows.
pub open spec fn filtered_x(x: Seq<Seq<u64>>, y: Seq<u64>, lo: int, k: int) -> Seq<Seq<u64>>
    decreases k - lo,
{
    if k <= lo {
        Seq::empty()
    } else {
        let prev = filtered_x(x, y, lo, k - 1);
        if spec_row_valid(x, y, k - 1) {
            prev.push(x[k - 1])
        } else {
            prev
        }
    }
}

/// The targets of the valid rows among `[lo, k)`, in order.
pub open spec fn filtered_y(x: Seq<Seq<u64>>, y: Seq<u64>, lo: int, k: int) -> Seq<u64>
    decreases k - lo,
{
    if k <= lo {
        Seq::empty()
    } else {
        let prev = filtered_y(x, y, lo, k - 1);
        if spec_row_valid(x, y, k - 1) {
            prev.push(y[k - 1])
        } else {
            prev
        }
    }
}

/// Extracts the valid rows of the window `[lo, hi)`: the design-matrix rows
/// and targets whose row holds no NaN, in their original order. This is the
/// dataset the null-skipping driver refits on when a window first reaches
/// enough valid rows.
pub fn filter_valid_rows(x: &BitMat, y: &Vec<u64>, lo: usize, hi: usize) -> (r: (BitMat, Vec<u64>))
    requires
        x.wf(),
        x@.len() == y@.len(),
        lo <= hi <= x@.len(),
    ensures
        r.0@ == filtered_x(x@, y@, lo as int, hi as int),
        r.1@ == filtered_y(x@, y@, lo as int, hi as int),
        r.0.wf(),
        r.0.spec_ncols() == x.spec_ncols(),
        r.0@.len() == r.1@.len(),
        r.0@.len() == count_valid(valid_mask(x@, y@), lo as int, hi as int),
{
    let mut xs = BitMat::with_ncols(x.ncols());
    let mut ys: Vec<u64> = Vec::new();
    let mut i: usize = lo;
    while i < hi
        invariant
            lo <= i <= hi <= x@.len(),
            x.wf(),
            x@.len() == y@.len(),
            xs@ == filtered_x(x@, y@, lo as int, i as int),
            ys@ == filtered_y(x@, y@, lo as int, i as int),
            xs.wf(),
            xs.spec_ncols() == x.spec_ncols(),
            xs@.len() == ys@.len(),
            xs@.len() == count_valid(valid_mask(x@, y@), lo as int, i as int),
        decreases hi - i,
    {
        let valid = !x.row_has_nan(i) && !is_nan(y[i]);
        if valid {
            let row = copy_bits_vec(x.row(i));
            xs.push_row(row);
            ys.push(y[i]);
        }
        i += 1;
    }
    (xs, ys)
}

/// The schedule of the recursive (growing-window) driver: one fit on rows
/// `[0, n)`, then one add-update per further row, emitting at every
/// position.
pub open spec fn is_recursive_plan(plan: Seq<PosAction>, n: int, xn: int) -> bool {
    &&& plan.len() == xn - n + 1
    &&& plan[0] == (PosAction::Fresh { start: 0usize, end: n as usize })
    &&& (forall|k: int|
        1 <= k < plan.len() ==> plan[k] == (PosAction::Slide {
            remove: None,
            add: Some((n + k - 1) as usize),
            emit: true,
        }))
}

/// The schedule of the rolling (fixed-window) driver: one fit on rows
/// `[0, n)`, then at every further position one remove-update on the row
/// leaving the window and one add-update on the row entering it.
pub open spec fn is_rolling_plan(plan: Seq<PosAction>, n: int, xn: int) -> bool {
    &&& plan.len() == xn - n + 1
    &&& plan[0] == (PosAction::Fresh { start: 0usize, end: n as usize })
    &&& (forall|k: int|
        1 <= k < plan.len() ==> plan[k] == (PosAction::Slide {
            remove: Some((k - 1) as usize),
            add: Some((n + k - 1) as usize),
            emit: true,
        }))
}

/// Schedules the recursive driver over `xn` rows with starting window `n`.
pub fn recursive_lstsq_plan(xn: usize, n: usize) -> (r: Vec<PosAction>)
    requires
        1 <= n <= xn,
    ensures
        is_recursive_plan(r@, n as int, xn as int),
{
    let mut r: Vec<PosAction> = Vec::new();
    r.push(PosAction::Fresh { start: 0, end: n });
    let mut j: usize = n;
    while j < xn
        invariant
            n <= j <= xn,
            1 <= n,
            r@.len() == j - n + 1,
            r@[0] == (PosAction::Fresh { start: 0usize, end: n as usize }),
            forall|k: int|
                1 <= k < r@.len() ==> r@[k] == (PosAction::Slide {
                    remove: None,
                    add: Some((n + k - 1) as usize),
                    emit: true,
                }),
        decreases xn - j,
    {
        r.push(PosAction::Slide { remove: None, add: Some(j), emit: true });
        j += 1;
    }
    r
}

/// Schedules the rolling driver over `xn` rows with window size `n`.
pub fn rolling_lstsq_plan(xn: usize, n: usize) -> (r: Vec<PosAction>)
    requires
        1 <= n <= xn,
    ensures
        is_rolling_plan(r@, n as int, xn as int),
{
    let mut r: Vec<PosAction> = Vec::new();
    r.push(PosAction::Fresh { start: 0, end: n });
    let mut j: usize = n;
    while j < xn
        invariant
            n <= j <= xn,
            1 <= n,
            r@.len() == j - n + 1,
            r@[0] == (PosAction::Fresh { start: 0usize, end: n as usize }),
            forall|k: int|
                1 <= k < r@.len() ==> r@[k] == (PosAction::Slide {
                    remove: Some((k - 1) as usize),
                    add: Some((n + k - 1) as usize),
                    emit: true,
                }),
        decreases xn - j,
    {
        r.push(PosAction::Slide { remove: Some(j - n), add: Some(j), emit: true });
        j += 1;
    }
    r
}

/// The first window position at or after `p` whose valid-row count reaches
/// `m`, or `positions` (one past the last position) when none does.
pub open spec fn spec_first_fit_pos(v: Seq<bool>, n: int, m: int, p: int, positions: int) -> int
    decreases positions - p,
{
    if p >= positions {
        positions
    } else if count_valid(v, p, p + n) >= m {
        p
    } else {
        spec_first_fit_pos(v, n, m, p + 1, positions)
    }
}

/// The first fit position lies between `p` and `positions`; every position
/// before it has too few valid rows, and the position itself (when it
/// exists) has enough.
pub proof fn lemma_first_fit_pos_props(v: Seq<bool>, n: int, m: int, p: int, positions: int)
    requires
        0 <= p <= positions,
    ensures
        p <= spec_first_fit_pos(v, n, m, p, positions) <= positions,
        forall|q: int|
            p <= q < spec_first_fit_pos(v, n, m, p, positions) ==> #[trigger] count_valid(
                v,
                q,
                q + n,
            ) < m,
        spec_first_fit_pos(v, n, m, p, positions) < positions ==> count_valid(
            v,
            spec_first_fit_pos(v, n, m, p, positions),
            spec_first_fit_pos(v, n, m, p, positions) + n,
        ) >= m,
    decreases positions - p,
{
    if p < positions && count_valid(v, p, p + n) < m {
        lemma_first_fit_pos_props(v, n, m, p + 1, positions);
    }
}

/// Scans window positions from the left and returns the first whose
/// valid-row count reaches `m`, or one past the last position if none does.
pub fn find_first_fit_pos(v: &Vec<bool>, n: usize, m: usize) -> (r: usize)
    requires
        1 <= n <= v@.len(),
    ensures
        r == spec_first_fit_pos(v@, n as int, m as int, 0, v@.len() - n as int + 1),
        r <= v@.len() - n + 1,
{
    let len = v.len();
    let positions = len - n + 1;
    let mut p: usize = 0;
    while p < positions
        invariant
            p <= positions,
            n <= len,
            len == v@.len(),
            positions == len - n as int + 1,
            spec_first_fit_pos(v@, n as int, m as int, 0, positions as int) == spec_first_fit_pos(
                v@,
                n as int,
                m as int,
                p as int,
                positions as int,
            ),
        decreases positions - p,
    {
        let c = count_valid_range(v, p, p + n);
        if c >= m {
            return p;
        }
        p += 1;
    }
    positions
}

/// The schedule of the null-skipping rolling driver over validity mask `v`:
/// unfit placeholders until the first window with `m` valid rows, one
/// from-scratch fit on that window's valid rows, then conditional remove-
/// and add-updates, emitting exactly at the positions whose window holds at
/// least `m` valid rows.
pub open spec fn is_rolling_skipping_plan(plan: Seq<PosAction>, v: Seq<bool>, n: int, m: int) -> bool {
    let positions = v.len() - n + 1;
    let boot = spec_first_fit_pos(v, n, m, 0, positions);
    &&& plan.len() == positions
    &&& (forall|p: int| 0 <= p < boot ==> plan[p] == PosAction::Skip)
    &&& (boot < positions ==> plan[boot] == (PosAction::Fresh {
        start: boot as usize,
        end: (boot + n) as usize,
    }))
    &&& (forall|p: int|
        boot < p < positions ==> plan[p] == (PosAction::Slide {
            remove: if v[p - 1] {
                Some((p - 1) as usize)
            } else {
                None
            },
            add: if v[p + n - 1] {
                Some((p + n - 1) as usize)
            } else {
                None
            },
            emit: count_valid(v, p, p + n) >= m,
        }))
}

/// Schedules the null-skipping rolling driver with window size `n` and
/// minimum valid-row count `m`. Besides the exact schedule, the contract
/// states the driver's headline law: a position emits coefficients exactly
/// when its window holds at least `m` valid rows, even though after the
/// bootstrap the count is maintained incrementally.
pub fn rolling_skipping_lstsq_plan(x: &BitMat, y: &Vec<u64>, n: usize, m: usize) -> (r: Vec<
    PosAction,
>)
    requires
        x@.len() == y@.len(),
        1 <= m <= n,
        n <= x@.len(),
    ensures
        is_rolling_skipping_plan(r@, valid_mask(x@, y@), n as int, m as int),
        forall|p: int|
            0 <= p < r@.len() ==> action_emits(r@[p]) == (count_valid(
                valid_mask(x@, y@),
                p,
                p + n,
            ) >= m),
{
    let v = compute_valid_mask(x, y);
    let xn = x.nrows();
    let positions = xn - n + 1;
    let boot = find_first_fit_pos(&v, n, m);
    proof {
        lemma_first_fit_pos_props(v@, n as int, m as int, 0, positions as int);
    }
    let mut r: Vec<PosAction> = Vec::new();
    let mut p: usize = 0;
    while p < boot
        invariant
            p <= boot,
            r@.len() == p,
            forall|q: int| 0 <= q < p ==> r@[q] == PosAction::Skip,
        decreases boot - p,
    {
        r.push(PosAction::Skip);
        p += 1;
    }
    if boot < positions {
        r.push(PosAction::Fresh { start: boot, end: boot + n });
        let mut cnt = count_valid_range(&v, boot, boot + n);
        proof {
            lemma_count_valid_bounds(v@, boot as int, boot as int + n as int);
        }
        let mut q: usize = boot + 1;
        while q < positions
            invariant
                boot + 1 <= q <= positions,
                1 <= m <= n,
                n <= xn,
                xn == v@.len(),
                positions == xn - n as int + 1,
                boot == spec_first_fit_pos(v@, n as int, m as int, 0, positions as int),
                cnt == count_valid(v@, q - 1, q - 1 + n as int),
                cnt <= n,
                r@.len() == q,
                forall|t: int| 0 <= t < boot ==> r@[t] == PosAction::Skip,
                r@[boot as int] == (PosAction::Fresh {
                    start: boot as usize,
                    end: (boot + n) as usize,
                }),
                forall|t: int|
                    boot < t < q ==> r@[t] == (PosAction::Slide {
                        remove: if v@[t - 1] {
                            Some((t - 1) as usize)
                        } else {
                            None
                        },
                        add: if v@[t + n - 1] {
                            Some((t + n - 1) as usize)
                        } else {
                            None
                        },
                        emit: count_valid(v@, t, t + n) >= m,
                    }),
            decreases positions - q,
        {
            let out_valid = v[q - 1];
            let in_valid = v[q + n - 1];
            proof {
                lemma_count_valid_slide(v@, q as int, n as int);
                lemma_count_valid_unfold_low(v@, q as int - 1, q as int - 1 + n as int);
                lemma_count_valid_bounds(v@, q as int, q as int - 1 + n as int);
                lemma_count_valid_bounds(v@, q as int, q as int + n as int);
            }
            let remove_step: Option<usize> = if out_valid {
                Some(q - 1)
            } else {
                None
            };
            if out_valid {
                cnt -= 1;
            }
            let add_step: Option<usize> = if in_valid {
                Some(q + n - 1)
            } else {
                None
            };
            if in_valid {
                cnt += 1;
            }
            assert(cnt == count_valid(v@, q as int, q as int + n as int));
            let emit = cnt >= m;
            r.push(PosAction::Slide { remove: remove_step, add: add_step, emit });
            q += 1;
        }
    }
    proof {
        assert(v@ == valid_mask(x@, y@));
        assert forall|p_: int| 0 <= p_ < r@.len() implies action_emits(r@[p_]) == (count_valid(
            valid_mask(x@, y@),
            p_,
            p_ + n,
        ) >= m) by {
            let bt = spec_first_fit_pos(v@, n as int, m as int, 0, positions as int);
            if p_ < bt {
                assert(count_valid(v@, p_, p_ + n) < m);
            }
        }
    }
    r
}

/// All rows of a mask are valid: the setting of the plain recursive and
/// rolling drivers, which demand NaN-free data.
pub open spec fn all_valid(v: Seq<bool>) -> bool {
    forall|i: int| 0 <= i < v.len() ==> v[i]
}

/// The interval `[lo, hi)` as a set of row indices.
pub open spec fn row_range(lo: int, hi: int) -> Set<int> {
    Set::new(|i: int| lo <= i < hi)
}

/// The valid rows among `[lo, hi)` as a set of row indices.
pub open spec fn valid_rows_in(v: Seq<bool>, lo: int, hi: int) -> Set<int> {
    Set::new(|i: int| lo <= i < hi && v[i])
}

/// The set of rows the online engine reflects after the first `k` actions
/// of a schedule, starting unfit: a fresh fit absorbs exactly the valid
/// rows of its window, a slide retracts and absorbs single rows, a skip
/// touches nothing.
pub open spec fn absorbed_rows(plan: Seq<PosAction>, v: Seq<bool>, k: int) -> Set<int>
    decreases k,
{
    if k <= 0 {
        Set::empty()
    } else {
        let prev = absorbed_rows(plan, v, k - 1);
        match plan[k - 1] {
            PosAction::Skip => prev,
            PosAction::Fresh { start, end } => valid_rows_in(v, start as int, end as int),
            PosAction::Slide { remove, add, .. } => {
                let after_remove = match remove {
                    Some(i) => prev.remove(i as int),
                    None => prev,
                };
                match add {
                    Some(i) => after_remove.insert(i as int),
                    None => after_remove,
                }
            },
        }
    }
}

/// Law (growing window): after `k` positions of the recursive schedule the
/// engine has absorbed exactly the prefix rows `[0, n + k - 1)`. The state
/// behind the k-th emission therefore reflects the same rows as one batch
/// fit on that prefix: each position extends the previous state by exactly
/// the one new row.
pub proof fn lemma_recursive_plan_absorbs_prefix(
    plan: Seq<PosAction>,
    v: Seq<bool>,
    n: int,
    xn: int,
    k: int,
)
    requires
        is_recursive_plan(plan, n, xn),
        1 <= n <= xn <= usize::MAX,
        v.len() == xn,
        all_valid(v),
        1 <= k <= plan.len(),
    ensures
        absorbed_rows(plan, v, k) == row_range(0, n + k - 1),
    decreases k,
{
    if k == 1 {
        assert(absorbed_rows(plan, v, 1) =~= row_range(0, n));
    } else {
        lemma_recursive_plan_absorbs_prefix(plan, v, n, xn, k - 1);
        assert(absorbed_rows(plan, v, k) =~= row_range(0, n + k - 1));
    }
}

/// Law (fixed window): after `k` positions of the rolling schedule the
/// engine has absorbed exactly the window rows `[k - 1, k - 1 + n)`. The
/// state behind the k-th emission therefore reflects the same rows as one
/// batch fit on exactly that window: the remove- and add-update pair at
/// each position slides the absorbed set by one row.
pub proof fn lemma_rolling_plan_absorbs_window(
    plan: Seq<PosAction>,
    v: Seq<bool>,
    n: int,
    xn: int,
    k: int,
)
    requires
        is_rolling_plan(plan, n, xn),
        1 <= n <= xn <= usize::MAX,
        v.len() == xn,
        all_valid(v),
        1 <= k <= plan.len(),
    ensures
        absorbed_rows(plan, v, k) == row_range(k - 1, k - 1 + n),
    decreases k,
{
    if k == 1 {
        assert(absorbed_rows(plan, v, 1) =~= row_range(0, n));
    } else {
        lemma_rolling_plan_absorbs_window(plan, v, n, xn, k - 1);
        assert(absorbed_rows(plan, v, k) =~= row_range(k - 1, k - 1 + n));
    }
}

/// Law (null-skipping): from the bootstrap position on, the state behind
/// position `p` reflects exactly the valid rows of the window `[p, p + n)`,
/// whether or not the position emitted. The conditional remove- and
/// add-updates keep the absorbed set identical to what a from-scratch fit
/// on the window's valid rows would use.
pub proof fn lemma_rolling_skipping_plan_absorbs_window(
    plan: Seq<PosAction>,
    v: Seq<bool>,
    n: int,
    m: int,
    p: int,
)
    requires
        is_rolling_skipping_plan(plan, v, n, m),
        1 <= n <= v.len() <= usize::MAX,
        spec_first_fit_pos(v, n, m, 0, v.len() - n + 1) <= p < v.len() - n + 1,
    ensures
        absorbed_rows(plan, v, p + 1) == valid_rows_in(v, p, p + n),
    decreases p,
{
    let boot = spec_first_fit_pos(v, n, m, 0, v.len() - n + 1);
    lemma_first_fit_pos_props(v, n, m, 0, v.len() - n + 1);
    if p == boot {
        assert(absorbed_rows(plan, v, p + 1) =~= valid_rows_in(v, p, p + n));
    } else {
        lemma_rolling_skipping_plan_absorbs_window(plan, v, n, m, p - 1);
        assert(absorbed_rows(plan, v, p + 1) =~= valid_rows_in(v, p, p + n));
    }
}

} // verus!
