//! The matrix carrier and the windowed-driver schedules on concrete data.

use lstsq::drivers::{
    compute_valid_mask, count_valid_range, filter_valid_rows, find_first_fit_pos,
    recursive_lstsq_plan, rolling_lstsq_plan, rolling_skipping_lstsq_plan, PosAction,
};
use lstsq::matrix::{has_nan, BitMat};

fn bits(xs: &[f64]) -> Vec<u64> {
    xs.iter().map(|v| v.to_bits()).collect()
}

fn mat(rows: &[&[f64]], ncols: usize) -> BitMat {
    BitMat::from_rows(rows.iter().map(|r| bits(r)).collect(), ncols).unwrap()
}

fn is_fresh(a: &PosAction, start: usize, end: usize) -> bool {
    matches!(a, PosAction::Fresh { start: s, end: e } if *s == start && *e == end)
}

fn is_slide(a: &PosAction, remove: Option<usize>, add: Option<usize>, emit: bool) -> bool {
    matches!(a, PosAction::Slide { remove: r, add: ad, emit: em }
        if *r == remove && *ad == add && *em == emit)
}

#[test]
fn bitmat_rejects_ragged_rows() {
    let r = BitMat::from_rows(vec![bits(&[1.0, 2.0]), bits(&[3.0])], 2);
    assert!(r.is_err());
    let r = BitMat::from_rows(vec![bits(&[1.0, 2.0]), bits(&[3.0, 4.0])], 2);
    assert!(r.is_ok());
}

#[test]
fn bitmat_shape_and_rows() {
    let m = mat(&[&[1.0, 2.0], &[3.0, 4.0], &[5.0, 6.0]], 2);
    assert_eq!(m.nrows(), 3);
    assert_eq!(m.ncols(), 2);
    assert_eq!(m.row(1), &bits(&[3.0, 4.0]));
    let e = BitMat::empty();
    assert_eq!(e.nrows(), 0);
    assert_eq!(e.ncols(), 0);
}

#[test]
fn bitmat_push_row_appends() {
    let mut m = BitMat::with_ncols(2);
    m.push_row(bits(&[1.0, 2.0]));
    m.push_row(bits(&[3.0, 4.0]));
    assert_eq!(m.nrows(), 2);
    assert_eq!(m.row(0), &bits(&[1.0, 2.0]));
    assert_eq!(m.row(1), &bits(&[3.0, 4.0]));
}

#[test]
fn has_nan_scans_every_entry() {
    let clean = mat(&[&[1.0, 2.0], &[3.0, 4.0]], 2);
    assert!(!has_nan(&clean));
    let dirty = mat(&[&[1.0, 2.0], &[3.0, f64::NAN]], 2);
    assert!(has_nan(&dirty));
    assert!(dirty.row_has_nan(1));
    assert!(!dirty.row_has_nan(0));
}

#[test]
fn valid_mask_flags_nan_rows() {
    let x = mat(&[&[1.0], &[f64::NAN], &[3.0], &[4.0]], 1);
    let y = bits(&[1.0, 2.0, f64::NAN, 4.0]);
    let mask = compute_valid_mask(&x, &y);
    assert_eq!(mask, vec![true, false, false, true]);
    assert_eq!(count_valid_range(&mask, 0, 4), 2);
    assert_eq!(count_valid_range(&mask, 1, 3), 0);
}

#[test]
fn filter_valid_rows_keeps_order() {
    let x = mat(&[&[1.0], &[f64::NAN], &[3.0], &[4.0]], 1);
    let y = bits(&[10.0, 20.0, f64::NAN, 40.0]);
    let (fx, fy) = filter_valid_rows(&x, &y, 0, 4);
    assert_eq!(fx.nrows(), 2);
    assert_eq!(fx.row(0), &bits(&[1.0]));
    assert_eq!(fx.row(1), &bits(&[4.0]));
    assert_eq!(fy, bits(&[10.0, 40.0]));
    let (wx, wy) = filter_valid_rows(&x, &y, 1, 3);
    assert_eq!(wx.nrows(), 0);
    assert_eq!(wy.len(), 0);
}

#[test]
fn recursive_plan_grows_one_row_at_a_time() {
    let plan = recursive_lstsq_plan(5, 2);
    assert_eq!(plan.len(), 4);
    assert!(is_fresh(&plan[0], 0, 2));
    assert!(is_slide(&plan[1], None, Some(2), true));
    assert!(is_slide(&plan[2], None, Some(3), true));
    assert!(is_slide(&plan[3], None, Some(4), true));
}

#[test]
fn rolling_plan_removes_and_adds_each_step() {
    let plan = rolling_lstsq_plan(5, 3);
    assert_eq!(plan.len(), 3);
    assert!(is_fresh(&plan[0], 0, 3));
    assert!(is_slide(&plan[1], Some(0), Some(3), true));
    assert!(is_slide(&plan[2], Some(1), Some(4), true));
}

#[test]
fn first_fit_pos_scans_windows() {
    // Valid mask: F F T T F -> windows of 2 counted: [0]=0, [1]=1, [2]=2.
    let v = vec![false, false, true, true, false];
    assert_eq!(find_first_fit_pos(&v, 2, 2), 2);
    assert_eq!(find_first_fit_pos(&v, 2, 1), 1);
    assert_eq!(find_first_fit_pos(&v, 2, 3), 4);
}

#[test]
fn skipping_plan_bootstrap_then_slides() {
    // Rows 0 and 2 invalid. Windows of size 3, minimum 2 valid rows:
    // [0,3): 1 valid -> skip; [1,4): 2 valid -> bootstrap fit;
    // [2,5): row 1 leaves (valid), row 4 enters (valid) -> 2 valid, emit.
    let x = mat(&[&[f64::NAN], &[1.0], &[2.0], &[3.0], &[4.0]], 1);
    let y = bits(&[0.0, 1.0, f64::NAN, 3.0, 4.0]);
    let plan = rolling_skipping_lstsq_plan(&x, &y, 3, 2);
    assert_eq!(plan.len(), 3);
    assert!(matches!(plan[0], PosAction::Skip));
    assert!(is_fresh(&plan[1], 1, 4));
    assert!(is_slide(&plan[2], Some(1), Some(4), true));
}

#[test]
fn skipping_plan_emits_only_windows_with_enough_valid_rows() {
    // Valid rows: 0,1 then 4,5. Windows of size 2, minimum 2.
    let x = mat(&[&[1.0], &[2.0], &[f64::NAN], &[f64::NAN], &[5.0], &[6.0]], 1);
    let y = bits(&[1.0, 2.0, 3.0, 4.0, 5.0, 6.0]);
    let plan = rolling_skipping_lstsq_plan(&x, &y, 2, 2);
    assert_eq!(plan.len(), 5);
    assert!(is_fresh(&plan[0], 0, 2));
    // Window [1,3): row 0 leaves (valid), row 2 enters (invalid): 1 valid.
    assert!(is_slide(&plan[1], Some(0), None, false));
    // Window [2,4): row 1 leaves (valid), row 3 enters (invalid): 0 valid.
    assert!(is_slide(&plan[2], Some(1), None, false));
    // Window [3,5): row 2 leaves (invalid), row 4 enters (valid): 1 valid.
    assert!(is_slide(&plan[3], None, Some(4), false));
    // Window [4,6): row 3 leaves (invalid), row 5 enters (valid): 2 valid.
    assert!(is_slide(&plan[4], None, Some(5), true));
}

#[test]
fn skipping_plan_all_windows_short_is_all_skips() {
    let x = mat(&[&[f64::NAN], &[1.0], &[f64::NAN], &[2.0]], 1);
    let y = bits(&[0.0, 1.0, 2.0, 3.0]);
    let plan = rolling_skipping_lstsq_plan(&x, &y, 2, 2);
    assert_eq!(plan.len(), 3);
    for a in &plan {
        assert!(matches!(a, PosAction::Skip));
    }
}
