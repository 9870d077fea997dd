//! Parsing of solver and family names, and family selection from
//! regularization strengths, against the exact rules.

use lstsq::methods::{lr_method_from_regularization, LRMethods, LRSolverMethods};

fn from_regs(l1: f64, l2: f64) -> LRMethods {
    lr_method_from_regularization(l1.to_bits(), l2.to_bits())
}

#[test]
fn solver_parses_known_names() {
    assert_eq!(LRSolverMethods::from("qr"), LRSolverMethods::QR);
    assert_eq!(LRSolverMethods::from("svd"), LRSolverMethods::SVD);
    assert_eq!(LRSolverMethods::from("choleskey"), LRSolverMethods::Choleskey);
}

#[test]
fn solver_falls_back_to_qr() {
    assert_eq!(LRSolverMethods::from(""), LRSolverMethods::QR);
    assert_eq!(LRSolverMethods::from("SVD"), LRSolverMethods::QR);
    assert_eq!(LRSolverMethods::from("cholesky"), LRSolverMethods::QR);
    assert_eq!(LRSolverMethods::from("normal"), LRSolverMethods::QR);
}

#[test]
fn solver_parsing_handles_multibyte_input() {
    // Same character count as "qr" but different characters.
    assert_eq!(LRSolverMethods::from("q\u{0155}"), LRSolverMethods::QR);
    assert_eq!(LRMethods::from("l\u{0661}"), LRMethods::Normal);
}

#[test]
fn solver_default_is_qr() {
    assert_eq!(LRSolverMethods::default(), LRSolverMethods::QR);
}

#[test]
fn method_parses_known_names() {
    assert_eq!(LRMethods::from("l1"), LRMethods::L1);
    assert_eq!(LRMethods::from("lasso"), LRMethods::L1);
    assert_eq!(LRMethods::from("l2"), LRMethods::L2);
    assert_eq!(LRMethods::from("ridge"), LRMethods::L2);
    assert_eq!(LRMethods::from("elastic"), LRMethods::ElasticNet);
}

#[test]
fn method_falls_back_to_normal() {
    assert_eq!(LRMethods::from(""), LRMethods::Normal);
    assert_eq!(LRMethods::from("L1"), LRMethods::Normal);
    assert_eq!(LRMethods::from("elasticnet"), LRMethods::Normal);
}

#[test]
fn method_default_is_normal() {
    assert_eq!(LRMethods::default(), LRMethods::Normal);
}

#[test]
fn method_from_regularization_pairs() {
    assert_eq!(from_regs(0.1, 0.0), LRMethods::L1);
    assert_eq!(from_regs(0.1, -1.0), LRMethods::L1);
    assert_eq!(from_regs(0.0, 0.1), LRMethods::L2);
    assert_eq!(from_regs(-1.0, 0.1), LRMethods::L2);
    assert_eq!(from_regs(0.5, 0.5), LRMethods::ElasticNet);
    assert_eq!(from_regs(0.0, 0.0), LRMethods::Normal);
    assert_eq!(from_regs(-1.0, -1.0), LRMethods::Normal);
}

#[test]
fn method_from_regularization_with_nan_is_normal() {
    // NaN compares false against both "positive" and "non-positive", so a
    // NaN strength never selects a penalized family.
    assert_eq!(from_regs(f64::NAN, 1.0), LRMethods::Normal);
    assert_eq!(from_regs(1.0, f64::NAN), LRMethods::Normal);
    assert_eq!(from_regs(f64::NAN, f64::NAN), LRMethods::Normal);
}
