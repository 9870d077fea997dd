//! Model state, fit admission, prediction admission, and the exact
//! round-trip of setting and reading coefficients and bias.

use lstsq::errors::LinalgErrors;
use lstsq::lstsq::{
    check_elastic_fit_dims, check_fit_dims, ElasticNet, LinearRegression, LR, OnlineLR,
    DEFAULT_ELASTIC_MAX_ITER, DEFAULT_ELASTIC_TOL_BITS,
};
use lstsq::matrix::BitMat;
use lstsq::methods::LRSolverMethods;

fn bits(xs: &[f64]) -> Vec<u64> {
    xs.iter().map(|v| v.to_bits()).collect()
}

#[test]
fn error_messages_name_the_failure() {
    assert_eq!(LinalgErrors::DimensionMismatch.message(), "Input dimensions do not match.");
    assert_eq!(LinalgErrors::NotEnoughData.message(), "Not enough data to solve the system.");
    assert_eq!(LinalgErrors::MatNotLearnedYet.message(), "Coefficients are not learned yet.");
}

#[test]
fn new_lr_is_unfit() {
    let m = LR::new("qr", 0.0f64.to_bits(), false);
    assert!(!m.is_fit());
    assert_eq!(m.solver, LRSolverMethods::QR);
    assert_eq!(m.bias(), 0.0f64.to_bits());
    assert!(m.coefficients().is_empty());
}

#[test]
fn new_lr_parses_its_solver_name() {
    let m = LR::new("svd", 0.5f64.to_bits(), true);
    assert_eq!(m.solver, LRSolverMethods::SVD);
    assert_eq!(m.lambda, 0.5f64.to_bits());
    assert!(m.fit_bias());
    let m = LR::new("something else", 0, false);
    assert_eq!(m.solver, LRSolverMethods::QR);
}

#[test]
fn lr_set_then_get_round_trip() {
    let coeffs = bits(&[2.0, 0.0]);
    let mut m = LR::new("qr", 0.0f64.to_bits(), false);
    m.set_coeffs_and_bias(&coeffs, 0.5f64.to_bits());
    assert_eq!(m.coefficients(), &coeffs);
    assert_eq!(m.bias(), 0.5f64.to_bits());
    assert_eq!(m.coeffs_as_vec().unwrap(), coeffs);
}

#[test]
fn lr_from_values_round_trip() {
    let coeffs = bits(&[1.5, -2.25, 3.0]);
    let m = LR::from_values(&coeffs, (-4.0f64).to_bits());
    assert_eq!(m.get_coefficients(), coeffs);
    assert_eq!(m.bias(), (-4.0f64).to_bits());
    assert!(m.fit_bias());
    assert!(m.is_fit());
}

#[test]
fn bias_flag_follows_epsilon_threshold() {
    let coeffs = bits(&[1.0]);
    let m = LR::from_values(&coeffs, 0.0f64.to_bits());
    assert!(!m.fit_bias());
    let m = LR::from_values(&coeffs, f64::EPSILON.to_bits());
    assert!(!m.fit_bias());
    let m = LR::from_values(&coeffs, (2.0 * f64::EPSILON).to_bits());
    assert!(m.fit_bias());
    assert!(m.should_add_bias());
    let m = LR::from_values(&coeffs, 1.0f64.to_bits());
    assert!(m.fit_bias());
}

#[test]
fn fit_dims_mismatch_is_rejected() {
    // Three rows of X against four rows of y.
    assert_eq!(check_fit_dims(3, 2, 4), Err(LinalgErrors::DimensionMismatch));
    assert_eq!(check_elastic_fit_dims(3, 4), Err(LinalgErrors::DimensionMismatch));
}

#[test]
fn fit_dims_not_enough_data() {
    assert_eq!(check_fit_dims(2, 3, 2), Err(LinalgErrors::NotEnoughData));
    assert_eq!(check_fit_dims(0, 0, 0), Err(LinalgErrors::NotEnoughData));
    // The elastic-net path tolerates more features than rows.
    assert_eq!(check_elastic_fit_dims(2, 2), Ok(()));
    assert_eq!(check_elastic_fit_dims(0, 0), Err(LinalgErrors::NotEnoughData));
}

#[test]
fn fit_dims_accepted() {
    assert_eq!(check_fit_dims(3, 2, 3), Ok(()));
    assert_eq!(check_fit_dims(3, 3, 3), Ok(()));
}

#[test]
fn predict_on_unfit_model_is_model_not_fit() {
    let m = LR::new("qr", 0.0f64.to_bits(), true);
    assert_eq!(m.check_predict_dims(2), Err(LinalgErrors::MatNotLearnedYet));
    assert_eq!(m.coeffs_as_vec(), Err(LinalgErrors::MatNotLearnedYet));
    assert_eq!(m.check_is_fit(), Err(LinalgErrors::MatNotLearnedYet));
}

#[test]
fn predict_dims_checked_on_fit_model() {
    let m = LR::from_values(&bits(&[2.0, 0.0]), 0.0f64.to_bits());
    assert_eq!(m.check_predict_dims(2), Ok(()));
    assert_eq!(m.check_predict_dims(3), Err(LinalgErrors::DimensionMismatch));
}

#[test]
fn lr_apply_solution_peels_bias() {
    let mut m = LR::new("qr", 0.0f64.to_bits(), true);
    m.apply_solution(bits(&[2.0, 3.0, 0.25]));
    assert_eq!(m.coefficients(), &bits(&[2.0, 3.0]));
    assert_eq!(m.bias(), 0.25f64.to_bits());
}

#[test]
fn lr_apply_solution_without_bias() {
    let mut m = LR::new("qr", 0.0f64.to_bits(), false);
    m.apply_solution(bits(&[2.0, 3.0]));
    assert_eq!(m.coefficients(), &bits(&[2.0, 3.0]));
    assert_eq!(m.bias(), 0.0f64.to_bits());
}

#[test]
fn online_lr_starts_unfit() {
    let m = OnlineLR::new(0.0f64.to_bits(), false);
    assert!(!m.is_fit());
    assert!(matches!(m.get_inv(), Err(LinalgErrors::MatNotLearnedYet)));
}

#[test]
fn online_lr_set_coeffs_bias_inverse_checks_dims() {
    let mut m = OnlineLR::new(0.0f64.to_bits(), false);
    let inv = BitMat::from_rows(vec![bits(&[1.0, 0.0]), bits(&[0.0, 1.0])], 2).unwrap();
    // Three coefficients against a 2 x 2 inverse.
    assert_eq!(
        m.set_coeffs_bias_inverse(&bits(&[1.0, 2.0, 3.0]), 0.0f64.to_bits(), &inv),
        Err(LinalgErrors::DimensionMismatch)
    );
    assert!(!m.is_fit());
    assert_eq!(m.set_coeffs_bias_inverse(&bits(&[1.0, 2.0]), 0.5f64.to_bits(), &inv), Ok(()));
    assert_eq!(m.coefficients(), &bits(&[1.0, 2.0]));
    assert_eq!(m.bias(), 0.5f64.to_bits());
    let got = m.get_inv().unwrap();
    assert_eq!(got.nrows(), 2);
    assert_eq!(got.ncols(), 2);
    assert_eq!(got.row(0), &bits(&[1.0, 0.0]));
    assert_eq!(got.row(1), &bits(&[0.0, 1.0]));
}

#[test]
fn online_lr_weights_with_bias_appends_bias() {
    let mut m = OnlineLR::new(0.0f64.to_bits(), true);
    let inv = BitMat::from_rows(vec![bits(&[1.0])], 1).unwrap();
    m.apply_solution(inv, bits(&[2.0, 0.25]));
    assert_eq!(m.coefficients(), &bits(&[2.0]));
    assert_eq!(m.bias(), 0.25f64.to_bits());
    assert_eq!(m.weights_with_bias(), bits(&[2.0, 0.25]));
}

#[test]
fn online_lr_apply_solution_without_bias_keeps_whole_vector() {
    let mut m = OnlineLR::new(0, false);
    let inv = BitMat::from_rows(vec![bits(&[1.0, 0.0]), bits(&[0.0, 1.0])], 2).unwrap();
    m.apply_solution(inv, bits(&[2.0, 3.0]));
    assert_eq!(m.coefficients(), &bits(&[2.0, 3.0]));
    assert_eq!(m.bias(), 0);
    assert!(m.get_inv().is_ok());
}

#[test]
fn elastic_net_new_and_regularizers() {
    let m = ElasticNet::new(
        0.1f64.to_bits(),
        0.2f64.to_bits(),
        false,
        1e-7f64.to_bits(),
        500,
    );
    assert_eq!(m.regularizers(), (0.1f64.to_bits(), 0.2f64.to_bits()));
    assert_eq!(m.max_iter, 500);
    assert!(!m.is_fit());
}

#[test]
fn elastic_net_from_values_has_nan_regularizers() {
    let m = ElasticNet::from_values(&bits(&[1.0]), 0.0f64.to_bits());
    let (l1, l2) = m.regularizers();
    assert!(f64::from_bits(l1).is_nan());
    assert!(f64::from_bits(l2).is_nan());
    assert_eq!(m.tol, 1e-5f64.to_bits());
    assert_eq!(DEFAULT_ELASTIC_TOL_BITS, 1e-5f64.to_bits());
    assert_eq!(m.max_iter, DEFAULT_ELASTIC_MAX_ITER);
}

#[test]
fn elastic_net_set_then_get_round_trip() {
    let coeffs = bits(&[0.5, -0.25]);
    let mut m = ElasticNet::new(0, 0, false, DEFAULT_ELASTIC_TOL_BITS, 100);
    m.set_coeffs_and_bias(&coeffs, 2.0f64.to_bits());
    assert_eq!(m.coefficients(), &coeffs);
    assert_eq!(m.bias(), 2.0f64.to_bits());
    assert!(m.fit_bias());
}
