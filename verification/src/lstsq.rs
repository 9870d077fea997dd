//! The regression models and their shared contract.
//!
//! Every model keeps a coefficient vector of double bit patterns (empty
//! until fitted), a bias slot, and its hyperparameters. The floating-point
//! solves happen outside this crate; what is owned and proved here is the
//! state a model carries between solves: which inputs a fit admits, how a
//! joint solution vector is split into coefficients and bias, when a bias
//! is broadcast into predictions, and that coefficients and bias are only
//! ever replaced together.

use vstd::prelude::*;
use vstd::slice::slice_to_vec;

use crate::bits::{abs_gt_epsilon, abs_gt_epsilon_bits, copy_bits_vec, QUIET_NAN_BITS};
use crate::errors::LinalgErrors;
use crate::matrix::BitMat;
use crate::methods::{solver_from_chars, LRSolverMethods};

verus! {

/// Bit pattern of the default elastic-net convergence threshold, 1e-5.
pub const DEFAULT_ELASTIC_TOL_BITS: u64 = 0x3ee4_f8b5_88e3_68f1;

/// Default cap on coordinate-descent sweeps.
pub const DEFAULT_ELASTIC_MAX_ITER: usize = 2000;

/// Exact rule for admitting a closed-form fit: X and y must have the same
/// number of rows, and there must be at least as many rows as features and
/// at least one row.
pub open spec fn spec_check_fit_dims(x_rows: int, x_cols: int, y_rows: int) -> Result<
    (),
    LinalgErrors,
> {
    if x_rows != y_rows {
        Err(LinalgErrors::DimensionMismatch)
    } else if x_rows < x_cols || x_rows == 0 || y_rows == 0 {
        Err(LinalgErrors::NotEnoughData)
    } else {
        Ok(())
    }
}

/// Admits a closed-form fit of an n x p design matrix against an n x 1
/// target; see [`spec_check_fit_dims`] for the exact rule.
pub fn check_fit_dims(x_rows: usize, x_cols: usize, y_rows: usize) -> (r: Result<
    (),
    LinalgErrors,
>)
    ensures
        r == spec_check_fit_dims(x_rows as int, x_cols as int, y_rows as int),
{
    if x_rows != y_rows {
        Err(LinalgErrors::DimensionMismatch)
    } else if x_rows < x_cols || x_rows == 0 || y_rows == 0 {
        Err(LinalgErrors::NotEnoughData)
    } else {
        Ok(())
    }
}

/// Exact rule for admitting an elastic-net fit: as [`spec_check_fit_dims`]
/// but without the rows >= columns demand, since coordinate descent
/// tolerates more features than observations.
pub open spec fn spec_check_elastic_fit_dims(x_rows: int, y_rows: int) -> Result<
    (),
    LinalgErrors,
> {
    if x_rows != y_rows {
        Err(LinalgErrors::DimensionMismatch)
    } else if x_rows == 0 || y_rows == 0 {
        Err(LinalgErrors::NotEnoughData)
    } else {
        Ok(())
    }
}

/// Admits an elastic-net fit; see [`spec_check_elastic_fit_dims`].
pub fn check_elastic_fit_dims(x_rows: usize, y_rows: usize) -> (r: Result<(), LinalgErrors>)
    ensures
        r == spec_check_elastic_fit_dims(x_rows as int, y_rows as int),
{
    if x_rows != y_rows {
        Err(LinalgErrors::DimensionMismatch)
    } else if x_rows == 0 || y_rows == 0 {
        Err(LinalgErrors::NotEnoughData)
    } else {
        Ok(())
    }
}

/// Exact rule for admitting a prediction: the model must have been fitted
/// (else the caller learns `MatNotLearnedYet`, never an empty result), and
/// the design matrix must have one column per coefficient.
pub open spec fn spec_check_predict_dims(x_cols: int, n_coeffs: int) -> Result<
    (),
    LinalgErrors,
> {
    if n_coeffs == 0 {
        Err(LinalgErrors::MatNotLearnedYet)
    } else if x_cols != n_coeffs {
        Err(LinalgErrors::DimensionMismatch)
    } else {
        Ok(())
    }
}

/// The contract shared by every regression model: read-only access to the
/// fitted state, the fit-state test, and the exact admission rule for
/// predictions.
pub trait LinearRegression: Sized {
    /// The coefficient vector the model currently holds, one double bit
    /// pattern per true feature; empty means unfit.
    spec fn coeffs_view(&self) -> Seq<u64>;

    /// The bias slot, as a double bit pattern.
    spec fn bias_view(&self) -> u64;

    /// Whether the model tracks a bias jointly with the features.
    spec fn fit_bias_view(&self) -> bool;

    /// Borrows the coefficients.
    fn coefficients(&self) -> (r: &Vec<u64>)
        ensures
            r@ == self.coeffs_view(),
    ;

    /// The bias scalar's bit pattern.
    fn bias(&self) -> (r: u64)
        ensures
            r == self.bias_view(),
    ;

    /// Whether a bias is modeled.
    fn fit_bias(&self) -> (r: bool)
        ensures
            r == self.fit_bias_view(),
    ;

    /// Returns a copy of the coefficients.
    fn get_coefficients(&self) -> (r: Vec<u64>)
        ensures
            r@ == self.coeffs_view(),
    {
        copy_bits_vec(self.coefficients())
    }

    /// A model is fit exactly when its coefficient container is non-empty.
    fn is_fit(&self) -> (r: bool)
        ensures
            r == (self.coeffs_view().len() != 0),
    {
        self.coefficients().len() != 0
    }

    /// Fails with `MatNotLearnedYet` exactly on an unfit model.
    fn check_is_fit(&self) -> (r: Result<(), LinalgErrors>)
        ensures
            r is Ok <==> self.coeffs_view().len() != 0,
            r matches Err(e) ==> e == LinalgErrors::MatNotLearnedYet,
    {
        if self.is_fit() {
            Ok(())
        } else {
            Err(LinalgErrors::MatNotLearnedYet)
        }
    }

    /// The coefficients as a plain vector, or `MatNotLearnedYet` exactly on
    /// an unfit model.
    fn coeffs_as_vec(&self) -> (r: Result<Vec<u64>, LinalgErrors>)
        ensures
            self.coeffs_view().len() != 0 ==> (r matches Ok(v) && v@ == self.coeffs_view()),
            self.coeffs_view().len() == 0 ==> (r matches Err(e) && e
                == LinalgErrors::MatNotLearnedYet),
    {
        match self.check_is_fit() {
            Ok(_) => Ok(self.get_coefficients()),
            Err(e) => Err(e),
        }
    }

    /// Admits a prediction on a design matrix with `x_cols` columns; see
    /// [`spec_check_predict_dims`] for the exact rule.
    fn check_predict_dims(&self, x_cols: usize) -> (r: Result<(), LinalgErrors>)
        ensures
            r == spec_check_predict_dims(x_cols as int, self.coeffs_view().len() as int),
    {
        if self.coefficients().len() == 0 {
            Err(LinalgErrors::MatNotLearnedYet)
        } else if x_cols != self.coefficients().len() {
            Err(LinalgErrors::DimensionMismatch)
        } else {
            Ok(())
        }
    }

    /// Whether predictions broadcast-add the bias: only when a bias is
    /// modeled and its magnitude exceeds machine epsilon.
    fn should_add_bias(&self) -> (r: bool)
        ensures
            r == (self.fit_bias_view() && abs_gt_epsilon_bits(self.bias_view())),
    {
        self.fit_bias() && abs_gt_epsilon(self.bias())
    }
}

/// Ordinary linear regression and ridge regression via the normal
/// equations.
pub struct LR {
    /// Decomposition used for the solve.
    pub solver: LRSolverMethods,
    /// Ridge strength as a double bit pattern; zero means unregularized.
    pub lambda: u64,
    /// One bit pattern per true feature; empty until fit. Never contains
    /// the bias.
    pub coefficients: Vec<u64>,
    /// Whether a ones column is appended and its coefficient peeled off
    /// into `bias`.
    pub fit_bias: bool,
    /// Bias as a double bit pattern.
    pub bias: u64,
}

/// How `set_coeffs_and_bias` changes an ordinary/ridge model: the
/// coefficient/bias pair is replaced atomically, the bias flag follows
/// whether the bias magnitude exceeds machine epsilon, and the
/// hyperparameters stay.
pub open spec fn lr_set_spec(pre: LR, coeffs: Seq<u64>, bias: u64, post: LR) -> bool {
    &&& post.coefficients@ == coeffs
    &&& post.bias == bias
    &&& post.fit_bias == abs_gt_epsilon_bits(bias)
    &&& post.solver == pre.solver
    &&& post.lambda == pre.lambda
}

impl LR {
    /// A fresh, unfit model with the named solver and ridge strength.
    pub fn new(solver: &str, lambda: u64, fit_bias: bool) -> (r: Self)
        ensures
            r.solver == solver_from_chars(solver@),
            r.lambda == lambda,
            r.coefficients@ =~= Seq::<u64>::empty(),
            r.fit_bias == fit_bias,
            r.bias == 0,
    {
        LR {
            solver: LRSolverMethods::from(solver),
            lambda,
            coefficients: Vec::new(),
            fit_bias,
            bias: 0,
        }
    }

    /// A model restored from known coefficients and bias; it counts as fit,
    /// and tracks a bias exactly when the given bias magnitude exceeds
    /// machine epsilon.
    pub fn from_values(coeffs: &[u64], bias: u64) -> (r: Self)
        ensures
            r.solver == LRSolverMethods::QR,
            r.lambda == 0,
            r.coefficients@ == coeffs@,
            r.fit_bias == abs_gt_epsilon_bits(bias),
            r.bias == bias,
    {
        LR {
            solver: LRSolverMethods::QR,
            lambda: 0,
            coefficients: slice_to_vec(coeffs),
            fit_bias: abs_gt_epsilon(bias),
            bias,
        }
    }

    /// Replaces the coefficient/bias pair atomically and keeps the bias
    /// flag consistent with the new bias magnitude.
    pub fn set_coeffs_and_bias(&mut self, coeffs: &[u64], bias: u64)
        ensures
            lr_set_spec(*old(self), coeffs@, bias, *final(self)),
    {
        self.coefficients = slice_to_vec(coeffs);
        self.bias = bias;
        self.fit_bias = abs_gt_epsilon(bias);
    }

    /// Installs the joint solution of one solve. With a bias tracked, the
    /// solution's last entry is peeled off into the bias scalar and the
    /// rest become the coefficients; otherwise the whole solution is the
    /// coefficient vector and the bias is untouched.
    pub fn apply_solution(&mut self, all_coefficients: Vec<u64>)
        requires
            old(self).fit_bias ==> all_coefficients@.len() >= 1,
        ensures
            final(self).solver == old(self).solver,
            final(self).lambda == old(self).lambda,
            final(self).fit_bias == old(self).fit_bias,
            old(self).fit_bias ==> final(self).coefficients@ == all_coefficients@.take(
                all_coefficients@.len() - 1,
            ) && final(self).bias == all_coefficients@.last(),
            !old(self).fit_bias ==> final(self).coefficients@ == all_coefficients@
                && final(self).bias == old(self).bias,
    {
        let mut joint = all_coefficients;
        if self.fit_bias {
            let b = joint.pop().unwrap();
            self.coefficients = joint;
            self.bias = b;
        } else {
            self.coefficients = joint;
        }
    }
}

impl LinearRegression for LR {
    open spec fn coeffs_view(&self) -> Seq<u64> {
        self.coefficients@
    }

    open spec fn bias_view(&self) -> u64 {
        self.bias
    }

    open spec fn fit_bias_view(&self) -> bool {
        self.fit_bias
    }

    fn coefficients(&self) -> (r: &Vec<u64>) {
        &self.coefficients
    }

    fn bias(&self) -> (r: u64) {
        self.bias
    }

    fn fit_bias(&self) -> (r: bool) {
        self.fit_bias
    }
}

/// Law: setting coefficients and bias on an ordinary/ridge model and then
/// reading them back returns exactly the values set.
pub proof fn lemma_lr_set_then_get_round_trip(pre: LR, coeffs: Seq<u64>, bias: u64, post: LR)
    requires
        lr_set_spec(pre, coeffs, bias, post),
    ensures
        post.coeffs_view() == coeffs,
        post.bias_view() == bias,
{
}

/// Online linear regression: besides the fitted state it co-owns the
/// inverse information matrix (X^t X + lambda I)^-1 of the current window,
/// which each Woodbury rank-1 step replaces together with the weights.
pub struct OnlineLR {
    /// Ridge strength as a double bit pattern.
    pub lambda: u64,
    /// Whether a bias slot rides along as the last entry of the joint
    /// weight vector during fits and updates.
    pub fit_bias: bool,
    /// Bias as a double bit pattern.
    pub bias: u64,
    /// One bit pattern per true feature; empty until fit.
    pub coefficients: Vec<u64>,
    /// Inverse of the information matrix at the current window state;
    /// 0 x 0 until fit, only ever read from outside.
    pub inv: BitMat,
}

impl OnlineLR {
    /// The dimensional invariant of a fitted online model: the inverse
    /// information matrix is square, with one row per coefficient, plus
    /// one when a bias rides along in the joint weight vector.
    pub open spec fn consistent_dims(&self) -> bool {
        &&& self.inv@.len() == self.inv.spec_ncols()
        &&& self.inv@.len() == self.coefficients@.len() + (if self.fit_bias {
            1int
        } else {
            0int
        })
    }

    /// A fresh, unfit online model.
    pub fn new(lambda: u64, fit_bias: bool) -> (r: Self)
        ensures
            r.lambda == lambda,
            r.fit_bias == fit_bias,
            r.bias == 0,
            r.coefficients@ =~= Seq::<u64>::empty(),
            r.inv@.len() == 0,
            r.inv.spec_ncols() == 0,
            r.inv.wf(),
    {
        OnlineLR {
            lambda,
            fit_bias,
            bias: 0,
            coefficients: Vec::new(),
            inv: BitMat::empty(),
        }
    }

    /// Restores a fitted state from known coefficients, bias and inverse
    /// information matrix. Rejected with `DimensionMismatch` exactly when
    /// the inverse's column count does not match the coefficient count; on
    /// rejection the model is untouched.
    pub fn set_coeffs_bias_inverse(&mut self, coeffs: &[u64], bias: u64, inv: &BitMat) -> (r:
        Result<(), LinalgErrors>)
        ensures
            r is Ok <==> coeffs@.len() == inv.spec_ncols(),
            r matches Err(e) ==> e == LinalgErrors::DimensionMismatch && *final(self) == *old(
                self,
            ),
            r is Ok ==> {
                &&& final(self).coefficients@ == coeffs@
                &&& final(self).bias == bias
                &&& final(self).inv@ == inv@
                &&& final(self).inv.spec_ncols() == inv.spec_ncols()
                &&& final(self).lambda == old(self).lambda
                &&& final(self).fit_bias == old(self).fit_bias
            },
    {
        if coeffs.len() != inv.ncols() {
            Err(LinalgErrors::DimensionMismatch)
        } else {
            self.bias = bias;
            self.coefficients = slice_to_vec(coeffs);
            self.inv = inv.clone();
            Ok(())
        }
    }

    /// Read-only access to the inverse information matrix;
    /// `MatNotLearnedYet` exactly while it still has the unfit 0 x 0 shape.
    pub fn get_inv(&self) -> (r: Result<&BitMat, LinalgErrors>)
        ensures
            r is Ok <==> !(self.inv@.len() == 0 && self.inv.spec_ncols() == 0),
            r matches Ok(m) ==> m@ == self.inv@ && m.spec_ncols() == self.inv.spec_ncols(),
            r matches Err(e) ==> e == LinalgErrors::MatNotLearnedYet,
    {
        if self.inv.nrows() == 0 && self.inv.ncols() == 0 {
            Err(LinalgErrors::MatNotLearnedYet)
        } else {
            Ok(&self.inv)
        }
    }

    /// The joint weight vector handed to a solve or a Woodbury step while a
    /// bias is tracked: the coefficients with the bias appended as the last
    /// slot.
    pub fn weights_with_bias(&self) -> (r: Vec<u64>)
        ensures
            r@ == self.coefficients@.push(self.bias),
    {
        let mut r = copy_bits_vec(&self.coefficients);
        r.push(self.bias);
        r
    }

    /// Installs the outcome of one solve or one Woodbury rank-1 step: the
    /// new inverse information matrix together with the new joint weight
    /// vector. With a bias tracked, the last entry of the weights is peeled
    /// off into the bias scalar; the coefficient/bias pair and the inverse
    /// are replaced together, never partially.
    pub fn apply_solution(&mut self, inv: BitMat, weights: Vec<u64>)
        requires
            old(self).fit_bias ==> weights@.len() >= 1,
        ensures
            final(self).lambda == old(self).lambda,
            final(self).fit_bias == old(self).fit_bias,
            final(self).inv@ == inv@,
            final(self).inv.spec_ncols() == inv.spec_ncols(),
            old(self).fit_bias ==> final(self).coefficients@ == weights@.take(weights@.len() - 1)
                && final(self).bias == weights@.last(),
            !old(self).fit_bias ==> final(self).coefficients@ == weights@
                && final(self).bias == old(self).bias,
            (inv@.len() == inv.spec_ncols() && inv@.len() == weights@.len())
                ==> final(self).consistent_dims(),
    {
        let mut joint = weights;
        self.inv = inv;
        if self.fit_bias {
            let b = joint.pop().unwrap();
            self.coefficients = joint;
            self.bias = b;
        } else {
            self.coefficients = joint;
        }
    }
}

impl LinearRegression for OnlineLR {
    open spec fn coeffs_view(&self) -> Seq<u64> {
        self.coefficients@
    }

    open spec fn bias_view(&self) -> u64 {
        self.bias
    }

    open spec fn fit_bias_view(&self) -> bool {
        self.fit_bias
    }

    fn coefficients(&self) -> (r: &Vec<u64>) {
        &self.coefficients
    }

    fn bias(&self) -> (r: u64) {
        self.bias
    }

    fn fit_bias(&self) -> (r: bool) {
        self.fit_bias
    }
}

/// Law: splitting a joint weight vector after a Woodbury step undoes
/// appending the bias before it -- an update that leaves the joint weights
/// unchanged leaves the coefficient/bias pair unchanged.
pub proof fn lemma_weights_with_bias_round_trip(coeffs: Seq<u64>, bias: u64)
    ensures
        coeffs.push(bias).take(coeffs.push(bias).len() - 1) == coeffs,
        coeffs.push(bias).last() == bias,
{
    assert(coeffs.push(bias).take(coeffs.push(bias).len() - 1) =~= coeffs);
}

/// Lasso and elastic-net regression via coordinate descent.
pub struct ElasticNet {
    /// L1 strength as a double bit pattern.
    pub l1_reg: u64,
    /// L2 strength as a double bit pattern.
    pub l2_reg: u64,
    /// One bit pattern per true feature; empty until fit.
    pub coefficients: Vec<u64>,
    /// Whether a ones column is appended and its coefficient peeled off
    /// into `bias`.
    pub fit_bias: bool,
    /// Bias as a double bit pattern.
    pub bias: u64,
    /// Convergence threshold for the maximum coordinate change, as a
    /// double bit pattern.
    pub tol: u64,
    /// Cap on coordinate-descent sweeps.
    pub max_iter: usize,
}

/// How `set_coeffs_and_bias` changes an elastic-net model: the
/// coefficient/bias pair is replaced atomically, the bias flag follows
/// whether the bias magnitude exceeds machine epsilon, and the
/// hyperparameters stay.
pub open spec fn elastic_net_set_spec(
    pre: ElasticNet,
    coeffs: Seq<u64>,
    bias: u64,
    post: ElasticNet,
) -> bool {
    &&& post.coefficients@ == coeffs
    &&& post.bias == bias
    &&& post.fit_bias == abs_gt_epsilon_bits(bias)
    &&& post.l1_reg == pre.l1_reg
    &&& post.l2_reg == pre.l2_reg
    &&& post.tol == pre.tol
    &&& post.max_iter == pre.max_iter
}

impl ElasticNet {
    /// A fresh, unfit elastic-net model.
    pub fn new(l1_reg: u64, l2_reg: u64, fit_bias: bool, tol: u64, max_iter: usize) -> (r: Self)
        ensures
            r.l1_reg == l1_reg,
            r.l2_reg == l2_reg,
            r.coefficients@ =~= Seq::<u64>::empty(),
            r.fit_bias == fit_bias,
            r.bias == 0,
            r.tol == tol,
            r.max_iter == max_iter,
    {
        ElasticNet { l1_reg, l2_reg, coefficients: Vec::new(), fit_bias, bias: 0, tol, max_iter }
    }

    /// A model restored from known coefficients and bias. The regularizers
    /// are deliberately NaN -- they were never part of a fit -- and the
    /// tolerance and sweep cap take their defaults.
    pub fn from_values(coeffs: &[u64], bias: u64) -> (r: Self)
        ensures
            r.l1_reg == QUIET_NAN_BITS,
            r.l2_reg == QUIET_NAN_BITS,
            r.coefficients@ == coeffs@,
            r.fit_bias == abs_gt_epsilon_bits(bias),
            r.bias == bias,
            r.tol == DEFAULT_ELASTIC_TOL_BITS,
            r.max_iter == DEFAULT_ELASTIC_MAX_ITER,
    {
        ElasticNet {
            l1_reg: QUIET_NAN_BITS,
            l2_reg: QUIET_NAN_BITS,
            coefficients: slice_to_vec(coeffs),
            fit_bias: abs_gt_epsilon(bias),
            bias,
            tol: DEFAULT_ELASTIC_TOL_BITS,
            max_iter: DEFAULT_ELASTIC_MAX_ITER,
        }
    }

    /// Replaces the coefficient/bias pair atomically and keeps the bias
    /// flag consistent with the new bias magnitude.
    pub fn set_coeffs_and_bias(&mut self, coeffs: &[u64], bias: u64)
        ensures
            elastic_net_set_spec(*old(self), coeffs@, bias, *final(self)),
    {
        self.coefficients = slice_to_vec(coeffs);
        self.bias = bias;
        self.fit_bias = abs_gt_epsilon(bias);
    }

    /// The pair of regularization strengths (L1 first).
    pub fn regularizers(&self) -> (r: (u64, u64))
        ensures
            r.0 == self.l1_reg,
            r.1 == self.l2_reg,
    {
        (self.l1_reg, self.l2_reg)
    }

    /// Installs the joint solution of one coordinate-descent run, peeling
    /// the bias off the last slot when one is tracked.
    pub fn apply_solution(&mut self, all_coefficients: Vec<u64>)
        requires
            old(self).fit_bias ==> all_coefficients@.len() >= 1,
        ensures
            final(self).l1_reg == old(self).l1_reg,
            final(self).l2_reg == old(self).l2_reg,
            final(self).fit_bias == old(self).fit_bias,
            final(self).tol == old(self).tol,
            final(self).max_iter == old(self).max_iter,
            old(self).fit_bias ==> final(self).coefficients@ == all_coefficients@.take(
                all_coefficients@.len() - 1,
            ) && final(self).bias == all_coefficients@.last(),
            !old(self).fit_bias ==> final(self).coefficients@ == all_coefficients@
                && final(self).bias == old(self).bias,
    {
        let mut joint = all_coefficients;
        if self.fit_bias {
            let b = joint.pop().unwrap();
            self.coefficients = joint;
            self.bias = b;
        } else {
            self.coefficients = joint;
        }
    }
}

impl LinearRegression for ElasticNet {
    open spec fn coeffs_view(&self) -> Seq<u64> {
        self.coefficients@
    }

    open spec fn bias_view(&self) -> u64 {
        self.bias
    }

    open spec fn fit_bias_view(&self) -> bool {
        self.fit_bias
    }

    fn coefficients(&self) -> (r: &Vec<u64>) {
        &self.coefficients
    }

    fn bias(&self) -> (r: u64) {
        self.bias
    }

    fn fit_bias(&self) -> (r: bool) {
        self.fit_bias
    }
}

/// Law: setting coefficients and bias on an elastic-net model and then
/// reading them back returns exactly the values set.
pub proof fn lemma_elastic_net_set_then_get_round_trip(
    pre: ElasticNet,
    coeffs: Seq<u64>,
    bias: u64,
    post: ElasticNet,
)
    requires
        elastic_net_set_spec(pre, coeffs, bias, post),
    ensures
        post.coeffs_view() == coeffs,
        post.bias_view() == bias,
{
}

} // verus!
