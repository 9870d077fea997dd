//! Core logic of a family of linear least-squares solvers: ordinary and ridge
//! regression via the normal equations, elastic-net via coordinate descent,
//! and incremental (online / rolling / rolling-with-skipping) variants built
//! on rank-1 updates of the inverse information matrix.
//!
//! Numeric entries are carried as IEEE-754 double-precision bit patterns
//! (`u64`), which lets every decision the engine makes about a value --
//! NaN guards, epsilon tests, sign tests -- be stated and proved exactly at
//! the bit level. The floating-point kernels themselves (decompositions,
//! matrix products, the Woodbury step) live outside this crate; this crate
//! owns the state kept between those calls, the validation of every input,
//! and the schedule of fits and rank-1 updates that the windowed drivers
//! perform.

pub mod bits;
pub mod drivers;
pub mod errors;
pub mod matrix;
pub mod lstsq;
pub mod methods;
