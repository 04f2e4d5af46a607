//! Inference with beta calibration models.
//!
//! A beta calibration model maps an uncalibrated probability `p` to a
//! calibrated one by evaluating a few logarithmic features of `p`, combining
//! them linearly with learned weights and an intercept, and applying the
//! logistic function. This crate holds the part of that pipeline that is
//! decided by rules rather than by floating-point arithmetic, and proves it:
//!
//! - [`float_bits`]: binary64 values carried as their IEEE-754 bit patterns,
//!   the finiteness and ordering predicates over those patterns, and the
//!   clamping of a probability into the open unit interval;
//! - [`method`]: the calibration methods, how many weights each expects and
//!   which features each evaluates;
//! - [`model`]: the model record, its validation, the pairing of features with
//!   weights, and the checking of batches of input probabilities.
//!
//! The numeric kernel (logarithms, dot product, logistic function) runs on
//! the values that this crate has checked and prepared.

pub mod float_bits;
pub mod method;
pub mod model;

pub use method::CalibrationMethod;
pub use model::{BetaCalModel, InferenceError};
