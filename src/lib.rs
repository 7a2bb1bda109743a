//! Single-pass signal processing: stateful filters, sinks and sources that
//! consume or produce one value at a time, and the combinators that chain them.
//!
//! - `traits`: the transform (`Filter`), accumulate (`Sink`) and produce
//!   (`Source`) capabilities, each method specified through spec hooks.
//! - `circular_buffer`: the fixed-capacity ring buffer behind the moving averages.
//! - `filter_pipe`, `sink_pipe`, `source_pipe`: single-stage wrappers and binary chains.
//! - `slopes`, `peaks`: slope and peak classifiers.
//! - `kalman`, `alpha_beta`: online estimators.
//! - `mean`, `mean_variance`: bounded moving mean and variance; `welford`:
//!   the unbounded mean/variance sink.
//! - `schmitt`, `debounce`: hysteresis units.
//! - `identity`, `div`, `differentiate`, `sum`, `last`, `increment`, `constant`,
//!   `unit_system`: small units.
//! - `numeric`: the arithmetic that the estimators ask of their values.
//! - `laws`: properties of whole runs of the units.
use vstd::prelude::*;

pub mod alpha_beta;
pub mod circular_buffer;
pub mod constant;
pub mod debounce;
pub mod differentiate;
pub mod div;
pub mod filter_pipe;
pub mod identity;
pub mod increment;
pub mod kalman;
pub mod last;
pub mod laws;
pub mod mean;
pub mod mean_variance;
pub mod numeric;
pub mod peaks;
pub mod schmitt;
pub mod sink_pipe;
pub mod slopes;
pub mod source_pipe;
pub mod sum;
pub mod traits;
pub mod unit_system;
pub mod welford;
