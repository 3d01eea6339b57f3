//! Decision core of a training/validation epoch: iteration numbering,
//! gradient-accumulation windows, lock-step multi-device iterations,
//! cooperative cancellation and the end-of-epoch signal.
//!
//! The data source, the model, the optimizer, the learning-rate schedule and
//! the event observer stay with the caller, which asks the runs in this crate
//! what to do with each item it fetched.

pub mod accumulation;
pub mod epoch;
pub mod laws;
