//! Incremental stabilization engine for a ranked catalog of rated items.
//!
//! The library holds the verified core: the adaptive backoff token, the
//! resumable running average, the trust classification, the backpressure
//! rule, and the per-iteration decision logic of the two stabilization
//! workers and their coordinator. Network and storage access live outside
//! the library and feed these functions plain values.

pub mod avg;
pub mod catalog;
pub mod control;
pub mod engine;
pub mod token;

use vstd::prelude::*;

verus! {

/// A rater's name, as reported by the remote source.
pub type User = String;

} // verus!
