//! Core logic of a windowed audio impact detector: window sizing from the
//! sample rate, a single-slot handoff with latest-wins semantics, band-energy
//! detection over a quantized spectrum, and a round-robin, rate-limited
//! reaction driver.

use vstd::prelude::*;

pub mod appearance;
pub mod channel;
pub mod config;
pub mod reaction;
pub mod spectrum;

verus! {

/// Errors that abort setup before the pipeline starts.
#[derive(Clone, Copy, Debug, PartialEq, Eq, Structural)]
pub enum SetupError {
    /// The resolution constant was zero, so no window length can be derived.
    ZeroResolution,
    /// The derived window length was zero (sample rate below the resolution).
    ZeroWindowLength,
    /// Target enumeration returned no targets to react against.
    EmptyTargetSet,
}

} // verus!
