//! Window sizing for the spectral analyzer.
//!
//! The analyzer snapshots fixed-length windows of the sample stream; the
//! window length is derived once at startup as `sample_rate / resolution`,
//! so each frequency bin of the transform spans `resolution` Hz. A zero
//! window length would make every later step meaningless (and a transform of
//! length zero impossible), so derivation fails fast instead.

use vstd::prelude::*;
use crate::SetupError;

verus! {

/// Fixed sizing of analysis windows, derived once at startup.
#[derive(Clone, Copy, Debug, PartialEq, Eq, Structural)]
pub struct AnalyzerConfig {
    /// Samples per second of the audio stream.
    pub sample_rate: u32,
    /// Frequency granularity of the detector, in Hz per bin.
    pub resolution: u32,
    /// Number of samples per analysis window: `sample_rate / resolution`.
    pub window_length: usize,
}

impl AnalyzerConfig {
    /// The configuration is internally consistent: the window length is the
    /// one derived from the rate and the resolution, and is positive.
    pub open spec fn wf(self) -> bool {
        &&& self.resolution > 0
        &&& self.window_length == self.sample_rate as int / self.resolution as int
        &&& self.window_length > 0
    }

    /// Derive the window length, rejecting inputs that would give a zero-length
    /// window: a zero resolution, or a sample rate below the resolution.
    pub fn new(sample_rate: u32, resolution: u32) -> (r: Result<AnalyzerConfig, SetupError>)
        ensures
            r is Ok <==> resolution > 0 && sample_rate >= resolution,
            resolution == 0 ==> r == Result::<AnalyzerConfig, SetupError>::Err(SetupError::ZeroResolution),
            resolution > 0 && sample_rate < resolution ==> r == Result::<AnalyzerConfig, SetupError>::Err(SetupError::ZeroWindowLength),
            r matches Ok(c) ==> c.wf() && c.sample_rate == sample_rate && c.resolution == resolution,
    {
        if resolution == 0 {
            return Err(SetupError::ZeroResolution);
        }
        proof {
            assert((sample_rate as int / resolution as int == 0) <==> sample_rate < resolution)
                by (nonlinear_arith)
                requires resolution > 0,
            ;
        }
        let window_length: usize = (sample_rate / resolution) as usize;
        if window_length == 0 {
            return Err(SetupError::ZeroWindowLength);
        }
        Ok(AnalyzerConfig { sample_rate, resolution, window_length })
    }

    /// The frequency, in Hz, that bin `k` of a transform of one window
    /// represents: `k * sample_rate / window_length`.
    pub fn bin_frequency(&self, k: usize) -> (f: u64)
        requires
            self.wf(),
            k <= u32::MAX,
        ensures
            f == (k as int * self.sample_rate as int) / self.window_length as int,
    {
        proof {
            assert(k as int * self.sample_rate as int <= 0xFFFF_FFFF * 0xFFFF_FFFF)
                by (nonlinear_arith)
                requires k <= 0xFFFF_FFFF && self.sample_rate <= 0xFFFF_FFFF,
            ;
        }
        (k as u64 * self.sample_rate as u64) / (self.window_length as u64)
    }
}

} // verus!
