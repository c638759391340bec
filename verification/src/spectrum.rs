//! Band-energy extraction and impact detection over a quantized spectrum.
//!
//! A transform of one window yields one magnitude per frequency bin. The
//! magnitudes reach this module quantized to integer micro-units (one unit of
//! magnitude is 1_000_000 micro-units), so the detection rule itself — sum the
//! magnitudes over a fixed contiguous bin range and compare against a fixed
//! threshold — is exact integer arithmetic. Bin `k` of a window of length `L`
//! at sample rate `R` represents the frequency `k * R / L` Hz; thresholding
//! only low bins targets percussive low-frequency impact energy rather than
//! broadband noise.

use vstd::prelude::*;

verus! {

/// Sum of the magnitudes of bins `lo..=hi`, the detection signal.
pub open spec fn band_sum(s: Seq<u32>, lo: int, hi: int) -> int
    recommends
        0 <= lo,
        hi < s.len(),
    decreases hi - lo + 1,
{
    if lo > hi {
        0
    } else {
        band_sum(s, lo, hi - 1) + s[hi]
    }
}

/// A band sum of magnitudes is never negative.
pub proof fn lemma_band_sum_nonneg(s: Seq<u32>, lo: int, hi: int)
    ensures
        band_sum(s, lo, hi) >= 0,
    decreases hi - lo + 1,
{
    if lo <= hi {
        lemma_band_sum_nonneg(s, lo, hi - 1);
    }
}

/// Extending the band upward can only grow the band sum.
pub proof fn lemma_band_sum_mono(s: Seq<u32>, lo: int, i: int, hi: int)
    requires
        i <= hi,
    ensures
        band_sum(s, lo, i) <= band_sum(s, lo, hi),
    decreases hi - i,
{
    if i < hi {
        lemma_band_sum_mono(s, lo, i, hi - 1);
    }
}

/// A band of `hi - lo + 1` magnitudes, each at most `u32::MAX`, sums to at
/// most that many times `u32::MAX`.
pub proof fn lemma_band_sum_bound(s: Seq<u32>, lo: int, hi: int)
    ensures
        band_sum(s, lo, hi) <= (if lo <= hi { hi - lo + 1 } else { 0int }) * (u32::MAX as int),
    decreases hi - lo + 1,
{
    if lo <= hi {
        lemma_band_sum_bound(s, lo, hi - 1);
    }
}

/// A window of silence has no band energy: if every bin of the band holds a
/// zero magnitude, the band sum is zero — so no threshold, however small, is
/// ever exceeded by an all-zero spectrum.
pub proof fn lemma_zero_band_sum(s: Seq<u32>, lo: int, hi: int)
    requires
        forall|j: int| lo <= j <= hi ==> s[j] == 0,
    ensures
        band_sum(s, lo, hi) == 0,
    decreases hi - lo + 1,
{
    if lo <= hi {
        lemma_zero_band_sum(s, lo, hi - 1);
    }
}

/// The band sum reads only the bins of the band: two spectra that agree on
/// `lo..=hi` have the same band energy, whatever any bin outside the band
/// holds. Energy placed outside the band can never trigger a detection.
pub proof fn lemma_band_sum_ignores_outside(s1: Seq<u32>, s2: Seq<u32>, lo: int, hi: int)
    requires
        forall|j: int| lo <= j <= hi ==> s1[j] == s2[j],
    ensures
        band_sum(s1, lo, hi) == band_sum(s2, lo, hi),
    decreases hi - lo + 1,
{
    if lo <= hi {
        lemma_band_sum_ignores_outside(s1, s2, lo, hi - 1);
    }
}

/// The fixed detection rule: which contiguous bin range carries impact
/// energy, and the threshold (in magnitude micro-units) above which a band
/// sum raises an impact event.
pub struct BandConfig {
    /// First bin of the band, inclusive.
    pub lo: usize,
    /// Last bin of the band, inclusive.
    pub hi: usize,
    /// Detection threshold in magnitude micro-units.
    pub threshold: u64,
}

impl BandConfig {
    /// The band is a non-empty contiguous range, small enough that a band
    /// sum of `u32` magnitudes always fits in a `u64`.
    pub open spec fn wf(self) -> bool {
        &&& self.lo <= self.hi
        &&& self.hi - self.lo < u32::MAX
    }

    /// Whether a spectrum raises an impact event under this rule.
    pub open spec fn spec_triggers(self, s: Seq<u32>) -> bool {
        band_sum(s, self.lo as int, self.hi as int) > self.threshold
    }
}

/// An all-zero band has zero band energy and so never raises an impact
/// event, whatever the threshold: a `u64` threshold is never exceeded by
/// zero.
pub proof fn lemma_zero_band_never_triggers(s: Seq<u32>, band: BandConfig)
    requires
        forall|j: int| band.lo <= j <= band.hi ==> s[j] == 0,
    ensures
        band_sum(s, band.lo as int, band.hi as int) == 0,
        !band.spec_triggers(s),
{
    lemma_zero_band_sum(s, band.lo as int, band.hi as int);
}

/// The detection verdict reads only the band: two spectra that agree on bins
/// `lo..=hi` get the same verdict, however much energy either carries in
/// bins outside the band. No amount of out-of-band amplitude can raise an
/// impact event.
pub proof fn lemma_verdict_ignores_out_of_band(s1: Seq<u32>, s2: Seq<u32>, band: BandConfig)
    requires
        forall|j: int| band.lo <= j <= band.hi ==> s1[j] == s2[j],
    ensures
        band.spec_triggers(s1) == band.spec_triggers(s2),
{
    lemma_band_sum_ignores_outside(s1, s2, band.lo as int, band.hi as int);
}

/// A zero-payload impact signal; it carries nothing beyond its occurrence.
#[derive(Clone, Copy, Debug, PartialEq, Eq, Structural)]
pub struct ImpactEvent;

/// Sum the quantized magnitudes over the band `band.lo..=band.hi`.
pub fn band_energy(spectrum: &Vec<u32>, band: &BandConfig) -> (e: u64)
    requires
        band.wf(),
        band.hi < spectrum@.len(),
    ensures
        e == band_sum(spectrum@, band.lo as int, band.hi as int),
{
    proof {
        lemma_band_sum_bound(spectrum@, band.lo as int, band.hi as int);
        assert((band.hi - band.lo + 1) * (u32::MAX as int) <= (u32::MAX as int) * (u32::MAX as int))
            by (nonlinear_arith)
            requires band.hi - band.lo + 1 <= u32::MAX as int,
        ;
    }
    let n: usize = spectrum.len();
    let mut e: u64 = 0;
    let mut i: usize = band.lo;
    while i <= band.hi
        invariant
            band.lo <= i <= band.hi + 1,
            band.hi < n,
            n == spectrum@.len(),
            e == band_sum(spectrum@, band.lo as int, i - 1),
            band_sum(spectrum@, band.lo as int, band.hi as int) <= u64::MAX,
        decreases band.hi + 1 - i,
    {
        proof {
            lemma_band_sum_nonneg(spectrum@, i + 1, band.hi as int);
            lemma_band_sum_mono(spectrum@, band.lo as int, i as int, band.hi as int);
        }
        e = e + (spectrum[i] as u64);
        i = i + 1;
    }
    e
}

/// Apply the detection rule to one spectrum: raise an impact event exactly
/// when the band energy exceeds the threshold.
pub fn detect_impact(spectrum: &Vec<u32>, band: &BandConfig) -> (r: Option<ImpactEvent>)
    requires
        band.wf(),
        band.hi < spectrum@.len(),
    ensures
        r is Some <==> band.spec_triggers(spectrum@),
{
    let e = band_energy(spectrum, band);
    if e > band.threshold {
        Some(ImpactEvent)
    } else {
        None
    }
}

} // verus!
