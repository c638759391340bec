use impact_pipeline::SetupError;
use impact_pipeline::config::AnalyzerConfig;
use impact_pipeline::spectrum::{band_energy, detect_impact, BandConfig};

#[test]
fn window_length_from_rate() {
    // sample_rate = 8000 Hz, resolution 50 Hz per bin => 160-sample windows,
    // and bin 2 of such a window represents 100 Hz.
    let cfg = AnalyzerConfig::new(8000, 50).unwrap();
    assert_eq!(cfg.window_length, 160);
    assert_eq!(cfg.bin_frequency(2), 100);
    assert_eq!(cfg.bin_frequency(4), 200);
}

#[test]
fn zero_resolution_is_fatal() {
    assert_eq!(AnalyzerConfig::new(8000, 0), Err(SetupError::ZeroResolution));
}

#[test]
fn zero_window_length_is_fatal() {
    // A sample rate below the resolution would derive an empty window.
    assert_eq!(AnalyzerConfig::new(40, 50), Err(SetupError::ZeroWindowLength));
    // The boundary case is accepted: one sample per window.
    assert_eq!(AnalyzerConfig::new(50, 50).unwrap().window_length, 1);
}

#[test]
fn zero_spectrum_never_triggers() {
    // An all-zero spectrum has zero band energy and exceeds no threshold,
    // not even a threshold of zero.
    let spectrum: Vec<u32> = vec![0; 160];
    let band = BandConfig { lo: 1, hi: 4, threshold: 0 };
    assert_eq!(band_energy(&spectrum, &band), 0);
    assert!(detect_impact(&spectrum, &band).is_none());
}

#[test]
fn band_energy_sums_the_band() {
    let spectrum: Vec<u32> = vec![9, 10, 20, 30, 40, 9999];
    let band = BandConfig { lo: 1, hi: 4, threshold: 0 };
    assert_eq!(band_energy(&spectrum, &band), 100);
}

#[test]
fn detection_is_strictly_above_threshold() {
    let spectrum: Vec<u32> = vec![0, 50, 50, 0, 0];
    let at = BandConfig { lo: 1, hi: 4, threshold: 100 };
    let below = BandConfig { lo: 1, hi: 4, threshold: 99 };
    assert!(detect_impact(&spectrum, &at).is_none());
    assert!(detect_impact(&spectrum, &below).is_some());
}

#[test]
fn energy_outside_the_band_is_ignored() {
    // However large a magnitude outside the band grows, the band energy and
    // the detection verdict do not move.
    let quiet: Vec<u32> = vec![0; 16];
    let mut loud: Vec<u32> = vec![0; 16];
    loud[0] = u32::MAX;
    loud[10] = u32::MAX;
    loud[15] = u32::MAX;
    let band = BandConfig { lo: 1, hi: 4, threshold: 0 };
    assert_eq!(band_energy(&loud, &band), band_energy(&quiet, &band));
    assert!(detect_impact(&loud, &band).is_none());
}
