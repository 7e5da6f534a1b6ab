use biquad_filters::{BandPassFilter, Filter};

fn nearly_equal(a: f64, b: f64) -> bool {
    (a - b).abs() <= f64::EPSILON * a.abs().max(b.abs()).max(1.0)
}

#[test]
fn band_pass_tests_create_valid_double_filter() {
    let filter = BandPassFilter::<f64>::new(
        1000.0_f64,
        44100_u32,
        std::f64::consts::FRAC_1_SQRT_2,
        false
    );
    assert!(filter.is_some());
}

#[test]
fn band_pass_tests_create_valid_float_filter() {
    let filter = BandPassFilter::<f32>::new(
        1000.0_f32,
        44100_u32,
        std::f32::consts::FRAC_1_SQRT_2,
        false
    );
    assert!(filter.is_some());
}

#[test]
fn band_pass_tests_create_invalid_double_filter() {
    let filter = BandPassFilter::<f64>::new(
        1000.0_f64,
        0_u32,
        std::f64::consts::FRAC_1_SQRT_2,
        false
    );
    assert!(filter.is_none());
}

#[test]
fn band_pass_tests_create_invalid_float_filter() {
    let filter = BandPassFilter::<f32>::new(
        1000.0_f32,
        0_u32,
        std::f32::consts::FRAC_1_SQRT_2,
        false
    );
    assert!(filter.is_none());
}

#[test]
fn band_pass_tests_set_cutoff_frequency() {
    let mut filter = BandPassFilter::<f64>::new(
        1000.0_f64,
        44100_u32,
        std::f64::consts::FRAC_1_SQRT_2,
        false
    ).unwrap();
    assert!(nearly_equal(filter.get_cutoff(), 1000.0_f64));
    filter.set_cutoff(2000.0_f64);
    assert!(nearly_equal(filter.get_cutoff(), 2000.0_f64));
}

#[test]
fn band_pass_tests_set_sample_rate() {
    let mut filter = BandPassFilter::<f64>::new(
        1000.0_f64,
        44100_u32,
        std::f64::consts::FRAC_1_SQRT_2,
        false
    ).unwrap();
    assert_eq!(filter.get_sample_rate(), 44100_u32);
    filter.set_sample_rate(48000_u32);
    assert_eq!(filter.get_sample_rate(), 48000_u32);
}

#[test]
fn band_pass_tests_set_quality_factor() {
    let mut filter = BandPassFilter::<f64>::new(
        1000.0_f64,
        44100_u32,
        std::f64::consts::FRAC_1_SQRT_2,
        false
    ).unwrap();
    assert!(nearly_equal(filter.get_q_factor(), std::f64::consts::FRAC_1_SQRT_2));
    filter.set_q_factor(1.0_f64);
    assert!(nearly_equal(filter.get_q_factor(), 1.0_f64));
}

#[test]
fn set_constant_skirt_gain() {
    let mut filter = BandPassFilter::<f64>::new(
        1000.0_f64,
        44100_u32,
        std::f64::consts::FRAC_1_SQRT_2,
        false
    ).unwrap();
    assert_eq!(filter.get_constant_skirt_gain(), false);
    filter.set_constant_skirt_gain(true);
    assert_eq!(filter.get_constant_skirt_gain(), true);
}
