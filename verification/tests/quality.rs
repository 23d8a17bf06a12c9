use upscale_shim::quality::{
    jitter_offset, jitter_phase_count, radical_inverse, ratio_for_quality, render_resolution,
    JitterSample,
};

fn coords(s: &JitterSample) -> (f64, f64) {
    (s.x_num as f64 / s.x_den as f64, s.y_num as f64 / s.y_den as f64)
}

#[test]
fn ratio_table_is_exact() {
    // Tenths of {1.0, 1.5, 1.7, 2.0, 3.0} for the five defined modes.
    assert_eq!(ratio_for_quality(0), 10);
    assert_eq!(ratio_for_quality(1), 15);
    assert_eq!(ratio_for_quality(2), 17);
    assert_eq!(ratio_for_quality(3), 20);
    assert_eq!(ratio_for_quality(4), 30);
    assert_eq!(ratio_for_quality(0) as f32 / 10.0, 1.0);
    assert_eq!(ratio_for_quality(1) as f32 / 10.0, 1.5);
    assert_eq!(ratio_for_quality(2) as f32 / 10.0, 1.7);
    assert_eq!(ratio_for_quality(3) as f32 / 10.0, 2.0);
    assert_eq!(ratio_for_quality(4) as f32 / 10.0, 3.0);
}

#[test]
fn ratio_unrecognized_mode_defaults_to_one() {
    assert_eq!(ratio_for_quality(5), 10);
    assert_eq!(ratio_for_quality(99), 10);
    assert_eq!(ratio_for_quality(u32::MAX), 10);
}

#[test]
fn render_resolution_performance_divides_exactly() {
    assert_eq!(render_resolution(3840, 2160, 3), (1920, 1080));
}

#[test]
fn render_resolution_balanced_rounds_to_nearest() {
    // 1920 / 1.7 = 1129.41... and 1080 / 1.7 = 635.29... round down;
    // 1921 / 1.7 = 1130.0 exactly.
    assert_eq!(render_resolution(1920, 1080, 2), (1129, 635));
    let (w, _) = render_resolution(1921, 1080, 2);
    assert_eq!(w, 1130);
}

#[test]
fn render_resolution_native_aa_is_identity() {
    assert_eq!(render_resolution(2560, 1440, 0), (2560, 1440));
}

#[test]
fn render_resolution_zero_display() {
    assert_eq!(render_resolution(0, 0, 4), (0, 0));
}

#[test]
fn phase_count_half_render_width() {
    // ceil(8 * (1920/960)^2) = 32.
    assert_eq!(jitter_phase_count(960, 1920), 32);
}

#[test]
fn phase_count_zero_render_width_falls_back() {
    // Ratio treated as 1.0: ceil(8) = 8, never a division fault.
    assert_eq!(jitter_phase_count(0, 1920), 8);
}

#[test]
fn phase_count_rounds_up() {
    // 8 * (1000/999)^2 = 8.016... -> 9.
    assert_eq!(jitter_phase_count(999, 1000), 9);
    // Equal widths: exactly 8.
    assert_eq!(jitter_phase_count(1000, 1000), 8);
}

#[test]
fn phase_count_saturates_at_signed_limit() {
    assert_eq!(jitter_phase_count(1, u32::MAX), i32::MAX);
}

#[test]
fn radical_inverse_first_values() {
    // Base 2: 1 -> 1/2, 2 -> 1/4, 3 -> 3/4, 6 -> 3/8.
    assert_eq!(radical_inverse(1, 2), (1, 2));
    assert_eq!(radical_inverse(2, 2), (1, 4));
    assert_eq!(radical_inverse(3, 2), (3, 4));
    assert_eq!(radical_inverse(6, 2), (3, 8));
    // Base 3: 1 -> 1/3, 2 -> 2/3, 3 -> 1/9, 4 -> 4/9.
    assert_eq!(radical_inverse(1, 3), (1, 3));
    assert_eq!(radical_inverse(2, 3), (2, 3));
    assert_eq!(radical_inverse(3, 3), (1, 9));
    assert_eq!(radical_inverse(4, 3), (4, 9));
}

#[test]
fn jitter_offsets_stay_centered() {
    for index in 0..32 {
        let s = jitter_offset(index, 32);
        let (x, y) = coords(&s);
        assert!((-0.5..0.5).contains(&x), "x out of range at {index}: {x}");
        assert!((-0.5..0.5).contains(&y), "y out of range at {index}: {y}");
    }
}

#[test]
fn jitter_sequence_is_deterministic() {
    let first: Vec<JitterSample> = (0..32).map(|i| jitter_offset(i, 32)).collect();
    let second: Vec<JitterSample> = (0..32).map(|i| jitter_offset(i, 32)).collect();
    assert_eq!(first, second);
}

#[test]
fn jitter_zero_phase_count_is_origin() {
    for index in [-100, -1, 0, 1, 5, i32::MAX, i32::MIN] {
        let s = jitter_offset(index, 0);
        assert_eq!(coords(&s), (0.0, 0.0));
    }
    let s = jitter_offset(3, -7);
    assert_eq!(coords(&s), (0.0, 0.0));
}

#[test]
fn jitter_negative_index_wraps_forward() {
    // -1 wraps to the last phase, not toward negative infinity.
    assert_eq!(jitter_offset(-1, 32), jitter_offset(31, 32));
    assert_eq!(jitter_offset(-32, 32), jitter_offset(0, 32));
    assert_eq!(jitter_offset(-33, 32), jitter_offset(31, 32));
    assert_eq!(jitter_offset(35, 32), jitter_offset(3, 32));
}

#[test]
fn jitter_first_offset_value() {
    // Index 0 with any positive phase count samples position 1:
    // base-2 radical inverse 1/2 and base-3 radical inverse 1/3, recentered.
    let s = jitter_offset(0, 8);
    let (x, y) = coords(&s);
    assert_eq!(x, 0.0);
    assert!((y - (1.0 / 3.0 - 0.5)).abs() < 1e-12);
}
