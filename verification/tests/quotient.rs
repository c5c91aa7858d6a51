use blur_rect::quotient::logical_length;

// What the windowing system does: divide in double precision, then narrow.
fn divided(pixels: u32, scale: f64) -> Option<u32> {
    Some(((pixels as f64 / scale) as f32).to_bits())
}

fn quotient(pixels: u32, scale: f64) -> Option<f32> {
    logical_length(pixels, scale.to_bits()).map(f32::from_bits)
}

#[test]
fn unit_scale_keeps_the_length() {
    assert_eq!(quotient(455, 1.0), Some(455.0));
    assert_eq!(quotient(330, 1.0), Some(330.0));
    assert_eq!(quotient(1, 1.0), Some(1.0));
    assert_eq!(quotient(u32::MAX, 1.0), Some(4294967296.0));
}

#[test]
fn doubled_scale_halves_the_length() {
    assert_eq!(quotient(910, 2.0), Some(455.0));
    assert_eq!(quotient(660, 2.0), Some(330.0));
    assert_eq!(quotient(455, 2.0), Some(227.5));
}

#[test]
fn quotients_are_rounded_to_nearest() {
    assert_eq!(quotient(455, 1.5), Some(303.33334));
    assert_eq!(quotient(330, 1.25), Some(264.0));
    assert_eq!(quotient(1, 3.0), Some(0.33333334));
    assert_eq!(quotient(2, 3.0), Some(0.6666667));
    assert_eq!(quotient(10, 0.1), Some(100.0));
}

#[test]
fn quotient_is_rounded_twice() {
    // The exact quotient lies a little below the middle of two neighbours in
    // single precision; in double precision it is the middle, and that
    // narrows to the even neighbour above.
    let scale = f64::from_bits(0x3FEF_FFFF_A000_0120);
    assert_eq!(logical_length(1, scale.to_bits()), Some(0x3F80_0002));
    assert_eq!(divided(1, scale), Some(0x3F80_0002));
}

#[test]
fn no_pixels_are_no_points() {
    assert_eq!(logical_length(0, 1.0f64.to_bits()), Some(0));
    assert_eq!(logical_length(0, 2.5f64.to_bits()), Some(0));
    assert_eq!(logical_length(0, f64::MAX.to_bits()), Some(0));
}

#[test]
fn length_ties_go_to_the_even_mantissa() {
    assert_eq!(quotient(16_777_217, 1.0), Some(16_777_216.0));
    assert_eq!(quotient(16_777_219, 1.0), Some(16_777_220.0));
    assert_eq!(quotient(33_554_434, 2.0), Some(16_777_216.0));
    assert_eq!(quotient(33_554_438, 2.0), Some(16_777_220.0));
}

#[test]
fn patterns_that_are_no_positive_normal_numbers_have_no_quotient() {
    for scale in [0.0f64, -0.0, -1.0, f64::NAN, f64::INFINITY, f64::NEG_INFINITY, 5.0e-324] {
        assert_eq!(logical_length(455, scale.to_bits()), None);
        assert_eq!(logical_length(0, scale.to_bits()), None);
    }
}

#[test]
fn tiny_scale_factors_give_infinite_lengths() {
    assert_eq!(quotient(455, f64::MIN_POSITIVE), Some(f32::INFINITY));
    assert_eq!(quotient(1, 1.0e-300), Some(f32::INFINITY));
    assert_eq!(quotient(1, 2.0f64.powi(-128)), Some(f32::INFINITY));
    assert_eq!(quotient(1, 2.0f64.powi(-127)), Some(2.0f32.powi(127)));
    assert_eq!(quotient(455, 2.0f64.powi(-100)), Some(455.0 * 2.0f32.powi(100)));
}

#[test]
fn huge_scale_factors_give_tiny_lengths() {
    assert_eq!(quotient(455, f64::MAX), Some(0.0));
    assert_eq!(quotient(1, 1.0e300), Some(0.0));
    assert_eq!(logical_length(1, 2.0f64.powi(149).to_bits()), Some(1));
    assert_eq!(logical_length(1, 2.0f64.powi(150).to_bits()), Some(0));
    assert_eq!(logical_length(3, 2.0f64.powi(150).to_bits()), Some(2));
    assert_eq!(logical_length(1, 2.0f64.powi(126).to_bits()), Some(0x0080_0000));
    assert_eq!(logical_length(1, 2.0f64.powi(127).to_bits()), Some(0x0040_0000));
}

#[test]
fn agrees_with_division_on_a_grid() {
    let scales = [
        0.25f64, 0.5, 0.75, 1.0, 1.25, 1.5, 1.75, 2.0, 2.25, 2.5, 3.0, 4.0, 1.1, 0.9, 1.3333333333333333,
        96.0 / 72.0, 120.0 / 96.0, 144.0 / 96.0, 7.0, 1.0e-3, 1.0e3, 0.1,
    ];
    for scale in scales {
        let mut pixels: u32 = 0;
        while pixels <= 20000 {
            assert_eq!(
                logical_length(pixels, scale.to_bits()),
                divided(pixels, scale),
                "pixels {} scale {}",
                pixels,
                scale
            );
            pixels += 1;
        }
    }
}

#[test]
fn agrees_with_division_on_all_positive_normal_scale_factors() {
    let mut bits: u64 = f64::MIN_POSITIVE.to_bits();
    let end: u64 = f64::MAX.to_bits();
    let mut step: u64 = 0x0000_0137_3f51_9a6b;
    let mut pixels: u32 = 1;
    while bits < end {
        let scale = f64::from_bits(bits);
        for p in [1u32, 2, 3, 455, pixels, u32::MAX] {
            assert_eq!(logical_length(p, bits), divided(p, scale), "pixels {} scale {:#x}", p, bits);
        }
        bits += step;
        step = step * 3 % 0x0003_ffff_ffff_ffff + 1;
        pixels = pixels.wrapping_mul(1664525).wrapping_add(1013904223);
    }
}

#[test]
fn agrees_with_division_where_the_two_roundings_meet() {
    // Scale factors near one, whose quotients with one pixel lie near the
    // middle of two neighbours in single precision.
    let mut low: u64 = 0;
    while low < 0x4000 {
        for high in [0x3FEF_FFFF_A000_0000u64, 0x3FEF_FFFF_E000_0000, 0x3FF0_0000_1000_0000] {
            for p in [1u32, 3, 5, 7, 455] {
                let bits = high + low;
                assert_eq!(
                    logical_length(p, bits),
                    divided(p, f64::from_bits(bits)),
                    "pixels {} scale {:#x}",
                    p,
                    bits
                );
            }
        }
        low += 1;
    }
}

#[test]
fn agrees_with_division_around_the_edges_of_single_precision() {
    for edge in [-152i32, -151, -150, -149, -148, -127, -126, -125, 126, 127, 128, 129] {
        // Quotients near 2^edge.
        let base = 2.0f64.powi(-edge).to_bits();
        let mut offset: i64 = -0x4000_0000;
        while offset <= 0x4000_0000 {
            let bits = (base as i64 + offset) as u64;
            for p in [1u32, 3, 4, 7] {
                assert_eq!(
                    logical_length(p, bits),
                    divided(p, f64::from_bits(bits)),
                    "pixels {} scale {:#x}",
                    p,
                    bits
                );
            }
            offset += 0x3f_ffff;
        }
    }
}
