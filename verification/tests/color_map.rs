use mandelbrot::color::index_to_color;

/// The transfer function as a plain floating-point computation: hue from the
/// banded integer formula, channel ramps as truncated floating multiplies.
fn float_transfer_color(i: u32, max_iteration: u32) -> (u8, u8, u8) {
    if i >= max_iteration {
        return (0, 0, 0);
    }
    let h = (360 * 4 - (360 * 4 * i) / max_iteration + 240) % 360;
    if h < 60 {
        (255, (h as f64 / 60.0 * 255.0) as u8, 0)
    } else if h < 120 {
        (((120 - h) as f64 / 60.0 * 255.0) as u8, 255, 0)
    } else if h < 180 {
        (0, 1, ((h - 120) as f64 / 60.0 * 255.0) as u8)
    } else if h < 240 {
        (0, ((240 - h) as f64 / 60.0 * 255.0) as u8, 255)
    } else if h < 300 {
        (((h - 240) as f64 / 60.0 * 255.0) as u8, 0, 255)
    } else {
        (255, 0, ((360 - h) as f64 / 60.0 * 255.0) as u8)
    }
}

#[test]
fn black_at_and_above_bound() {
    assert_eq!(index_to_color(50, 50), (0, 0, 0));
    assert_eq!(index_to_color(5000, 5000), (0, 0, 0));
    assert_eq!(index_to_color(7000, 5000), (0, 0, 0));
    assert_eq!(index_to_color(0, 0), (0, 0, 0));
    assert_eq!(index_to_color(1, 1), (0, 0, 0));
}

#[test]
fn never_black_below_bound() {
    for i in 0..97 {
        assert_ne!(index_to_color(i, 97), (0, 0, 0));
    }
    for i in 0..5000 {
        assert_ne!(index_to_color(i, 5000), (0, 0, 0));
    }
}

#[test]
fn exact_colors_across_the_wheel() {
    // With the bound 1440, index i lands on hue (1680 - i) % 360.
    assert_eq!(index_to_color(0, 1440), (0, 0, 255)); // h = 240
    assert_eq!(index_to_color(240, 1440), (255, 0, 0)); // h = 0
    assert_eq!(index_to_color(60, 1440), (0, 255, 255)); // h = 180
    assert_eq!(index_to_color(30, 1440), (0, 127, 255)); // h = 210
    assert_eq!(index_to_color(100, 1440), (0, 1, 85)); // h = 140
}

#[test]
fn dim_band_in_third_sector() {
    // Hues in [120, 180) keep their flat channel at 1, not 255.
    for i in 1500..1560 {
        // h = (1680 - i) % 360 runs over 120..180 for this range of i.
        let h = (360 * 4 - (360 * 4 * i) / 2880 + 240) % 360;
        if (120..180).contains(&h) {
            let (_, g, _) = index_to_color(i, 2880);
            assert_eq!(g, 1);
        }
    }
}

#[test]
fn matches_floating_point_transfer_everywhere() {
    // Bound 1440 drives the hue through every residue mod 360, so every
    // sector offset of every ramp is compared against the floating-point
    // truncation once.
    for i in 0..1440 {
        assert_eq!(index_to_color(i, 1440), float_transfer_color(i, 1440));
    }
    // A bound that does not divide the hue span exercises the banding.
    for i in 0..997 {
        assert_eq!(index_to_color(i, 997), float_transfer_color(i, 997));
    }
    for i in 0..5000 {
        assert_eq!(index_to_color(i, 5000), float_transfer_color(i, 5000));
    }
}
