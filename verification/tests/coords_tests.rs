use screenshot_core::coords::{
    ndc_to_tex, to_ndc, Fraction, NdcPoint, PixelPoint, TexPoint, WindowSize,
};

fn value(f: Fraction) -> f64 {
    f.num as f64 / f.den as f64
}

fn close(a: f64, b: f64) -> bool {
    (a - b).abs() < 1e-6
}

const WINDOW: WindowSize = WindowSize { width: 1920, height: 1080 };

#[test]
fn to_ndc_exact_fractions() {
    let ndc = to_ndc(PixelPoint { x: 480, y: 270 }, WINDOW);
    assert_eq!(ndc.x, Fraction { num: 2 * 480 - 1920, den: 1920 });
    assert_eq!(ndc.y, Fraction { num: 1080 - 2 * 270, den: 1080 });
    assert!(close(value(ndc.x), -0.5));
    assert!(close(value(ndc.y), 0.5));
}

#[test]
fn to_ndc_corners_and_center() {
    let top_left = to_ndc(PixelPoint { x: 0, y: 0 }, WINDOW);
    assert!(close(value(top_left.x), -1.0) && close(value(top_left.y), 1.0));
    let top_right = to_ndc(PixelPoint { x: 1920, y: 0 }, WINDOW);
    assert!(close(value(top_right.x), 1.0) && close(value(top_right.y), 1.0));
    let bottom_left = to_ndc(PixelPoint { x: 0, y: 1080 }, WINDOW);
    assert!(close(value(bottom_left.x), -1.0) && close(value(bottom_left.y), -1.0));
    let bottom_right = to_ndc(PixelPoint { x: 1920, y: 1080 }, WINDOW);
    assert!(close(value(bottom_right.x), 1.0) && close(value(bottom_right.y), -1.0));
    let center = to_ndc(PixelPoint { x: 960, y: 540 }, WINDOW);
    assert!(close(value(center.x), 0.0) && close(value(center.y), 0.0));
}

#[test]
fn to_ndc_matches_the_float_formula() {
    for (x, y) in [(0u32, 0u32), (1, 1), (333, 777), (1919, 1079), (1920, 1080)] {
        let ndc = to_ndc(PixelPoint { x, y }, WINDOW);
        let fx = (x as f32 / WINDOW.width as f32) * 2.0 - 1.0;
        let fy = ((y as f32 / WINDOW.height as f32) * 2.0 - 1.0) * -1.0;
        assert!(close(value(ndc.x), fx as f64));
        assert!(close(value(ndc.y), fy as f64));
    }
}

#[test]
fn to_ndc_pixel_past_the_window_leaves_the_range() {
    let ndc = to_ndc(PixelPoint { x: 2880, y: 0 }, WINDOW);
    assert!(close(value(ndc.x), 2.0));
    let far = to_ndc(PixelPoint { x: u32::MAX, y: u32::MAX }, WindowSize { width: 1, height: 1 });
    assert_eq!(far.x, Fraction { num: 2 * (u32::MAX as i64) - 1, den: 1 });
    assert_eq!(far.y, Fraction { num: 1 - 2 * (u32::MAX as i64), den: 1 });
}

#[test]
fn ndc_to_tex_exact_fractions() {
    let ndc = NdcPoint { x: Fraction { num: -1, den: 2 }, y: Fraction { num: 1, den: 4 } };
    let tex = ndc_to_tex(ndc);
    assert_eq!(tex, TexPoint { u: Fraction { num: 1, den: 4 }, v: Fraction { num: 3, den: 8 } });
    assert!(close(value(tex.u), (-0.5 + 1.0) / 2.0));
    assert!(close(value(tex.v), 1.0 - (0.25 + 1.0) / 2.0));
}

#[test]
fn ndc_to_tex_corners() {
    let one = Fraction { num: 1, den: 1 };
    let minus_one = Fraction { num: -1, den: 1 };
    let top_left = ndc_to_tex(NdcPoint { x: minus_one, y: one });
    assert!(close(value(top_left.u), 0.0) && close(value(top_left.v), 0.0));
    let bottom_right = ndc_to_tex(NdcPoint { x: one, y: minus_one });
    assert!(close(value(bottom_right.u), 1.0) && close(value(bottom_right.v), 1.0));
}

#[test]
fn round_trip_recovers_the_pixel() {
    let pixels = [(0u32, 0u32), (1920, 0), (0, 1080), (1920, 1080), (960, 540), (1, 1079)];
    for (x, y) in pixels {
        let tex = ndc_to_tex(to_ndc(PixelPoint { x, y }, WINDOW));
        let back_x = value(tex.u) * WINDOW.width as f64;
        let back_y = value(tex.v) * WINDOW.height as f64;
        assert!(close(back_x, x as f64));
        assert!(close(back_y, y as f64));
        // exactly, without floats
        assert_eq!(tex.u.num * WINDOW.width as i64, x as i64 * tex.u.den);
        assert_eq!(tex.v.num * WINDOW.height as i64, y as i64 * tex.v.den);
    }
}
