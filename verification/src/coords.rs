//! Coordinate mapping between window pixels, normalised device coordinates
//! and texture coordinates, in exact fractions.

use vstd::prelude::*;

verus! {

/// A position in window or image pixels; row 0 is the top row.
#[derive(Clone, Copy, Debug, PartialEq, Eq, Structural)]
pub struct PixelPoint {
    pub x: u32,
    pub y: u32,
}

/// The size of a window surface in pixels.
#[derive(Clone, Copy, Debug, PartialEq, Eq, Structural)]
pub struct WindowSize {
    pub width: u32,
    pub height: u32,
}

impl WindowSize {
    /// Both dimensions are positive, so a pixel can be divided by them.
    pub open spec fn has_area(&self) -> bool {
        self.width > 0 && self.height > 0
    }
}

/// An exact fraction `num / den`. It stands for a real number once `den` is positive.
#[derive(Clone, Copy, Debug, PartialEq, Eq, Structural)]
pub struct Fraction {
    pub num: i64,
    pub den: i64,
}

impl Fraction {
    /// The real number that the fraction stands for.
    pub open spec fn value(&self) -> real {
        self.num as real / self.den as real
    }

    /// The fraction lies between `low` and `high`, both included.
    pub open spec fn within(&self, low: int, high: int) -> bool {
        self.den > 0 && low * self.den <= self.num <= high * self.den
    }
}

/// A point in normalised device coordinates: the window spans -1..1 on both
/// axes, with +1 at the right edge and at the top edge.
#[derive(Clone, Copy, Debug, PartialEq, Eq, Structural)]
pub struct NdcPoint {
    pub x: Fraction,
    pub y: Fraction,
}

/// A point in texture coordinates: the image spans 0..1 on both axes, with
/// the origin at its top-left corner.
#[derive(Clone, Copy, Debug, PartialEq, Eq, Structural)]
pub struct TexPoint {
    pub u: Fraction,
    pub v: Fraction,
}

/// The device coordinates of a pixel: `x = 2 * px / w - 1`, and `y` the same
/// from the pixel row, negated, so that row 0 lands on the top edge.
pub open spec fn to_ndc_spec(pixel: PixelPoint, size: WindowSize) -> NdcPoint {
    NdcPoint {
        x: Fraction { num: (2 * pixel.x - size.width) as i64, den: size.width as i64 },
        y: Fraction { num: (size.height - 2 * pixel.y) as i64, den: size.height as i64 },
    }
}

/// The texture coordinates of a device point: `u = (x + 1) / 2` and
/// `v = 1 - (y + 1) / 2`.
pub open spec fn ndc_to_tex_spec(ndc: NdcPoint) -> TexPoint {
    TexPoint {
        u: Fraction { num: (ndc.x.num + ndc.x.den) as i64, den: (2 * ndc.x.den) as i64 },
        v: Fraction { num: (ndc.y.den - ndc.y.num) as i64, den: (2 * ndc.y.den) as i64 },
    }
}

/// The device points whose texture coordinates fit the machine integers.
pub open spec fn tex_representable(ndc: NdcPoint) -> bool {
    &&& i64::MIN <= ndc.x.num + ndc.x.den <= i64::MAX
    &&& i64::MIN <= 2 * ndc.x.den <= i64::MAX
    &&& i64::MIN <= ndc.y.den - ndc.y.num <= i64::MAX
    &&& i64::MIN <= 2 * ndc.y.den <= i64::MAX
}

/// Maps a window pixel to normalised device coordinates. The window must
/// have a positive width and height.
pub fn to_ndc(pixel: PixelPoint, size: WindowSize) -> (ndc: NdcPoint)
    requires
        size.has_area(),
    ensures
        ndc == to_ndc_spec(pixel, size),
        ndc.x.den > 0,
        ndc.y.den > 0,
        pixel.x <= size.width <==> ndc.x.within(-1, 1),
        pixel.y <= size.height <==> ndc.y.within(-1, 1),
        tex_representable(ndc),
{
    let px: i64 = pixel.x as i64;
    let py: i64 = pixel.y as i64;
    let w: i64 = size.width as i64;
    let h: i64 = size.height as i64;
    NdcPoint {
        x: Fraction { num: 2 * px - w, den: w },
        y: Fraction { num: h - 2 * py, den: h },
    }
}

/// Maps a device point to texture coordinates.
pub fn ndc_to_tex(ndc: NdcPoint) -> (tex: TexPoint)
    requires
        tex_representable(ndc),
    ensures
        tex == ndc_to_tex_spec(ndc),
        ndc.x.within(-1, 1) ==> tex.u.within(0, 1),
        ndc.y.within(-1, 1) ==> tex.v.within(0, 1),
{
    TexPoint {
        u: Fraction { num: ndc.x.num + ndc.x.den, den: 2 * ndc.x.den },
        v: Fraction { num: ndc.y.den - ndc.y.num, den: 2 * ndc.y.den },
    }
}

/// `(2n - d) / d` is `2 (n / d) - 1`, and where it lies relative to -1 and 1.
proof fn lemma_affine_over(n: int, d: int) by (nonlinear_arith)
    requires
        d > 0,
    ensures
        (2 * n - d) as real / d as real == (2 as real) * (n as real / d as real) - (1 as real),
        (d - 2 * n) as real / d as real == -((2 as real) * (n as real / d as real) - (1 as real)),
        n <= d <==> (2 * n - d) as real / d as real <= 1 as real,
        0 <= n <==> (2 * n - d) as real / d as real >= -(1 as real),
        n <= d <==> (d - 2 * n) as real / d as real >= -(1 as real),
        0 <= n <==> (d - 2 * n) as real / d as real <= 1 as real,
        n == 0 ==> (2 * n - d) as real / d as real == -(1 as real),
        n == 0 ==> (d - 2 * n) as real / d as real == 1 as real,
{
}

/// `(n + d) / 2d` is `(n / d + 1) / 2`, and `(d - n) / 2d` is one minus that.
proof fn lemma_half_shift(n: int, d: int) by (nonlinear_arith)
    requires
        d > 0,
    ensures
        (n + d) as real / (2 * d) as real == (n as real / d as real + (1 as real)) / (2 as real),
        (d - n) as real / (2 * d) as real == (1 as real) - (n as real / d as real + (1 as real)) / (
        2 as real),
{
}

/// `n / d` lies between two whole numbers exactly when `n` lies between
/// their multiples of `d`.
proof fn lemma_between(n: int, d: int, low: int, high: int) by (nonlinear_arith)
    requires
        d > 0,
    ensures
        low * d <= n <==> low as real <= n as real / d as real,
        n <= high * d <==> n as real / d as real <= high as real,
{
}

/// `2n / 2d` scaled by `d` is `n`.
proof fn lemma_scale_back(n: int, d: int) by (nonlinear_arith)
    requires
        d > 0,
    ensures
        ((2 * n) as real / (2 * d) as real) * (d as real) == n as real,
{
}

/// A fraction lies between two whole numbers exactly when its value does.
pub proof fn lemma_within_value(fraction: Fraction, low: int, high: int)
    requires
        fraction.den > 0,
    ensures
        fraction.within(low, high) <==> low as real <= fraction.value() <= high as real,
{
    lemma_between(fraction.num as int, fraction.den as int, low, high);
}

/// The fractions that `to_ndc` returns have the values `2 (px / w) - 1`
/// and `-(2 (py / h) - 1)`: the pixel's share of the window, doubled and
/// shifted to -1..1, the vertical axis flipped.
pub proof fn lemma_to_ndc_value(pixel: PixelPoint, size: WindowSize)
    requires
        size.has_area(),
    ensures
        to_ndc_spec(pixel, size).x.value() == (2 as real) * (pixel.x as real / size.width as real)
            - (1 as real),
        to_ndc_spec(pixel, size).y.value() == -((2 as real) * (pixel.y as real
            / size.height as real) - (1 as real)),
{
    lemma_affine_over(pixel.x as int, size.width as int);
    lemma_affine_over(pixel.y as int, size.height as int);
}

/// A pixel lies within the window's width (height) exactly when its device
/// coordinate lies within -1..1; the top-left pixel maps to (-1, +1).
pub proof fn lemma_to_ndc_range(pixel: PixelPoint, size: WindowSize)
    requires
        size.has_area(),
    ensures
        pixel.x <= size.width <==> -(1 as real) <= to_ndc_spec(pixel, size).x.value() <= 1 as real,
        pixel.y <= size.height <==> -(1 as real) <= to_ndc_spec(pixel, size).y.value() <= 1 as real,
        pixel.x == 0 ==> to_ndc_spec(pixel, size).x.value() == -(1 as real),
        pixel.y == 0 ==> to_ndc_spec(pixel, size).y.value() == 1 as real,
{
    lemma_affine_over(pixel.x as int, size.width as int);
    lemma_affine_over(pixel.y as int, size.height as int);
}

/// The fractions that `ndc_to_tex` returns have the values
/// `u = (x + 1) / 2` and `v = 1 - (y + 1) / 2`.
pub proof fn lemma_ndc_to_tex_value(ndc: NdcPoint)
    requires
        ndc.x.den > 0,
        ndc.y.den > 0,
        tex_representable(ndc),
    ensures
        ndc_to_tex_spec(ndc).u.value() == (ndc.x.value() + (1 as real)) / (2 as real),
        ndc_to_tex_spec(ndc).v.value() == (1 as real) - (ndc.y.value() + (1 as real)) / (2 as real),
{
    lemma_half_shift(ndc.x.num as int, ndc.x.den as int);
    lemma_half_shift(ndc.y.num as int, ndc.y.den as int);
}

/// Round trip: a pixel mapped to device coordinates and on to texture
/// coordinates is recovered exactly by scaling the texture coordinates with
/// the window size.
pub proof fn lemma_pixel_round_trip(pixel: PixelPoint, size: WindowSize)
    requires
        size.has_area(),
    ensures
        ndc_to_tex_spec(to_ndc_spec(pixel, size)).u.value() * (size.width as real)
            == pixel.x as real,
        ndc_to_tex_spec(to_ndc_spec(pixel, size)).v.value() * (size.height as real)
            == pixel.y as real,
{
    lemma_scale_back(pixel.x as int, size.width as int);
    lemma_scale_back(pixel.y as int, size.height as int);
}

} // verus!
