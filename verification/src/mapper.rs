//! The illuminance-to-brightness map.
//!
//! Illuminance is carried as an integer count of millilux, so the map is
//! exact integer arithmetic. Below the interpolation band the target is
//! pinned to `MIN_BRIGHTNESS`, above it to `MAX_BRIGHTNESS`; inside the band
//! the target is the floor of a quadratic Bezier blend over three fixed
//! control points.

use vstd::arithmetic::div_mod::{lemma_div_by_multiple, lemma_div_is_ordered};
use vstd::arithmetic::mul::lemma_mul_upper_bound;
use vstd::prelude::*;

verus! {

/// Lowest brightness the daemon ever applies (15% of the device range).
pub const MIN_BRIGHTNESS: u32 = 1125;

/// Middle control point of the blend (25% of the device range).
pub const MID_BRIGHTNESS: u32 = 2000;

/// Highest brightness the daemon ever applies (40% of the device range).
pub const MAX_BRIGHTNESS: u32 = 3000;

/// Illuminance at or below which the target stays at `MIN_BRIGHTNESS`
/// (night), in millilux.
pub const LOW_LUX_MLX: u64 = 400_000;

/// Illuminance above which the target is `MAX_BRIGHTNESS` (noon), in
/// millilux.
pub const HIGH_LUX_MLX: u64 = 2_500_000;

/// Width of the interpolation band, in millilux.
pub const BAND_MLX: u64 = HIGH_LUX_MLX - LOW_LUX_MLX;

/// The square of `BAND_MLX`: the scale by which the blend numerator
/// exceeds the blended brightness.
pub const BAND_SQ_MLX: u64 = 4_410_000_000_000;

/// Numerator of the quadratic Bezier blend at position `x` inside the band,
/// scaled by `BAND_SQ_MLX`; `x` over the band width plays the role of the
/// blend parameter `t`.
pub open spec fn blend_num(x: int) -> int {
    let d = BAND_MLX as int;
    (d - x) * (d - x) * (MIN_BRIGHTNESS as int) + 2 * x * (d - x) * (MID_BRIGHTNESS as int) + x * x
        * (MAX_BRIGHTNESS as int)
}

/// Target brightness for an illuminance of `mlx` millilux.
pub open spec fn brightness_of(mlx: int) -> int {
    if mlx > HIGH_LUX_MLX as int {
        MAX_BRIGHTNESS as int
    } else if mlx <= LOW_LUX_MLX as int {
        MIN_BRIGHTNESS as int
    } else {
        blend_num(mlx - LOW_LUX_MLX as int) / (BAND_SQ_MLX as int)
    }
}

/// The blend numerator expands to a polynomial whose coefficients make its
/// bounds and its monotonicity plain.
proof fn lemma_blend_poly(x: int, d: int)
    by (nonlinear_arith)
    ensures
        (d - x) * (d - x) * 1125 + 2 * x * (d - x) * 2000 + x * x * 3000 == 1125 * d * d + 1750 * d
            * x + 125 * x * x,
{
}

/// Inside the band the blend numerator stays between the numerators of the
/// two extreme control points.
proof fn lemma_blend_num_bounds(x: int)
    requires
        0 <= x <= BAND_MLX as int,
    ensures
        1125 * (BAND_SQ_MLX as int) <= blend_num(x),
        blend_num(x) <= 3000 * (BAND_SQ_MLX as int),
{
    let d = BAND_MLX as int;
    lemma_blend_poly(x, d);
    assert(1125 * 4_410_000_000_000 <= 1125 * d * d + 1750 * d * x + 125 * x * x) by (nonlinear_arith)
        requires
            0 <= x <= d && d == 2_100_000,
    ;
    assert(1125 * d * d + 1750 * d * x + 125 * x * x <= 3000 * 4_410_000_000_000) by (nonlinear_arith)
        requires
            0 <= x <= d && d == 2_100_000,
    ;
}

/// The blend numerator never decreases as the position in the band grows.
proof fn lemma_blend_num_monotone(x1: int, x2: int)
    requires
        0 <= x1 <= x2,
    ensures
        blend_num(x1) <= blend_num(x2),
{
    let d = BAND_MLX as int;
    lemma_blend_poly(x1, d);
    lemma_blend_poly(x2, d);
    assert(1750 * d * x1 + 125 * x1 * x1 <= 1750 * d * x2 + 125 * x2 * x2) by (nonlinear_arith)
        requires
            0 <= x1 <= x2 && d == 2_100_000,
    ;
}

/// The map's output always lies within the device band, whatever the input.
pub proof fn lemma_brightness_in_range(mlx: int)
    ensures
        MIN_BRIGHTNESS as int <= brightness_of(mlx) <= MAX_BRIGHTNESS as int,
{
    let dd = BAND_SQ_MLX as int;
    if (LOW_LUX_MLX as int) < mlx && mlx <= HIGH_LUX_MLX as int {
        let x = mlx - LOW_LUX_MLX as int;
        lemma_blend_num_bounds(x);
        lemma_div_is_ordered(1125 * dd, blend_num(x), dd);
        lemma_div_is_ordered(blend_num(x), 3000 * dd, dd);
        lemma_div_by_multiple(1125, dd);
        lemma_div_by_multiple(3000, dd);
    }
}

/// Monotonicity of the map: more light never yields a dimmer target.
pub proof fn lemma_brightness_monotone(a: int, b: int)
    requires
        a <= b,
    ensures
        brightness_of(a) <= brightness_of(b),
{
    lemma_brightness_in_range(a);
    lemma_brightness_in_range(b);
    if (LOW_LUX_MLX as int) < a && b <= HIGH_LUX_MLX as int {
        lemma_blend_num_monotone(a - LOW_LUX_MLX as int, b - LOW_LUX_MLX as int);
        lemma_div_is_ordered(
            blend_num(a - LOW_LUX_MLX as int),
            blend_num(b - LOW_LUX_MLX as int),
            BAND_SQ_MLX as int,
        );
    }
}

/// Compute the target brightness for an illuminance of `mlx` millilux.
pub fn lux_to_brightness(mlx: u64) -> (b: u32)
    ensures
        b as int == brightness_of(mlx as int),
        mlx <= LOW_LUX_MLX ==> b == MIN_BRIGHTNESS,
        mlx > HIGH_LUX_MLX ==> b == MAX_BRIGHTNESS,
        MIN_BRIGHTNESS <= b <= MAX_BRIGHTNESS,
{
    if mlx > HIGH_LUX_MLX {
        return MAX_BRIGHTNESS;
    }
    if mlx <= LOW_LUX_MLX {
        return MIN_BRIGHTNESS;
    }
    let x: u64 = mlx - LOW_LUX_MLX;
    let d: u64 = BAND_MLX;
    proof {
        let xi = x as int;
        let di = d as int;
        lemma_mul_upper_bound(di - xi, 2_100_000, di - xi, 2_100_000);
        lemma_mul_upper_bound(2 * xi, 4_200_000, di - xi, 2_100_000);
        lemma_mul_upper_bound(xi, 2_100_000, xi, 2_100_000);
    }
    let num: u64 = (d - x) * (d - x) * 1125 + 2 * x * (d - x) * 2000 + x * x * 3000;
    let den: u64 = BAND_SQ_MLX;
    let q: u64 = num / den;
    proof {
        lemma_brightness_in_range(mlx as int);
    }
    q as u32
}

} // verus!
