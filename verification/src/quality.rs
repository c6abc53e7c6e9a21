//! Quality policy: maps a user-selected quality tier to a bitrate and an
//! optional resolution ceiling, and scales source dimensions to fit that
//! ceiling while preserving the aspect ratio.
//!
//! Hardware encoders require even dimensions, so both scaled dimensions are
//! rounded down to the nearest even integer; a floor of 320x240 is then
//! applied so that the encoder is never asked for a degenerate output size.

use vstd::prelude::*;

verus! {

/// User-facing quality setting for one recording. `Ultra` has no resolution
/// ceiling and encodes at the source's native size.
#[derive(Clone, Copy, Debug, PartialEq, Eq, Structural)]
pub enum QualityTier {
    Low,
    Medium,
    High,
    Ultra,
}

/// Smallest width the policy will ever ask an encoder for.
pub const MIN_WIDTH: u32 = 320;

/// Smallest height the policy will ever ask an encoder for.
pub const MIN_HEIGHT: u32 = 240;

/// The encoder bitrate of each tier, in bits per second.
pub open spec fn spec_bitrate(tier: QualityTier) -> u32 {
    match tier {
        QualityTier::Low => 4_000_000,
        QualityTier::Medium => 8_000_000,
        QualityTier::High => 15_000_000,
        QualityTier::Ultra => 40_000_000,
    }
}

/// The resolution ceiling of each tier; `Ultra` has none.
pub open spec fn spec_target_resolution(tier: QualityTier) -> Option<(u32, u32)> {
    match tier {
        QualityTier::Low => Some((854, 480)),
        QualityTier::Medium => Some((1280, 720)),
        QualityTier::High => Some((1920, 1080)),
        QualityTier::Ultra => None,
    }
}

impl QualityTier {
    /// Encoder bitrate for this tier, in bits per second.
    pub fn bitrate(self) -> (r: u32)
        ensures
            r == spec_bitrate(self),
    {
        match self {
            QualityTier::Low => 4_000_000,
            QualityTier::Medium => 8_000_000,
            QualityTier::High => 15_000_000,
            QualityTier::Ultra => 40_000_000,
        }
    }

    /// Resolution ceiling for this tier; `None` means native resolution.
    pub fn target_resolution(self) -> (r: Option<(u32, u32)>)
        ensures
            r == spec_target_resolution(self),
    {
        match self {
            QualityTier::Low => Some((854, 480)),
            QualityTier::Medium => Some((1280, 720)),
            QualityTier::High => Some((1920, 1080)),
            QualityTier::Ultra => None,
        }
    }

    /// The tier selected by a settings string; anything unrecognised means
    /// `High`, matching the default used when no setting is stored.
    pub fn from_name(name: &str) -> (r: QualityTier)
        ensures
            r == spec_tier_from_name(name@),
    {
        if crate::text::str_eq(name, "low") {
            QualityTier::Low
        } else if crate::text::str_eq(name, "medium") {
            QualityTier::Medium
        } else if crate::text::str_eq(name, "high") {
            QualityTier::High
        } else if crate::text::str_eq(name, "ultra") {
            QualityTier::Ultra
        } else {
            QualityTier::High
        }
    }
}

/// `x` rounded down to the nearest even integer.
pub open spec fn spec_even_floor(x: int) -> int {
    x - x % 2
}

/// `x`, but never below `floor`.
pub open spec fn spec_at_least(x: int, floor: int) -> int {
    if x < floor {
        floor
    } else {
        x
    }
}

/// The source size scaled by `min(tw/sw, th/sh, 1)`, the one shared scale
/// factor applied to both dimensions, each product rounded down.
pub open spec fn spec_fitted(sw: int, sh: int, tw: int, th: int) -> (int, int) {
    if sw <= tw && sh <= th {
        (sw, sh)
    } else if tw * sh <= th * sw {
        (tw, (sh * tw) / sw)
    } else {
        ((sw * th) / sh, th)
    }
}

/// The source size scaled to the tier's ceiling (unchanged for `Ultra`),
/// before rounding to even and applying the 320x240 floor.
pub open spec fn spec_fitted_for(tier: QualityTier, sw: int, sh: int) -> (int, int) {
    match spec_target_resolution(tier) {
        Some(t) => spec_fitted(sw, sh, t.0 as int, t.1 as int),
        None => (sw, sh),
    }
}

/// What `scale_dimensions` returns: scale to the tier's ceiling with one
/// shared factor, round both dimensions down to even, clamp to 320x240.
pub open spec fn spec_scale_dimensions(tier: QualityTier, sw: int, sh: int) -> (int, int) {
    let f = spec_fitted_for(tier, sw, sh);
    (
        spec_at_least(spec_even_floor(f.0), MIN_WIDTH as int),
        spec_at_least(spec_even_floor(f.1), MIN_HEIGHT as int),
    )
}

/// Scales a source size to the tier's resolution ceiling without ever
/// upscaling, preserving the aspect ratio up to rounding; the result is
/// made even in both dimensions and clamped to a floor of 320x240.
pub fn scale_dimensions(tier: QualityTier, source_w: u32, source_h: u32) -> (r: (u32, u32))
    requires
        1 <= source_w,
        1 <= source_h,
    ensures
        r.0 == spec_scale_dimensions(tier, source_w as int, source_h as int).0,
        r.1 == spec_scale_dimensions(tier, source_w as int, source_h as int).1,
{
    let fitted: (u32, u32) = match tier.target_resolution() {
        None => (source_w, source_h),
        Some((tw, th)) => {
            if source_w <= tw && source_h <= th {
                (source_w, source_h)
            } else {
                proof {
                    vstd::arithmetic::mul::lemma_mul_upper_bound(
                        tw as int,
                        u32::MAX as int,
                        source_h as int,
                        u32::MAX as int,
                    );
                    vstd::arithmetic::mul::lemma_mul_upper_bound(
                        th as int,
                        u32::MAX as int,
                        source_w as int,
                        u32::MAX as int,
                    );
                    vstd::arithmetic::mul::lemma_mul_upper_bound(
                        source_h as int,
                        u32::MAX as int,
                        tw as int,
                        u32::MAX as int,
                    );
                    vstd::arithmetic::mul::lemma_mul_upper_bound(
                        source_w as int,
                        u32::MAX as int,
                        th as int,
                        u32::MAX as int,
                    );
                }
                let cross_w = (tw as u64) * (source_h as u64);
                let cross_h = (th as u64) * (source_w as u64);
                if cross_w <= cross_h {
                    proof {
                        lemma_limiting_side_shrinks(
                            source_w as int,
                            source_h as int,
                            tw as int,
                            th as int,
                        );
                    }
                    let scaled_h = ((source_h as u64) * (tw as u64)) / (source_w as u64);
                    proof {
                        lemma_scaled_at_most_source(source_h as int, tw as int, source_w as int);
                    }
                    (tw, scaled_h as u32)
                } else {
                    proof {
                        lemma_limiting_side_shrinks(
                            source_h as int,
                            source_w as int,
                            th as int,
                            tw as int,
                        );
                    }
                    let scaled_w = ((source_w as u64) * (th as u64)) / (source_h as u64);
                    proof {
                        lemma_scaled_at_most_source(source_w as int, th as int, source_h as int);
                    }
                    (scaled_w as u32, th)
                }
            }
        },
    };
    let even_w = fitted.0 - fitted.0 % 2;
    let even_h = fitted.1 - fitted.1 % 2;
    let out_w = if even_w < MIN_WIDTH {
        MIN_WIDTH
    } else {
        even_w
    };
    let out_h = if even_h < MIN_HEIGHT {
        MIN_HEIGHT
    } else {
        even_h
    };
    (out_w, out_h)
}

/// In the branch where the width ratio `t / s` is the smaller of the two
/// ratios and the source does not already fit, that ratio is below one.
proof fn lemma_limiting_side_shrinks(s: int, o: int, t: int, u: int)
    requires
        1 <= s,
        1 <= o,
        0 <= t,
        0 <= u,
        !(s <= t && o <= u),
        t * o <= u * s,
    ensures
        t < s,
{
    if s <= t {
        assert(u < o);
        assert(s * o <= t * o) by (nonlinear_arith)
            requires
                s <= t,
                0 <= o,
        ;
        assert(u * s < o * s) by (nonlinear_arith)
            requires
                u < o,
                1 <= s,
        ;
        assert(false);
    }
}

/// `(o * t) / s` stays at or below `o` when `t <= s`.
proof fn lemma_scaled_at_most_source(o: int, t: int, s: int)
    requires
        1 <= s,
        0 <= o,
        0 <= t <= s,
    ensures
        0 <= (o * t) / s <= o,
{
    vstd::arithmetic::div_mod::lemma_div_pos_is_pos(o * t, s);
    vstd::arithmetic::mul::lemma_mul_nonnegative(o, t);
    assert(o * t <= o * s) by (nonlinear_arith)
        requires
            t <= s,
            0 <= o,
    ;
    vstd::arithmetic::div_mod::lemma_div_is_ordered(o * t, o * s, s);
    vstd::arithmetic::div_mod::lemma_div_multiples_vanish(o, s);
}

/// For every tier and every source of at least 1x1, the scaled size is
/// even in both dimensions and at least 320x240.
pub proof fn lemma_scale_dimensions_even_and_floored(tier: QualityTier, sw: int, sh: int)
    requires
        1 <= sw,
        1 <= sh,
    ensures
        spec_scale_dimensions(tier, sw, sh).0 % 2 == 0,
        spec_scale_dimensions(tier, sw, sh).1 % 2 == 0,
        spec_scale_dimensions(tier, sw, sh).0 >= MIN_WIDTH,
        spec_scale_dimensions(tier, sw, sh).1 >= MIN_HEIGHT,
{
    let f = spec_fitted_for(tier, sw, sh);
    lemma_even_floor_properties(f.0);
    lemma_even_floor_properties(f.1);
}

/// Rounding down to even gives an even value no more than 1 below.
proof fn lemma_even_floor_properties(x: int)
    ensures
        spec_even_floor(x) % 2 == 0,
        x - 1 <= spec_even_floor(x) <= x,
{
    vstd::arithmetic::div_mod::lemma_fundamental_div_mod(x, 2);
    vstd::arithmetic::div_mod::lemma_mod_bound(x, 2);
    assert(spec_even_floor(x) == 2 * (x / 2));
    vstd::arithmetic::div_mod::lemma_mod_multiples_basic(x / 2, 2);
    assert((x / 2) * 2 == 2 * (x / 2)) by (nonlinear_arith);
}

/// The scaled size never exceeds the source, except that a source below
/// the 320x240 floor is lifted to the floor: each dimension stays within
/// the larger of the source and the floor, and within the source itself
/// whenever the source meets the floor.
pub proof fn lemma_scale_dimensions_bounded(tier: QualityTier, sw: int, sh: int)
    requires
        1 <= sw,
        1 <= sh,
    ensures
        spec_scale_dimensions(tier, sw, sh).0 <= spec_at_least(sw, MIN_WIDTH as int),
        spec_scale_dimensions(tier, sw, sh).1 <= spec_at_least(sh, MIN_HEIGHT as int),
        MIN_WIDTH <= sw ==> spec_scale_dimensions(tier, sw, sh).0 <= sw,
        MIN_HEIGHT <= sh ==> spec_scale_dimensions(tier, sw, sh).1 <= sh,
{
    lemma_fitted_at_most_source(tier, sw, sh);
    let f = spec_fitted_for(tier, sw, sh);
    lemma_even_floor_properties(f.0);
    lemma_even_floor_properties(f.1);
}

/// Fitting to a ceiling never upscales either dimension.
proof fn lemma_fitted_at_most_source(tier: QualityTier, sw: int, sh: int)
    requires
        1 <= sw,
        1 <= sh,
    ensures
        spec_fitted_for(tier, sw, sh).0 <= sw,
        spec_fitted_for(tier, sw, sh).1 <= sh,
        spec_fitted_for(tier, sw, sh).0 >= 0,
        spec_fitted_for(tier, sw, sh).1 >= 0,
{
    match spec_target_resolution(tier) {
        None => {},
        Some(t) => {
            let tw = t.0 as int;
            let th = t.1 as int;
            if sw <= tw && sh <= th {
            } else if tw * sh <= th * sw {
                lemma_limiting_side_shrinks(sw, sh, tw, th);
                lemma_scaled_at_most_source(sh, tw, sw);
            } else {
                lemma_limiting_side_shrinks(sh, sw, th, tw);
                lemma_scaled_at_most_source(sw, th, sh);
            }
        },
    }
}

/// For `Ultra` the source dimensions are kept, only rounded down to even
/// and clamped to the 320x240 floor.
pub proof fn lemma_scale_dimensions_ultra(w: int, h: int)
    ensures
        spec_scale_dimensions(QualityTier::Ultra, w, h) == (
            spec_at_least(spec_even_floor(w), MIN_WIDTH as int),
            spec_at_least(spec_even_floor(h), MIN_HEIGHT as int),
        ),
{
}

/// The scaled aspect ratio stays within the rounding error of even
/// clamping applied to one shared scale factor: cross-multiplied, the two
/// ratios differ by less than two source widths on one side and two source
/// heights on the other. Holds whenever the 320x240 floor is not hit.
pub proof fn lemma_scale_dimensions_aspect(tier: QualityTier, sw: int, sh: int)
    requires
        1 <= sw,
        1 <= sh,
        MIN_WIDTH <= spec_even_floor(spec_fitted_for(tier, sw, sh).0),
        MIN_HEIGHT <= spec_even_floor(spec_fitted_for(tier, sw, sh).1),
    ensures
        spec_scale_dimensions(tier, sw, sh).0 * sh < spec_scale_dimensions(tier, sw, sh).1 * sw
            + 2 * sw,
        spec_scale_dimensions(tier, sw, sh).1 * sw < spec_scale_dimensions(tier, sw, sh).0 * sh
            + 2 * sh,
{
    let f = spec_fitted_for(tier, sw, sh);
    let w2 = spec_even_floor(f.0);
    let h2 = spec_even_floor(f.1);
    lemma_even_floor_properties(f.0);
    lemma_even_floor_properties(f.1);
    let unscaled = f.0 == sw && f.1 == sh;
    if unscaled {
        assert(w2 * sh < h2 * sw + 2 * sw && h2 * sw < w2 * sh + 2 * sh) by (nonlinear_arith)
            requires
                1 <= sw,
                1 <= sh,
                sw - 1 <= w2 <= sw,
                sh - 1 <= h2 <= sh,
        ;
    } else {
        match spec_target_resolution(tier) {
            None => {},
            Some(t) => {
                let tw = t.0 as int;
                let th = t.1 as int;
                if sw <= tw && sh <= th {
                } else if tw * sh <= th * sw {
                    let q = (sh * tw) / sw;
                    vstd::arithmetic::mul::lemma_mul_nonnegative(sh, tw);
                    vstd::arithmetic::div_mod::lemma_fundamental_div_mod(sh * tw, sw);
                    vstd::arithmetic::div_mod::lemma_mod_bound(sh * tw, sw);
                    assert(w2 * sh < h2 * sw + 2 * sw && h2 * sw < w2 * sh + 2 * sh)
                        by (nonlinear_arith)
                        requires
                            1 <= sw,
                            1 <= sh,
                            tw - 1 <= w2 <= tw,
                            q - 1 <= h2 <= q,
                            sw * q <= sh * tw < sw * q + sw,
                    ;
                } else {
                    let q = (sw * th) / sh;
                    vstd::arithmetic::mul::lemma_mul_nonnegative(sw, th);
                    vstd::arithmetic::div_mod::lemma_fundamental_div_mod(sw * th, sh);
                    vstd::arithmetic::div_mod::lemma_mod_bound(sw * th, sh);
                    assert(w2 * sh < h2 * sw + 2 * sw && h2 * sw < w2 * sh + 2 * sh)
                        by (nonlinear_arith)
                        requires
                            1 <= sw,
                            1 <= sh,
                            th - 1 <= h2 <= th,
                            q - 1 <= w2 <= q,
                            sh * q <= sw * th < sh * q + sh,
                    ;
                }
            },
        }
    }
}

/// The tier each settings string selects; anything unrecognised means
/// `High`.
pub open spec fn spec_tier_from_name(name: Seq<char>) -> QualityTier {
    if name == "low"@ {
        QualityTier::Low
    } else if name == "medium"@ {
        QualityTier::Medium
    } else if name == "high"@ {
        QualityTier::High
    } else if name == "ultra"@ {
        QualityTier::Ultra
    } else {
        QualityTier::High
    }
}

} // verus!
