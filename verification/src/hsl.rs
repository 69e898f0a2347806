//! RGB and HSL conversion, in exact arithmetic.
//!
//! An HSL value is a hue in degrees, a saturation and a lightness, each kept
//! as an exact fraction. Conversion from RGB is exact; conversion to RGB
//! follows the standard CSS basis function and rounds each channel to the
//! nearest byte.

use vstd::prelude::*;
use crate::frac::Frac;
use crate::Color;

verus! {

/// The numerator of the upper blend point `m2 = if l <= 1/2 { l * (s + 1) }
/// else { l + s - l * s }`, at scale `sd * ld`.
pub open spec fn m2_num(sn: int, sd: int, ln: int, ld: int) -> int {
    if 2 * ln <= ld {
        ln * (sn + sd)
    } else {
        ln * sd + sn * ld - ln * sn
    }
}

/// The numerator of the lower blend point `m1 = 2 * l - m2`, at scale
/// `sd * ld`.
pub open spec fn m1_num(sn: int, sd: int, ln: int, ld: int) -> int {
    2 * ln * sd - m2_num(sn, sd, ln, ld)
}

/// One wrap step of a hue argument given in 1080ths: values below zero gain
/// one turn, values above one turn lose one.
pub open spec fn hue_wrap(h: int) -> int {
    if h < 0 {
        h + 1080
    } else if h > 1080 {
        h - 1080
    } else {
        h
    }
}

/// The hue basis function on a wrapped argument `h` in 1080ths, with blend
/// points `m1`, `m2` at a common scale: the numerator of the result at 180
/// times that scale.
pub open spec fn hue_point(m1: int, m2: int, h: int) -> int {
    if h < 180 {
        m1 * 180 + (m2 - m1) * h
    } else if h < 540 {
        m2 * 180
    } else if h < 720 {
        m1 * 180 + (m2 - m1) * (720 - h)
    } else {
        m1 * 180
    }
}

/// One channel of the HSL to RGB conversion: the hue basis function scaled to
/// the byte range and rounded to the nearest value. The hue argument `h` is
/// in 1080ths of a turn and may be up to one turn outside [0, 1].
pub open spec fn hsl_channel(sn: int, sd: int, ln: int, ld: int, h: int) -> int {
    let m2 = m2_num(sn, sd, ln, ld);
    let m1 = m1_num(sn, sd, ln, ld);
    let hp = hue_point(m1, m2, hue_wrap(h));
    let d = sd * ld * 180;
    (2 * 255 * hp + d) / (2 * d)
}

/// The color of an HSL value: hue `deg` in degrees in [0, 360], saturation
/// `sn / sd` and lightness `ln / ld` in [0, 1]. The red, green and blue
/// channels evaluate the hue basis at a third of a turn up, at the hue, and
/// at a third of a turn down.
pub open spec fn hsl_rgb(sn: int, sd: int, ln: int, ld: int, deg: int) -> Color {
    Color {
        red: hsl_channel(sn, sd, ln, ld, 3 * deg + 360) as u8,
        green: hsl_channel(sn, sd, ln, ld, 3 * deg) as u8,
        blue: hsl_channel(sn, sd, ln, ld, 3 * deg - 360) as u8,
    }
}

/// A hue clamped into [0, 360] degrees.
pub open spec fn clamp_deg(h: int) -> int {
    if h < 0 {
        0
    } else if h > 360 {
        360
    } else {
        h
    }
}

/// The blend points lie between zero and one at their scale, in order.
proof fn lemma_m_bounds(sn: int, sd: int, ln: int, ld: int, m2: int)
    by (nonlinear_arith)
    requires
        0 <= sn <= sd,
        0 <= ln <= ld,
        1 <= sd,
        1 <= ld,
        m2 == (if 2 * ln <= ld {
            ln * (sn + sd)
        } else {
            ln * sd + sn * ld - ln * sn
        }),
    ensures
        0 <= 2 * ln * sd - m2 <= m2 <= sd * ld,
{
}

/// The hue basis stays between zero and one at its scale.
proof fn lemma_hue_point_bounds(m1: int, m2: int, s: int, h: int, hp: int)
    by (nonlinear_arith)
    requires
        0 <= m1 <= m2 <= s,
        0 <= h <= 1080,
        hp == (if h < 180 {
            m1 * 180 + (m2 - m1) * h
        } else if h < 540 {
            m2 * 180
        } else if h < 720 {
            m1 * 180 + (m2 - m1) * (720 - h)
        } else {
            m1 * 180
        }),
    ensures
        0 <= hp <= s * 180,
{
}

/// A share of 255 rounds to a byte value.
proof fn lemma_round_channel_bound(n: int, d: int)
    by (nonlinear_arith)
    requires
        1 <= d,
        0 <= n <= d,
    ensures
        0 <= (2 * 255 * n + d) / (2 * d) <= 255,
{
}

/// One channel of the HSL to RGB conversion.
fn hsl_channel_exec(saturation: Frac, lightness: Frac, h: i32) -> (r: u8)
    requires
        saturation.wf(),
        saturation.in_unit(),
        lightness.wf(),
        lightness.in_unit(),
        -360 <= h <= 1440,
    ensures
        r == hsl_channel(
            saturation.num as int,
            saturation.den as int,
            lightness.num as int,
            lightness.den as int,
            h as int,
        ),
{
    let sn = saturation.num as u128;
    let sd = saturation.den as u128;
    let ln = lightness.num as u128;
    let ld = lightness.den as u128;
    let hw: u128 = if h < 0 {
        (h + 1080) as u128
    } else if h > 1080 {
        (h - 1080) as u128
    } else {
        h as u128
    };
    proof {
        assert(ln * (sn + sd) <= 20_000_000_000_000_000_000_000 && ln * sd
            <= 10_000_000_000_000_000_000_000 && sn * ld <= 10_000_000_000_000_000_000_000 && ln
            * sn <= 10_000_000_000_000_000_000_000) by (nonlinear_arith)
            requires
                0 <= sn <= sd <= 100_000_000_000,
                0 <= ln <= ld <= 100_000_000_000,
        ;
    }
    let m2: u128 = if 2 * ln <= ld {
        ln * (sn + sd)
    } else {
        proof {
            assert(ln * sd + sn * ld >= ln * sn) by (nonlinear_arith)
                requires
                    0 <= sn <= sd,
                    0 <= ln <= ld,
            ;
        }
        ln * sd + sn * ld - ln * sn
    };
    proof {
        lemma_m_bounds(sn as int, sd as int, ln as int, ld as int, m2 as int);
        assert(1 <= sd * ld <= 100_000_000_000u128 * 100_000_000_000u128) by (nonlinear_arith)
            requires
                0 < sd <= 100_000_000_000,
                0 < ld <= 100_000_000_000,
        ;
    }
    let m1: u128 = 2 * ln * sd - m2;
    proof {
        assert((m2 - m1) * hw <= 10_000_000_000_000_000_000_000 * 1080 && (m2 - m1) * (720 - hw)
            <= 10_000_000_000_000_000_000_000 * 1080) by (nonlinear_arith)
            requires
                0 <= m1 <= m2 <= 10_000_000_000_000_000_000_000,
                0 <= hw <= 1080,
        ;
    }
    let hp: u128 = if hw < 180 {
        m1 * 180 + (m2 - m1) * hw
    } else if hw < 540 {
        m2 * 180
    } else if hw < 720 {
        m1 * 180 + (m2 - m1) * (720 - hw)
    } else {
        m1 * 180
    };
    proof {
        lemma_hue_point_bounds(m1 as int, m2 as int, (sd * ld) as int, hw as int, hp as int);
    }
    let d: u128 = sd * ld * 180;
    proof {
        assert(hp <= 1_800_000_000_000_000_000_000_000 && 180 <= d
            <= 1_800_000_000_000_000_000_000_000);
        lemma_round_channel_bound(hp as int, d as int);
    }
    let t1: u128 = 255 * hp;
    let t2: u128 = 2 * t1 + d;
    ((t2) / (2 * d)) as u8
}

/// Converts an HSL value to a color: the hue in degrees (clamped into
/// [0, 360]), the saturation and the lightness (each clamped into [0, 1]).
pub fn hsl_to_rgb(hue: i64, saturation: Frac, lightness: Frac) -> (c: Color)
    requires
        saturation.wf(),
        lightness.wf(),
    ensures
        ({
            let s = crate::parse::clamp01(saturation.num as int, saturation.den as int);
            let l = crate::parse::clamp01(lightness.num as int, lightness.den as int);
            c == hsl_rgb(s.0, s.1, l.0, l.1, clamp_deg(hue as int))
        }),
{
    let deg: i32 = if hue < 0 {
        0
    } else if hue > 360 {
        360
    } else {
        hue as i32
    };
    let s = saturation.clamp_unit();
    let l = lightness.clamp_unit();
    Color {
        red: hsl_channel_exec(s, l, 3 * deg + 360),
        green: hsl_channel_exec(s, l, 3 * deg),
        blue: hsl_channel_exec(s, l, 3 * deg - 360),
    }
}

/// The largest of three channel values.
pub open spec fn max3(r: int, g: int, b: int) -> int {
    if r >= g && r >= b {
        r
    } else if g >= b {
        g
    } else {
        b
    }
}

/// The smallest of three channel values.
pub open spec fn min3(r: int, g: int, b: int) -> int {
    if r <= g && r <= b {
        r
    } else if g <= b {
        g
    } else {
        b
    }
}

/// The exact hue, in degrees, of a color that is not gray: 60 times the
/// channel comparison chosen by the largest channel, over the channel spread.
/// Red is preferred over green and green over blue when channels tie.
pub open spec fn hue_frac(r: int, g: int, b: int) -> (int, int) {
    let mx = max3(r, g, b);
    let mn = min3(r, g, b);
    let diff = mx - mn;
    if mx == r {
        if g < b {
            (60 * (g - b) + 360 * diff, diff)
        } else {
            (60 * (g - b), diff)
        }
    } else if mx == g {
        (60 * (b - r) + 120 * diff, diff)
    } else {
        (60 * (r - g) + 240 * diff, diff)
    }
}

/// The exact saturation of a color that is not gray: the spread over the
/// lightness-dependent base.
pub open spec fn sat_frac(r: int, g: int, b: int) -> (int, int) {
    let mx = max3(r, g, b);
    let mn = min3(r, g, b);
    if mx + mn > 255 {
        (mx - mn, 510 - mx - mn)
    } else {
        (mx - mn, mx + mn)
    }
}

/// Converts a color to its exact HSL value: the hue in degrees in [0, 360),
/// the saturation and the lightness in [0, 1], each an exact fraction. A gray
/// color (all channels equal) has hue and saturation zero.
pub fn rgb_to_hsl(r: u8, g: u8, b: u8) -> (hsl: (Frac, Frac, Frac))
    ensures
        hsl.2.num == max3(r as int, g as int, b as int) + min3(r as int, g as int, b as int),
        hsl.2.den == 510,
        r == g && g == b ==> hsl.0 == (Frac { num: 0, den: 1 }) && hsl.1 == (Frac {
            num: 0,
            den: 1,
        }),
        !(r == g && g == b) ==> {
            &&& (hsl.0.num as int, hsl.0.den as int) == hue_frac(r as int, g as int, b as int)
            &&& (hsl.1.num as int, hsl.1.den as int) == sat_frac(r as int, g as int, b as int)
        },
        hsl.0.wf() && hsl.1.wf() && hsl.2.wf(),
        hsl.1.in_unit() && hsl.2.in_unit(),
        0 <= hsl.0.num < 360 * hsl.0.den,
{
    let mx: u16 = if r >= g && r >= b {
        r as u16
    } else if g >= b {
        g as u16
    } else {
        b as u16
    };
    let mn: u16 = if r <= g && r <= b {
        r as u16
    } else if g <= b {
        g as u16
    } else {
        b as u16
    };
    let lightness = Frac::new((mx + mn) as i64, 510);
    if mx == mn {
        return (Frac::zero(), Frac::zero(), lightness);
    }
    let diff = mx - mn;
    let saturation = if mx + mn > 255 {
        Frac::new(diff as i64, (510 - mx - mn) as u64)
    } else {
        Frac::new(diff as i64, (mx + mn) as u64)
    };
    let hue = if mx == r as u16 {
        if g < b {
            Frac::new(60 * (g as i64 - b as i64) + 360 * diff as i64, diff as u64)
        } else {
            Frac::new(60 * (g as i64 - b as i64), diff as u64)
        }
    } else if mx == g as u16 {
        Frac::new(60 * (b as i64 - r as i64) + 120 * diff as i64, diff as u64)
    } else {
        Frac::new(60 * (r as i64 - g as i64) + 240 * diff as i64, diff as u64)
    };
    (hue, saturation, lightness)
}

} // verus!
