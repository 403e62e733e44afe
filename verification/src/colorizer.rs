//! Colorizers: rules that map pixel values, carried in fixed-point
//! micro-units, to RGBA colors.

use vstd::prelude::*;

use crate::error::Error;

verus! {

/// A color with red, green, blue and alpha channels.
#[derive(Debug, Clone, Copy, PartialEq, Eq, Structural)]
pub struct RgbaColor {
    pub r: u8,
    pub g: u8,
    pub b: u8,
    pub a: u8,
}

impl RgbaColor {
    pub fn new(r: u8, g: u8, b: u8, a: u8) -> (c: Self)
        ensures
            c == (RgbaColor { r, g, b, a }),
    {
        RgbaColor { r, g, b, a }
    }

    pub fn white() -> (c: Self)
        ensures
            c == (RgbaColor { r: 255u8, g: 255u8, b: 255u8, a: 255u8 }),
    {
        RgbaColor { r: 255, g: 255, b: 255, a: 255 }
    }

    pub fn black() -> (c: Self)
        ensures
            c == (RgbaColor { r: 0u8, g: 0u8, b: 0u8, a: 255u8 }),
    {
        RgbaColor { r: 0, g: 0, b: 0, a: 255 }
    }

    pub fn transparent() -> (c: Self)
        ensures
            c == (RgbaColor { r: 0u8, g: 0u8, b: 0u8, a: 0u8 }),
    {
        RgbaColor { r: 0, g: 0, b: 0, a: 0 }
    }

    pub fn pink() -> (c: Self)
        ensures
            c == (RgbaColor { r: 255u8, g: 0u8, b: 255u8, a: 255u8 }),
    {
        RgbaColor { r: 255, g: 0, b: 255, a: 255 }
    }
}

/// One gradient stop: a pixel value in micro-units and its color.
#[derive(Debug, Clone, Copy, PartialEq, Eq, Structural)]
pub struct Breakpoint {
    pub value: i64,
    pub color: RgbaColor,
}

/// A rule mapping pixel values to colors.
#[derive(Debug, PartialEq, Eq)]
pub enum Colorizer {
    /// Linear interpolation between ascending gradient stops; values
    /// outside the stops take `default_color`.
    LinearGradient {
        breakpoints: Vec<Breakpoint>,
        no_data_color: RgbaColor,
        default_color: RgbaColor,
    },
    /// An exact lookup table; values not listed take `default_color`.
    Palette { colors: Vec<(i64, RgbaColor)>, no_data_color: RgbaColor, default_color: RgbaColor },
    /// Pixel values are themselves packed RGBA.
    Rgba,
}

/// A gradient is valid with at least two stops in strictly ascending
/// order of value.
pub open spec fn gradient_breakpoints_valid(breakpoints: Seq<Breakpoint>) -> bool {
    &&& breakpoints.len() >= 2
    &&& forall|i: int, j: int|
        0 <= i < j < breakpoints.len() ==> breakpoints[i].value < breakpoints[j].value
}

impl Colorizer {
    /// The colorizer's internal validity.
    pub open spec fn wf(self) -> bool {
        match self {
            Colorizer::LinearGradient { breakpoints, .. } => gradient_breakpoints_valid(
                breakpoints@,
            ),
            Colorizer::Palette { colors, .. } => colors@.len() >= 1,
            Colorizer::Rgba => true,
        }
    }

    /// Builds a linear-gradient colorizer; rejects fewer than two stops
    /// and stops out of strictly ascending order.
    pub fn linear_gradient(
        breakpoints: Vec<Breakpoint>,
        no_data_color: RgbaColor,
        default_color: RgbaColor,
    ) -> (r: Result<Colorizer, Error>)
        ensures
            r is Ok <==> gradient_breakpoints_valid(breakpoints@),
            r matches Ok(c) ==> c == (Colorizer::LinearGradient {
                breakpoints,
                no_data_color,
                default_color,
            }) && c.wf(),
            r matches Err(e) ==> e matches Error::Colorizer { .. },
    {
        if breakpoints.len() < 2 {
            proof {
                reveal_strlit("linear gradient requires at least two breakpoints");
            }
            return Err(
                Error::Colorizer {
                    details: "linear gradient requires at least two breakpoints".to_owned(),
                },
            );
        }
        let mut i: usize = 1;
        while i < breakpoints.len()
            invariant
                1 <= i <= breakpoints@.len(),
                forall|p: int, q: int|
                    0 <= p < q < i ==> breakpoints@[p].value < breakpoints@[q].value,
            decreases breakpoints@.len() - i,
        {
            if breakpoints[i - 1].value >= breakpoints[i].value {
                proof {
                    reveal_strlit("linear gradient breakpoints must be strictly ascending");
                }
                return Err(
                    Error::Colorizer {
                        details: "linear gradient breakpoints must be strictly ascending".to_owned(),
                    },
                );
            }
            proof {
                assert(forall|p: int, q: int|
                    0 <= p < q < i + 1 ==> breakpoints@[p].value < breakpoints@[q].value) by {
                    assert(forall|p: int|
                        0 <= p < i ==> #[trigger] breakpoints@[p].value <= breakpoints@[i
                            - 1].value);
                }
            }
            i = i + 1;
        }
        Ok(Colorizer::LinearGradient { breakpoints, no_data_color, default_color })
    }

    /// The color the rule assigns to a pixel value, in micro-units.
    pub fn color_at(&self, value: i64) -> (r: RgbaColor)
        requires
            self.wf(),
        ensures
            r == spec_color_at(*self, value),
    {
        match self {
            Colorizer::LinearGradient { breakpoints, no_data_color: _, default_color } => {
                gradient_color(breakpoints, *default_color, value)
            },
            Colorizer::Palette { colors, no_data_color: _, default_color } => {
                palette_color(colors, *default_color, value)
            },
            Colorizer::Rgba => {
                if value >= 0 {
                    let raw = value / 1_000_000;
                    if raw <= 0xFFFF_FFFF {
                        RgbaColor {
                            r: ((raw / 0x0100_0000) % 0x100) as u8,
                            g: ((raw / 0x0001_0000) % 0x100) as u8,
                            b: ((raw / 0x0000_0100) % 0x100) as u8,
                            a: (raw % 0x100) as u8,
                        }
                    } else {
                        RgbaColor { r: 0, g: 0, b: 0, a: 0 }
                    }
                } else {
                    RgbaColor { r: 0, g: 0, b: 0, a: 0 }
                }
            },
        }
    }

    /// The color for cells that hold no data.
    pub fn no_data_color(&self) -> (r: RgbaColor)
        ensures
            r == match *self {
                Colorizer::LinearGradient { no_data_color, .. } => no_data_color,
                Colorizer::Palette { no_data_color, .. } => no_data_color,
                Colorizer::Rgba => RgbaColor { r: 0u8, g: 0u8, b: 0u8, a: 0u8 },
            },
    {
        match self {
            Colorizer::LinearGradient { no_data_color, .. } => *no_data_color,
            Colorizer::Palette { no_data_color, .. } => *no_data_color,
            Colorizer::Rgba => RgbaColor { r: 0, g: 0, b: 0, a: 0 },
        }
    }
}


/// The gradient arm of the color rule: values outside the stops take the
/// default color, values within are interpolated in their segment.
fn gradient_color(breakpoints: &Vec<Breakpoint>, default_color: RgbaColor, value: i64) -> (r:
    RgbaColor)
    requires
        gradient_breakpoints_valid(breakpoints@),
    ensures
        value < breakpoints@[0].value || value > breakpoints@[breakpoints@.len() - 1].value ==> r
            == default_color,
        breakpoints@[0].value <= value <= breakpoints@[breakpoints@.len() - 1].value ==> r
            == spec_gradient_color(breakpoints@, value),
{
    let n = breakpoints.len();
    if value < breakpoints[0].value || value > breakpoints[n - 1].value {
        return default_color;
    }
    let ghost bps0 = breakpoints@;
    let mut k: usize = 0;
    proof {
        assert(bps0.skip(0) =~= bps0);
    }
    while k + 2 < n && value > breakpoints[k + 1].value
        invariant
            0 <= k,
            k + 2 <= n,
            n == breakpoints@.len(),
            bps0 == breakpoints@,
            breakpoints@[k as int].value <= value,
            spec_gradient_color(bps0.skip(k as int), value) == spec_gradient_color(bps0, value),
            gradient_breakpoints_valid(bps0),
            value <= bps0[n - 1].value,
        decreases n - k,
    {
        proof {
            assert(bps0.skip(k as int).len() > 2);
            assert(bps0.skip(k as int)[1] == bps0[k + 1]);
            assert(bps0.skip(k as int).skip(1) =~= bps0.skip(k as int + 1));
        }
        k = k + 1;
    }
    proof {
        assert(bps0.skip(k as int)[0] == bps0[k as int]);
        assert(bps0.skip(k as int)[1] == bps0[k + 1]);
        assert(bps0.skip(k as int).len() == n - k);
        if !(k + 2 < n) {
            assert(k + 2 == n);
            assert(value <= bps0[k + 1].value);
        }
        assert(spec_gradient_color(bps0.skip(k as int), value) == spec_lerp_color(
            bps0[k as int],
            bps0[k + 1],
            value,
        ));
    }
    lerp_color(&breakpoints[k], &breakpoints[k + 1], value)
}

/// The palette arm of the color rule: the first exact entry, or the
/// default color.
fn palette_color(colors: &Vec<(i64, RgbaColor)>, default_color: RgbaColor, value: i64) -> (r:
    RgbaColor)
    ensures
        r == match spec_palette_color(colors@, value) {
            Some(color) => color,
            None => default_color,
        },
{
    let ghost cs0 = colors@;
    proof {
        assert(cs0.skip(0) =~= cs0);
    }
    let mut i: usize = 0;
    while i < colors.len()
        invariant
            0 <= i <= colors@.len(),
            cs0 == colors@,
            spec_palette_color(cs0.skip(i as int), value) == spec_palette_color(cs0, value),
        decreases colors@.len() - i,
    {
        proof {
            assert(cs0.skip(i as int)[0] == cs0[i as int]);
        }
        if colors[i].0 == value {
            proof {
                assert(spec_palette_color(cs0.skip(i as int), value) == Some(cs0[i as int].1));
            }
            return colors[i].1;
        }
        proof {
            assert(cs0.skip(i as int).skip(1) =~= cs0.skip(i as int + 1));
        }
        i = i + 1;
    }
    proof {
        assert(cs0.skip(i as int) =~= Seq::<(i64, RgbaColor)>::empty());
    }
    default_color
}

/// Division rounded to the nearest integer, half away from zero, for a
/// positive divisor.
pub open spec fn round_div(a: int, b: int) -> int {
    if a >= 0 {
        (2 * a + b) / (2 * b)
    } else {
        -((2 * (-a) + b) / (2 * b))
    }
}

/// One channel interpolated between two stops: the left channel plus the
/// rounded share of the difference.
pub open spec fn spec_lerp_channel(c0: u8, c1: u8, v0: i64, v1: i64, v: i64) -> int {
    c0 + round_div((v - v0) * (c1 - c0), v1 - v0)
}

/// The color interpolated between two gradient stops.
pub open spec fn spec_lerp_color(left: Breakpoint, right: Breakpoint, v: i64) -> RgbaColor {
    RgbaColor {
        r: spec_lerp_channel(left.color.r, right.color.r, left.value, right.value, v) as u8,
        g: spec_lerp_channel(left.color.g, right.color.g, left.value, right.value, v) as u8,
        b: spec_lerp_channel(left.color.b, right.color.b, left.value, right.value, v) as u8,
        a: spec_lerp_channel(left.color.a, right.color.a, left.value, right.value, v) as u8,
    }
}

/// The gradient's color for a value within its stops: the first segment
/// whose right stop is not below the value interpolates it.
pub open spec fn spec_gradient_color(bps: Seq<Breakpoint>, v: i64) -> RgbaColor
    decreases bps.len(),
{
    if bps.len() <= 2 || v <= bps[1].value {
        spec_lerp_color(bps[0], bps[1], v)
    } else {
        spec_gradient_color(bps.skip(1), v)
    }
}

/// The palette's color for a value: the first exact entry, scanned front
/// to back.
pub open spec fn spec_palette_color(colors: Seq<(i64, RgbaColor)>, v: i64) -> Option<RgbaColor>
    decreases colors.len(),
{
    if colors.len() == 0 {
        None
    } else if colors[0].0 == v {
        Some(colors[0].1)
    } else {
        spec_palette_color(colors.skip(1), v)
    }
}

/// The color a colorizer assigns to a value.
pub open spec fn spec_color_at(c: Colorizer, v: i64) -> RgbaColor {
    match c {
        Colorizer::LinearGradient { breakpoints, no_data_color: _, default_color } => {
            if v < breakpoints@[0].value || v > breakpoints@[breakpoints@.len() - 1].value {
                default_color
            } else {
                spec_gradient_color(breakpoints@, v)
            }
        },
        Colorizer::Palette { colors, no_data_color: _, default_color } => {
            match spec_palette_color(colors@, v) {
                Some(color) => color,
                None => default_color,
            }
        },
        Colorizer::Rgba => {
            if 0 <= v && v / 1_000_000 <= 0xFFFF_FFFF {
                let raw = v / 1_000_000;
                RgbaColor {
                    r: ((raw / 0x0100_0000) % 0x100) as u8,
                    g: ((raw / 0x0001_0000) % 0x100) as u8,
                    b: ((raw / 0x0000_0100) % 0x100) as u8,
                    a: (raw % 0x100) as u8,
                }
            } else {
                RgbaColor { r: 0u8, g: 0u8, b: 0u8, a: 0u8 }
            }
        },
    }
}

/// Rounded division of a value between zero and `b * m` yields a
/// quotient between zero and `m`.
proof fn lemma_round_div_nonneg_bounds(a: int, b: int, m: int)
    requires
        b > 0,
        0 <= m,
        0 <= a <= b * m,
    ensures
        0 <= (2 * a + b) / (2 * b) <= m,
{
    vstd::arithmetic::div_mod::lemma_div_pos_is_pos(2 * a + b, 2 * b);
    assert(2 * a + b < (2 * b) * (m + 1)) by (nonlinear_arith)
        requires
            0 <= a <= b * m,
            b > 0,
    ;
    vstd::arithmetic::div_mod::lemma_multiply_divide_lt(2 * a + b, 2 * b, m + 1);
}

/// An interpolated channel stays between its two stops.
proof fn lemma_lerp_channel_bounds(c0: u8, c1: u8, v0: i64, v1: i64, v: i64)
    requires
        v0 < v1,
        v0 <= v <= v1,
    ensures
        0 <= spec_lerp_channel(c0, c1, v0, v1, v) <= 255,
{
    let t = v - v0;
    let den = v1 - v0;
    let diff = c1 - c0;
    let num = t * diff;
    if diff >= 0 {
        assert(0 <= num <= den * diff) by (nonlinear_arith)
            requires
                num == t * diff,
                0 <= t <= den,
                0 <= diff,
        ;
        lemma_round_div_nonneg_bounds(num, den, diff);
        assert(round_div(num, den) == (2 * num + den) / (2 * den));
        assert(c0 <= c0 + round_div(num, den) <= c0 + diff);
    } else {
        assert(0 <= -num <= den * (-diff)) by (nonlinear_arith)
            requires
                num == t * diff,
                0 <= t <= den,
                diff < 0,
        ;
        lemma_round_div_nonneg_bounds(-num, den, -diff);
        if num >= 0 {
            assert(num == 0);
            assert(round_div(num, den) == (2 * num + den) / (2 * den));
            assert(0 <= round_div(num, den) <= 0) by {
                lemma_round_div_nonneg_bounds(num, den, 0);
            }
        } else {
            assert(round_div(num, den) == -((2 * (-num) + den) / (2 * den)));
            assert(diff <= round_div(num, den) <= 0);
        }
    }
}

/// Interpolates all four channels between two gradient stops.
fn lerp_color(left: &Breakpoint, right: &Breakpoint, v: i64) -> (r: RgbaColor)
    requires
        left.value < right.value,
        left.value <= v <= right.value,
    ensures
        r == spec_lerp_color(*left, *right, v),
{
    RgbaColor {
        r: lerp_channel(left.color.r, right.color.r, left.value, right.value, v),
        g: lerp_channel(left.color.g, right.color.g, left.value, right.value, v),
        b: lerp_channel(left.color.b, right.color.b, left.value, right.value, v),
        a: lerp_channel(left.color.a, right.color.a, left.value, right.value, v),
    }
}

/// Interpolates one channel between two stops, exactly as the rounded
/// rational interpolation specifies.
fn lerp_channel(c0: u8, c1: u8, v0: i64, v1: i64, v: i64) -> (r: u8)
    requires
        v0 < v1,
        v0 <= v <= v1,
    ensures
        r == spec_lerp_channel(c0, c1, v0, v1, v),
{
    proof {
        lemma_lerp_channel_bounds(c0, c1, v0, v1, v);
    }
    let t: i128 = (v as i128) - (v0 as i128);
    let den: i128 = (v1 as i128) - (v0 as i128);
    let diff: i128 = (c1 as i128) - (c0 as i128);
    proof {
        assert(t * diff == (v - v0) * (c1 - c0)) by (nonlinear_arith)
            requires
                t == v - v0,
                diff == c1 - c0,
        ;
        assert(t * diff <= den * 256 && t * diff >= -(den * 256)) by (nonlinear_arith)
            requires
                0 <= t <= den,
                -256 <= diff <= 256,
                den > 0,
        ;
    }
    let num: i128 = t * diff;
    let rounded: i128 = if num >= 0 {
        (2 * num + den) / (2 * den)
    } else {
        -((2 * (-num) + den) / (2 * den))
    };
    (c0 as i128 + rounded) as u8
}

} // verus!
