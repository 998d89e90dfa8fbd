//! Paint-value resolution: parsing literal color strings and resolving
//! stop tables by zoom with piecewise-linear interpolation.
//!
//! A literal color is written `#rrggbb` or `#rrggbbaa` in hexadecimal.
//! A stop table maps input zooms to output colors; resolving below the
//! first stop yields the first output, at or above the last stop the
//! last output, and between two bracketing stops the channel-wise
//! linear interpolation of their outputs.  Bracketing is first match
//! wins: the bracket is the earliest adjacent pair whose right input
//! lies strictly above the zoom.

use vstd::prelude::*;
use vstd::arithmetic::div_mod::lemma_div_pos_is_pos;
use vstd::arithmetic::div_mod::lemma_multiply_divide_le;
use vstd::arithmetic::div_mod::lemma_multiply_divide_lt;
use vstd::arithmetic::mul::lemma_mul_inequality;
use vstd::arithmetic::mul::lemma_mul_nonnegative;
use vstd::arithmetic::mul::lemma_mul_strict_inequality;
use vstd::string::StrSliceExecFns;

use crate::style::FillColor;
use crate::style::Stop;

verus! {

/// One resolved color, in 8-bit red, green, blue and alpha channels.
#[derive(Clone, Copy, PartialEq, Eq, Structural, Debug)]
pub struct Color {
    pub r: u8,
    pub g: u8,
    pub b: u8,
    pub a: u8,
}

/// Why a paint value failed to resolve.
#[derive(Clone, Copy, PartialEq, Eq, Structural, Debug)]
pub enum PaintError {
    /// A color string that is not `#rrggbb` or `#rrggbbaa` hexadecimal.
    InvalidColor,
    /// A stop table with no stops at all.
    InvalidPaintExpression,
}

/// The value of one hexadecimal digit, or a negative number for any
/// other character.
pub open spec fn spec_hex_val(c: char) -> int {
    if '0' <= c && c <= '9' {
        c as int - '0' as int
    } else if 'a' <= c && c <= 'f' {
        10 + c as int - 'a' as int
    } else if 'A' <= c && c <= 'F' {
        10 + c as int - 'A' as int
    } else {
        -1
    }
}

/// The channel value written by the two hex digits at `i` and `i + 1`.
pub open spec fn spec_hex_pair(s: Seq<char>, i: int) -> int {
    16 * spec_hex_val(s[i]) + spec_hex_val(s[i + 1])
}

/// Parses a literal color string: `#` followed by six or eight
/// hexadecimal digits; with six, the alpha channel is fully opaque.
pub open spec fn spec_parse_color(s: Seq<char>) -> Option<Color> {
    if s.len() != 7 && s.len() != 9 {
        None
    } else if s[0] != '#' {
        None
    } else if spec_hex_val(s[1]) < 0 || spec_hex_val(s[2]) < 0 || spec_hex_val(s[3]) < 0
        || spec_hex_val(s[4]) < 0 || spec_hex_val(s[5]) < 0 || spec_hex_val(s[6]) < 0 || (s.len()
        == 9 && (spec_hex_val(s[7]) < 0 || spec_hex_val(s[8]) < 0)) {
        None
    } else {
        Some(
            Color {
                r: spec_hex_pair(s, 1) as u8,
                g: spec_hex_pair(s, 3) as u8,
                b: spec_hex_pair(s, 5) as u8,
                a: if s.len() == 9 {
                    spec_hex_pair(s, 7) as u8
                } else {
                    255
                },
            },
        )
    }
}

/// The value of `c` as a hexadecimal digit, negative for any other
/// character.
fn hex_val(c: char) -> (r: i64)
    ensures
        r as int == spec_hex_val(c),
{
    if '0' <= c && c <= '9' {
        c as i64 - '0' as i64
    } else if 'a' <= c && c <= 'f' {
        10 + c as i64 - 'a' as i64
    } else if 'A' <= c && c <= 'F' {
        10 + c as i64 - 'A' as i64
    } else {
        -1
    }
}

/// Parses a literal color string, or nothing where it is not `#rrggbb`
/// or `#rrggbbaa` hexadecimal.
pub fn parse_color(s: &String) -> (r: Option<Color>)
    ensures
        r == spec_parse_color(s@),
{
    let st = s.as_str();
    let n = st.unicode_len();
    if n != 7 && n != 9 {
        return None;
    }
    if st.get_char(0) != '#' {
        return None;
    }
    let h1 = hex_val(st.get_char(1));
    let h2 = hex_val(st.get_char(2));
    let h3 = hex_val(st.get_char(3));
    let h4 = hex_val(st.get_char(4));
    let h5 = hex_val(st.get_char(5));
    let h6 = hex_val(st.get_char(6));
    if h1 < 0 || h2 < 0 || h3 < 0 || h4 < 0 || h5 < 0 || h6 < 0 {
        return None;
    }
    let alpha: i64 = if n == 9 {
        let h7 = hex_val(st.get_char(7));
        let h8 = hex_val(st.get_char(8));
        if h7 < 0 || h8 < 0 {
            return None;
        }
        16 * h7 + h8
    } else {
        255
    };
    Some(
        Color {
            r: (16 * h1 + h2) as u8,
            g: (16 * h3 + h4) as u8,
            b: (16 * h5 + h6) as u8,
            a: alpha as u8,
        },
    )
}

/// Channel-wise linear interpolation at offset `dz` of `den` between
/// `a` and `b`, rounding the fraction of the span toward zero.
pub open spec fn spec_lerp(a: int, b: int, dz: int, den: int) -> int {
    if b >= a {
        a + (b - a) * dz / den
    } else {
        a - (a - b) * dz / den
    }
}

/// The interpolated color at offset `dz` of `den` between `ca` and `cb`.
pub open spec fn spec_interp_color(ca: Color, cb: Color, dz: int, den: int) -> Color {
    Color {
        r: spec_lerp(ca.r as int, cb.r as int, dz, den) as u8,
        g: spec_lerp(ca.g as int, cb.g as int, dz, den) as u8,
        b: spec_lerp(ca.b as int, cb.b as int, dz, den) as u8,
        a: spec_lerp(ca.a as int, cb.a as int, dz, den) as u8,
    }
}

/// The interpolated value lies between its endpoints, inclusive.
pub proof fn lemma_lerp_bounds(a: int, b: int, dz: int, den: int)
    requires
        0 < den,
        0 <= dz < den,
    ensures
        b >= a ==> a <= spec_lerp(a, b, dz, den) <= b,
        b < a ==> b <= spec_lerp(a, b, dz, den) <= a,
{
    let d = if b >= a {
        b - a
    } else {
        a - b
    };
    let x = d * dz;
    lemma_mul_nonnegative(d, dz);
    lemma_div_pos_is_pos(x, den);
    lemma_mul_inequality(dz, den, d);
    assert(x <= den * d) by {
        assert(dz * d <= den * d);
        assert(dz * d == d * dz) by (nonlinear_arith);
    }
    lemma_multiply_divide_le(x, den, d);
}

/// Interpolates one channel.
fn lerp_channel(a: u8, b: u8, dz: i128, den: i128) -> (r: u8)
    requires
        0 < den,
        0 <= dz < den,
        dz < 0x1_0000_0000_0000_0000,
    ensures
        r as int == spec_lerp(a as int, b as int, dz as int, den as int),
{
    proof {
        lemma_lerp_bounds(a as int, b as int, dz as int, den as int);
    }
    if b >= a {
        proof {
            assert((b as int - a as int) * dz <= 255 * 0x1_0000_0000_0000_0000)
                by (nonlinear_arith)
                requires
                    0 <= b as int - a as int <= 255,
                    0 <= dz < 0x1_0000_0000_0000_0000,
            ;
        }
        let q = ((b as i128 - a as i128) * dz) / den;
        proof {
            lemma_mul_nonnegative((b - a) as int, dz as int);
            lemma_div_pos_is_pos((b as int - a as int) * dz, den as int);
        }
        (a as i128 + q) as u8
    } else {
        proof {
            assert((a as int - b as int) * dz <= 255 * 0x1_0000_0000_0000_0000)
                by (nonlinear_arith)
                requires
                    0 <= a as int - b as int <= 255,
                    0 <= dz < 0x1_0000_0000_0000_0000,
            ;
        }
        let q = ((a as i128 - b as i128) * dz) / den;
        proof {
            lemma_mul_nonnegative((a - b) as int, dz as int);
            lemma_div_pos_is_pos((a as int - b as int) * dz, den as int);
        }
        (a as i128 - q) as u8
    }
}

/// Resolving midway between two stops moves every channel that differs
/// by at least two strictly into the open interval between its
/// endpoints.
pub proof fn lemma_lerp_midpoint_strict(a: int, b: int, dz: int, den: int)
    requires
        0 < dz,
        den == 2 * dz,
        a + 2 <= b || b + 2 <= a,
    ensures
        a < b ==> a < spec_lerp(a, b, dz, den) < b,
        b < a ==> b < spec_lerp(a, b, dz, den) < a,
{
    let d = if b >= a {
        b - a
    } else {
        a - b
    };
    let x = d * dz;
    assert(x < den * d) by {
        assert(dz * d < den * d) by {
            lemma_mul_strict_inequality(dz, den, d);
        }
        assert(dz * d == d * dz) by (nonlinear_arith);
    }
    lemma_multiply_divide_lt(x, den, d);
    assert(x / den >= 1) by {
        assert(x >= den) by {
            assert(d * dz >= 2 * dz) by (nonlinear_arith)
                requires
                    d >= 2,
                    dz > 0,
            ;
        }
        assert(den / den == 1) by {
            vstd::arithmetic::div_mod::lemma_div_by_self(den);
        }
        vstd::arithmetic::div_mod::lemma_div_is_ordered(den, x, den);
    }
}

/// The bracket for `zoom`: the first index whose successor's input lies
/// strictly above `zoom`, or the last adjacent pair where none does.
pub open spec fn spec_bracket(stops: Seq<Stop>, zoom: i64, i: int) -> int
    decreases stops.len() - i,
{
    if i >= stops.len() - 2 {
        stops.len() - 2
    } else if zoom < stops[i + 1].input {
        i
    } else {
        spec_bracket(stops, zoom, i + 1)
    }
}

/// Parses a stop's output color, or the error a malformed one resolves
/// to.
pub open spec fn spec_parse_output(s: Seq<char>) -> Result<Color, PaintError> {
    match spec_parse_color(s) {
        Some(c) => Ok(c),
        None => Err(PaintError::InvalidColor),
    }
}

/// Resolves a stop table at `zoom`: the first output below the first
/// stop, the last output at or above the last stop, and the
/// channel-wise interpolation of the bracketing pair between; an empty
/// table cannot be resolved at all.
pub open spec fn spec_resolve_stops(stops: Seq<Stop>, zoom: i64) -> Result<Color, PaintError> {
    if stops.len() == 0 {
        Err(PaintError::InvalidPaintExpression)
    } else if zoom <= stops[0].input {
        spec_parse_output(stops[0].output@)
    } else if zoom >= stops[stops.len() - 1].input {
        spec_parse_output(stops[stops.len() - 1].output@)
    } else {
        let i = spec_bracket(stops, zoom, 0);
        match (spec_parse_color(stops[i].output@), spec_parse_color(stops[i + 1].output@)) {
            (Some(ca), Some(cb)) => Ok(
                spec_interp_color(
                    ca,
                    cb,
                    zoom as int - stops[i].input as int,
                    stops[i + 1].input as int - stops[i].input as int,
                ),
            ),
            _ => Err(PaintError::InvalidColor),
        }
    }
}

/// Resolves a paint color at `zoom`: a literal string is parsed, a stop
/// table is resolved by bracketing and interpolation.
pub open spec fn spec_resolve(fc: FillColor, zoom: i64) -> Result<Color, PaintError> {
    match fc {
        FillColor::String(s) => spec_parse_output(s@),
        FillColor::FillColorWithStops(t) => spec_resolve_stops(t.stops@, zoom),
    }
}

/// Resolves a stop table at `zoom`.
pub fn resolve_stops(stops: &Vec<Stop>, zoom: i64) -> (r: Result<Color, PaintError>)
    ensures
        r == spec_resolve_stops(stops@, zoom),
{
    if stops.len() == 0 {
        return Err(PaintError::InvalidPaintExpression);
    }
    if zoom <= stops[0].input {
        return match parse_color(&stops[0].output) {
            Some(c) => Ok(c),
            None => Err(PaintError::InvalidColor),
        };
    }
    if zoom >= stops[stops.len() - 1].input {
        return match parse_color(&stops[stops.len() - 1].output) {
            Some(c) => Ok(c),
            None => Err(PaintError::InvalidColor),
        };
    }
    let ghost b = spec_bracket(stops@, zoom, 0);
    let mut i: usize = 0;
    while i < stops.len() - 2 && zoom >= stops[i + 1].input
        invariant
            stops@.len() >= 2,
            0 <= i <= stops@.len() - 2,
            stops@[i as int].input <= zoom,
            zoom < stops@[stops@.len() - 1].input,
            b == spec_bracket(stops@, zoom, i as int),
        decreases stops@.len() - i,
    {
        i = i + 1;
    }
    assert(b == i);
    assert(stops@[i as int].input <= zoom);
    assert(zoom < stops@[i + 1].input);
    let z0 = stops[i].input;
    let z1 = stops[i + 1].input;
    let dz = zoom as i128 - z0 as i128;
    let den = z1 as i128 - z0 as i128;
    let ca = parse_color(&stops[i].output);
    let cb = parse_color(&stops[i + 1].output);
    match (ca, cb) {
        (Some(ca), Some(cb)) => Ok(
            Color {
                r: lerp_channel(ca.r, cb.r, dz, den),
                g: lerp_channel(ca.g, cb.g, dz, den),
                b: lerp_channel(ca.b, cb.b, dz, den),
                a: lerp_channel(ca.a, cb.a, dz, den),
            },
        ),
        _ => Err(PaintError::InvalidColor),
    }
}

/// Resolves a paint color at `zoom`.
pub fn resolve(fc: &FillColor, zoom: i64) -> (r: Result<Color, PaintError>)
    ensures
        r == spec_resolve(*fc, zoom),
{
    match fc {
        FillColor::String(s) => match parse_color(s) {
            Some(c) => Ok(c),
            None => Err(PaintError::InvalidColor),
        },
        FillColor::FillColorWithStops(t) => resolve_stops(&t.stops, zoom),
    }
}

} // verus!
