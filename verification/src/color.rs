//! Terminal colors and eased color interpolation.
//!
//! Named colors map to fixed RGB triples; palette-indexed colors (and the
//! terminal reset pseudo-color) have no RGB form and snap between the two
//! endpoints instead of blending.

use vstd::prelude::*;

verus! {

use crate::geometry::{spec_lerp, spec_ease_in_quad, spec_ease_out_quad, lemma_lerp_bounds,
    ease_in_quad, ease_out_quad, lerp};

/// A terminal color: the sixteen named colors, a direct RGB triple, a
/// palette index, or the terminal's reset color.
#[derive(Debug, Clone, Copy, PartialEq, Eq, Hash, Structural)]
pub enum Color {
    Reset,
    Black,
    Red,
    Green,
    Yellow,
    Blue,
    Magenta,
    Cyan,
    Gray,
    DarkGray,
    LightRed,
    LightGreen,
    LightYellow,
    LightBlue,
    LightMagenta,
    LightCyan,
    White,
    Rgb(u8, u8, u8),
    Indexed(u8),
}

/// The RGB triple of a color, if it has one. Named colors use the standard
/// sixteen-color palette; `Indexed` and `Reset` have no RGB form.
pub open spec fn spec_color_to_rgb(c: Color) -> Option<(u8, u8, u8)> {
    match c {
        Color::Reset => None,
        Color::Black => Some((0u8, 0u8, 0u8)),
        Color::Red => Some((128u8, 0u8, 0u8)),
        Color::Green => Some((0u8, 128u8, 0u8)),
        Color::Yellow => Some((128u8, 128u8, 0u8)),
        Color::Blue => Some((0u8, 0u8, 128u8)),
        Color::Magenta => Some((128u8, 0u8, 128u8)),
        Color::Cyan => Some((0u8, 128u8, 128u8)),
        Color::Gray => Some((192u8, 192u8, 192u8)),
        Color::DarkGray => Some((128u8, 128u8, 128u8)),
        Color::LightRed => Some((255u8, 0u8, 0u8)),
        Color::LightGreen => Some((0u8, 255u8, 0u8)),
        Color::LightYellow => Some((255u8, 255u8, 0u8)),
        Color::LightBlue => Some((0u8, 0u8, 255u8)),
        Color::LightMagenta => Some((255u8, 0u8, 255u8)),
        Color::LightCyan => Some((0u8, 255u8, 255u8)),
        Color::White => Some((255u8, 255u8, 255u8)),
        Color::Rgb(r, g, b) => Some((r, g, b)),
        Color::Indexed(_) => None,
    }
}

/// The RGB triple of a color, if it has one.
pub fn color_to_rgb(c: Color) -> (r: Option<(u8, u8, u8)>)
    ensures
        r == spec_color_to_rgb(c),
{
    match c {
        Color::Reset => None,
        Color::Black => Some((0, 0, 0)),
        Color::Red => Some((128, 0, 0)),
        Color::Green => Some((0, 128, 0)),
        Color::Yellow => Some((128, 128, 0)),
        Color::Blue => Some((0, 0, 128)),
        Color::Magenta => Some((128, 0, 128)),
        Color::Cyan => Some((0, 128, 128)),
        Color::Gray => Some((192, 192, 192)),
        Color::DarkGray => Some((128, 128, 128)),
        Color::LightRed => Some((255, 0, 0)),
        Color::LightGreen => Some((0, 255, 0)),
        Color::LightYellow => Some((255, 255, 0)),
        Color::LightBlue => Some((0, 0, 255)),
        Color::LightMagenta => Some((255, 0, 255)),
        Color::LightCyan => Some((0, 255, 255)),
        Color::White => Some((255, 255, 255)),
        Color::Rgb(r, g, b) => Some((r, g, b)),
        Color::Indexed(_) => None,
    }
}

/// The eased interpolation parameter: fading in eases out (quick start),
/// fading out eases in (slow start).
pub open spec fn spec_eased(t: int, fading_in: bool) -> int {
    if fading_in {
        spec_ease_out_quad(t)
    } else {
        spec_ease_in_quad(t)
    }
}

/// One interpolated color channel: linear interpolation by the eased
/// parameter, rounded to the nearest value. Rounding keeps the result within
/// the range spanned by the endpoints.
pub open spec fn spec_channel(a: u8, b: u8, e: int) -> u8 {
    spec_lerp(a as int, b as int, e) as u8
}

/// Eased interpolation between two optional colors by `t` thousandths.
///
/// When both colors have an RGB form, each channel is interpolated by the
/// eased parameter and the result is an RGB color. Otherwise the result
/// snaps: the `from` color while the eased parameter is below the midpoint,
/// the `to` color at or above it.
pub open spec fn spec_interpolate_color(
    from: Option<Color>,
    to: Option<Color>,
    t: int,
    fading_in: bool,
) -> Option<Color> {
    if from is Some && to is Some && spec_color_to_rgb(from->0) is Some
        && spec_color_to_rgb(to->0) is Some {
        let f = spec_color_to_rgb(from->0)->0;
        let g = spec_color_to_rgb(to->0)->0;
        let e = spec_eased(t, fading_in);
        Some(Color::Rgb(spec_channel(f.0, g.0, e), spec_channel(f.1, g.1, e),
            spec_channel(f.2, g.2, e)))
    } else {
        if spec_eased(t, fading_in) < 500 {
            from
        } else {
            to
        }
    }
}

/// At zero progress the interpolation returns the `from` color exactly (in
/// RGB form when it has one), and at full progress the `to` color exactly —
/// in both representations.
pub proof fn lemma_interpolate_color_endpoints(
    from: Option<Color>,
    to: Option<Color>,
    fading_in: bool,
)
    ensures
        from is Some && to is Some && spec_color_to_rgb(from->0) is Some
            && spec_color_to_rgb(to->0) is Some ==> {
            let f = spec_color_to_rgb(from->0)->0;
            let g = spec_color_to_rgb(to->0)->0;
            spec_interpolate_color(from, to, 0, fading_in) == Some(Color::Rgb(f.0, f.1, f.2))
                && spec_interpolate_color(from, to, 1000, fading_in) == Some(
                Color::Rgb(g.0, g.1, g.2),
            )
        },
        !(from is Some && to is Some && spec_color_to_rgb(from->0) is Some
            && spec_color_to_rgb(to->0) is Some) ==> {
            spec_interpolate_color(from, to, 0, fading_in) == from
                && spec_interpolate_color(from, to, 1000, fading_in) == to
        },
{
    crate::geometry::lemma_ease_in_quad_bounds(0);
    crate::geometry::lemma_ease_in_quad_bounds(1000);
    crate::geometry::lemma_ease_out_quad_bounds(0);
    crate::geometry::lemma_ease_out_quad_bounds(1000);
    if from is Some && to is Some && spec_color_to_rgb(from->0) is Some
        && spec_color_to_rgb(to->0) is Some {
        let f = spec_color_to_rgb(from->0)->0;
        let g = spec_color_to_rgb(to->0)->0;
        lemma_lerp_bounds(f.0 as int, g.0 as int, 0);
        lemma_lerp_bounds(f.1 as int, g.1 as int, 0);
        lemma_lerp_bounds(f.2 as int, g.2 as int, 0);
        lemma_lerp_bounds(f.0 as int, g.0 as int, 1000);
        lemma_lerp_bounds(f.1 as int, g.1 as int, 1000);
        lemma_lerp_bounds(f.2 as int, g.2 as int, 1000);
    }
}

/// One interpolated color channel by the eased parameter `e` (thousandths).
fn channel(a: u8, b: u8, e: u16) -> (r: u8)
    requires
        e <= 1000,
    ensures
        r == spec_channel(a, b, e as int),
{
    proof {
        lemma_lerp_bounds(a as int, b as int, e as int);
    }
    let v: i32 = lerp(a as i32, b as i32, e);
    v as u8
}

/// Eased interpolation between two optional colors.
///
/// `t` is progress in thousandths; fading in eases out, fading out eases in.
/// Colors without an RGB form snap from `from` to `to` at the midpoint of
/// the eased parameter.
pub fn interpolate_color(
    from: Option<Color>,
    to: Option<Color>,
    t: u16,
    fading_in: bool,
) -> (r: Option<Color>)
    requires
        t <= 1000,
    ensures
        r == spec_interpolate_color(from, to, t as int, fading_in),
{
    let from_rgb = match from {
        Some(c) => color_to_rgb(c),
        None => None,
    };
    let to_rgb = match to {
        Some(c) => color_to_rgb(c),
        None => None,
    };
    let e: u16 = if fading_in {
        ease_out_quad(t)
    } else {
        ease_in_quad(t)
    };
    match (from_rgb, to_rgb) {
        (Some(f), Some(g)) => {
            Some(Color::Rgb(channel(f.0, g.0, e), channel(f.1, g.1, e), channel(f.2, g.2, e)))
        },
        _ => {
            if e < 500 {
                from
            } else {
                to
            }
        },
    }
}

} // verus!
