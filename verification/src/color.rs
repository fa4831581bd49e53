//! RGBA colors and the named-color table.
//!
//! Channels are fixed-point values where one is full intensity.  The
//! named-color table is a fixed, closed set; lookups are case-sensitive
//! exact matches on the whole name.

use vstd::prelude::*;
use vstd::string::StringExecFns;

use crate::fx::FX_HALF;
use crate::fx::FX_ONE;
use crate::fx::Fx;

verus! {

/// The fixed-point representation of one quarter: 2^30.
pub const FX_QUARTER: i64 = 0x4000_0000;

/// An RGBA color; each channel ranges from zero to one, one being full
/// intensity (and, for `a`, full opacity).
#[derive(Clone, Copy, Debug, PartialEq, Eq, Structural)]
pub struct Color {
    pub r: Fx,
    pub g: Fx,
    pub b: Fx,
    pub a: Fx,
}

/// The opaque color with the given raw channel representations.
pub open spec fn rgb(r: i64, g: i64, b: i64) -> Color {
    Color { r: (Fx { bits: r }), g: (Fx { bits: g }), b: (Fx { bits: b }), a: (Fx { bits: FX_ONE }) }
}

/// Opaque white: the fill color every frame starts from.
pub open spec fn white() -> Color {
    rgb(FX_ONE, FX_ONE, FX_ONE)
}

/// Opaque black: the color the background is cleared to.
pub open spec fn black() -> Color {
    rgb(0, 0, 0)
}

/// The color a name denotes, if any.  The table is the full set of
/// recognised names; everything else is unknown.
pub open spec fn color_of_name(name: Seq<char>) -> Option<Color> {
    if name == "white"@ {
        Some(white())
    } else if name == "black"@ {
        Some(black())
    } else if name == "red"@ {
        Some(rgb(FX_ONE, 0, 0))
    } else if name == "orange"@ {
        Some(rgb(FX_ONE, FX_HALF, 0))
    } else if name == "yellow"@ {
        Some(rgb(FX_ONE, FX_ONE, 0))
    } else if name == "green"@ {
        Some(rgb(0, FX_ONE, 0))
    } else if name == "cyan"@ {
        Some(rgb(0, FX_ONE, FX_ONE))
    } else if name == "blue"@ {
        Some(rgb(0, 0, FX_ONE))
    } else if name == "magenta"@ {
        Some(rgb(FX_ONE, 0, FX_ONE))
    } else if name == "purple"@ {
        Some(rgb(FX_HALF, 0, FX_HALF))
    } else if name == "indigo"@ {
        Some(rgb(FX_QUARTER, 0, FX_HALF))
    } else {
        None
    }
}

/// Builds the opaque color with the given raw channel representations.
fn make_rgb(r: i64, g: i64, b: i64) -> (c: Color)
    ensures
        c == rgb(r, g, b),
{
    Color { r: Fx { bits: r }, g: Fx { bits: g }, b: Fx { bits: b }, a: Fx { bits: FX_ONE } }
}

/// Looks a color name up in the named-color table.
pub fn color_by_name(name: &String) -> (r: Option<Color>)
    ensures
        r == color_of_name(name@),
{
    if *name == String::from_str("white") {
        Some(make_rgb(FX_ONE, FX_ONE, FX_ONE))
    } else if *name == String::from_str("black") {
        Some(make_rgb(0, 0, 0))
    } else if *name == String::from_str("red") {
        Some(make_rgb(FX_ONE, 0, 0))
    } else if *name == String::from_str("orange") {
        Some(make_rgb(FX_ONE, FX_HALF, 0))
    } else if *name == String::from_str("yellow") {
        Some(make_rgb(FX_ONE, FX_ONE, 0))
    } else if *name == String::from_str("green") {
        Some(make_rgb(0, FX_ONE, 0))
    } else if *name == String::from_str("cyan") {
        Some(make_rgb(0, FX_ONE, FX_ONE))
    } else if *name == String::from_str("blue") {
        Some(make_rgb(0, 0, FX_ONE))
    } else if *name == String::from_str("magenta") {
        Some(make_rgb(FX_ONE, 0, FX_ONE))
    } else if *name == String::from_str("purple") {
        Some(make_rgb(FX_HALF, 0, FX_HALF))
    } else if *name == String::from_str("indigo") {
        Some(make_rgb(FX_QUARTER, 0, FX_HALF))
    } else {
        None
    }
}

} // verus!
