use vstd::prelude::*;
use crate::geometry::Size;

verus! {

/// An 8-bit-per-channel color with alpha.
#[derive(Clone, Copy, Debug, PartialEq, Eq, Structural)]
pub struct Rgba8 {
    pub r: u8,
    pub g: u8,
    pub b: u8,
    pub a: u8,
}

impl Rgba8 {
    pub fn new(r: u8, g: u8, b: u8, a: u8) -> (c: Rgba8)
        ensures
            c == (Rgba8 { r, g, b, a }),
    {
        Rgba8 { r, g, b, a }
    }
}

/// Opaque white.
pub fn white() -> (c: Rgba8)
    ensures
        c == (Rgba8 { r: 255, g: 255, b: 255, a: 255 }),
{
    Rgba8 { r: 255, g: 255, b: 255, a: 255 }
}

/// The accent color of the default theme.
pub fn default_accent_color() -> (c: Rgba8)
    ensures
        c == (Rgba8 { r: 179, g: 123, b: 255, a: 255 }),
{
    Rgba8 { r: 179, g: 123, b: 255, a: 255 }
}

/// A border, in logical pixels.
#[derive(Clone, Copy, Debug, PartialEq, Eq, Structural)]
pub struct BorderStyle {
    pub color: Rgba8,
    pub width: u32,
    pub radius: u32,
}

/// How a rectangle is filled: a solid background and a border.
#[derive(Clone, Copy, Debug, PartialEq, Eq, Structural)]
pub struct QuadStyle {
    pub bg: Rgba8,
    pub border: BorderStyle,
}

/// Space between content and the edges of its rectangle.
#[derive(Clone, Copy, Debug, PartialEq, Eq, Structural)]
pub struct Padding {
    pub top: u32,
    pub right: u32,
    pub bottom: u32,
    pub left: u32,
}

impl Padding {
    pub fn new(top: u32, right: u32, bottom: u32, left: u32) -> (p: Padding)
        ensures
            p == (Padding { top, right, bottom, left }),
    {
        Padding { top, right, bottom, left }
    }
}

#[derive(Clone, Copy, Debug, PartialEq, Eq, Structural)]
pub enum Align {
    Start,
    Center,
    End,
}

/// The metrics of a run of text that layout depends on.
#[derive(Clone, Copy, Debug, PartialEq, Eq, Structural)]
pub struct TextProperties {
    pub font_size: u32,
    pub line_height: u32,
}

/// The paint parameters of a text label and its background.
#[derive(Clone, Copy, Debug, PartialEq, Eq, Structural)]
pub struct LabelStyle {
    pub properties: TextProperties,
    pub font_color: Rgba8,
    pub vertical_align: Align,
    pub min_clipped_size: Size,
    pub back_quad: QuadStyle,
    pub padding: Padding,
}

} // verus!
