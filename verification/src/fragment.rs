//! Fragments and colors. A fragment is a candidate pixel produced by
//! rasterizing one triangle: an integer screen position and a color,
//! produced transiently and handed straight to the framebuffer.
use vstd::prelude::*;

verus! {

/// An RGB color, one byte per channel.
#[derive(Clone, Copy, PartialEq, Eq, Structural, Debug)]
pub struct Color {
    pub r: u8,
    pub g: u8,
    pub b: u8,
}

/// A candidate pixel: integer screen coordinates and a solid color. The
/// rasterizer emits fragments with a default color; the caller assigns
/// the triangle's flat color before the write.
#[derive(Clone, Copy, PartialEq, Eq, Structural, Debug)]
pub struct Fragment {
    pub x: i64,
    pub y: i64,
    pub color: Color,
}

} // verus!
