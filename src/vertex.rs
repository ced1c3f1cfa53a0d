use crate::ratio::Ratio;
use vstd::prelude::*;

verus! {

/// A colour as red, green and blue intensities, each meant to lie in `[0, 1]`.
#[derive(Clone, Copy, Debug, PartialEq)]
pub struct Rgb {
    pub r: Ratio,
    pub g: Ratio,
    pub b: Ratio,
}

/// A point in normalized device coordinates with a colour.
///
/// `z` is always zero: no depth test is configured, so draw order alone
/// decides what is on top.
#[derive(Clone, Copy, Debug, PartialEq)]
pub struct Vertex {
    pub x: Ratio,
    pub y: Ratio,
    pub z: Ratio,
    pub color: Rgb,
}

/// The colour that a new vertex carries: yellow.
pub open spec fn default_color() -> Rgb {
    Rgb { r: Ratio::of(1, 1), g: Ratio::of(1, 1), b: Ratio::of(0, 1) }
}

impl Vertex {
    /// The vertex that `Vertex::new(x, y)` builds.
    pub open spec fn at(x: Ratio, y: Ratio) -> Vertex {
        Vertex { x, y, z: Ratio::of(0, 1), color: default_color() }
    }

    /// `self` with its colour replaced.
    pub open spec fn tinted(self, color: Rgb) -> Vertex {
        Vertex { color, ..self }
    }

    pub fn new(x: Ratio, y: Ratio) -> (r: Vertex)
        ensures
            r == Vertex::at(x, y),
    {
        Vertex {
            x,
            y,
            z: Ratio::integer(0),
            color: Rgb { r: Ratio::integer(1), g: Ratio::integer(1), b: Ratio::integer(0) },
        }
    }

    pub fn color(self, r: Ratio, g: Ratio, b: Ratio) -> (v: Vertex)
        ensures
            v == self.tinted(Rgb { r, g, b }),
    {
        Vertex { color: Rgb { r, g, b }, ..self }
    }

    pub fn x(&self) -> (r: Ratio)
        ensures
            r == self.x,
    {
        self.x
    }

    pub fn y(&self) -> (r: Ratio)
        ensures
            r == self.y,
    {
        self.y
    }
}

} // verus!
