use vstd::prelude::*;

verus! {

/// RGBA values of a palette color.
#[derive(Clone, Copy, Debug, PartialEq, Eq, Structural)]
pub struct Color {
    /// Red
    pub r: u8,
    /// Green
    pub g: u8,
    /// Blue
    pub b: u8,
    /// Alpha
    pub a: u8,
}

impl Color {
    /// Creates a new `Color` instance from a vector of channel values
    /// ordered red, green, blue, alpha.
    pub fn from_vec(v: &Vec<u8>) -> (color: Color)
        requires
            v@.len() >= 4,
        ensures
            color == (Color { r: v@[0], g: v@[1], b: v@[2], a: v@[3] }),
    {
        Color { r: v[0], g: v[1], b: v[2], a: v[3] }
    }
}

/// An ordered set of colors; pixel descriptors reference them by index,
/// wrapping modulo the palette length.
#[derive(Clone, Debug)]
pub struct Theme {
    /// Theme identifier
    pub name: String,
    /// Colors the theme consists of
    pub colors: Vec<Color>,
}

} // verus!
