//! Small shared data types, such as the `Color` struct.

use vstd::prelude::*;

verus! {

/// An RGBA color. The red, green, blue and alpha components are each
/// stored as a `u8` (between 0 and 255).
#[derive(Clone, Copy, Debug, PartialEq, Eq, Structural)]
pub struct Color {
    /// The `red` component.
    pub r: u8,

    /// The `green` component.
    pub g: u8,

    /// The `blue` component.
    pub b: u8,

    /// The `alpha` (opacity) component.
    pub a: u8,
}

impl Color {
    /// Build a `Color` from the given red, green, blue and alpha
    /// (opacity) components.
    pub fn rgba(r: u8, g: u8, b: u8, a: u8) -> (c: Color)
        ensures
            c == (Color { r, g, b, a }),
    {
        Color { r, g, b, a }
    }

    /// Build a fully opaque `Color` from the given red, green and blue
    /// components. The alpha component is set to 255.
    pub fn rgb(r: u8, g: u8, b: u8) -> (c: Color)
        ensures
            c == (Color { r, g, b, a: 255u8 }),
    {
        Color::rgba(r, g, b, 255)
    }

    /// Build the color black: all color components zero, fully opaque.
    pub fn new() -> (c: Color)
        ensures
            c == (Color { r: 0u8, g: 0u8, b: 0u8, a: 255u8 }),
    {
        Color::rgba(0, 0, 0, 255)
    }
}

impl Default for Color {
    /// The default color is black, fully opaque.
    fn default() -> (c: Color)
        ensures
            c == (Color { r: 0u8, g: 0u8, b: 0u8, a: 255u8 }),
    {
        Color::rgba(0, 0, 0, 255)
    }
}

} // verus!
