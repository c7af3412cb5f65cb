use vstd::prelude::*;

verus! {

/// An RGBA color with one byte per channel; 255 is full intensity.
#[derive(Clone, Copy, PartialEq, Eq, Structural, Debug)]
pub struct Color {
    pub r: u8,
    pub g: u8,
    pub b: u8,
    pub a: u8,
}

impl Color {
    pub fn new(r: u8, g: u8, b: u8, a: u8) -> (c: Color)
        ensures
            c == (Color { r, g, b, a }),
    {
        Color { r, g, b, a }
    }

    pub fn black() -> (c: Color)
        ensures
            c == (Color { r: 0, g: 0, b: 0, a: 255 }),
    {
        Color::new(0, 0, 0, 255)
    }

    pub fn white() -> (c: Color)
        ensures
            c == (Color { r: 255, g: 255, b: 255, a: 255 }),
    {
        Color::new(255, 255, 255, 255)
    }

    pub fn red() -> (c: Color)
        ensures
            c == (Color { r: 255, g: 51, b: 51, a: 255 }),
    {
        Color::new(255, 51, 51, 255)
    }

    pub fn green() -> (c: Color)
        ensures
            c == (Color { r: 51, g: 230, b: 51, a: 255 }),
    {
        Color::new(51, 230, 51, 255)
    }

    pub fn blue() -> (c: Color)
        ensures
            c == (Color { r: 0, g: 51, b: 255, a: 255 }),
    {
        Color::new(0, 51, 255, 255)
    }

    pub fn yellow() -> (c: Color)
        ensures
            c == (Color { r: 255, g: 219, b: 0, a: 128 }),
    {
        Color::new(255, 219, 0, 128)
    }

    pub fn pink() -> (c: Color)
        ensures
            c == (Color { r: 255, g: 0, b: 255, a: 128 }),
    {
        Color::new(255, 0, 255, 128)
    }

    /// The channels in the order red, green, blue, alpha.
    pub fn to_rgba(self) -> (v: [u8; 4])
        ensures
            v@ == seq![self.r, self.g, self.b, self.a],
    {
        [self.r, self.g, self.b, self.a]
    }

    /// The color channels without alpha.
    pub fn to_rgb(self) -> (v: [u8; 3])
        ensures
            v@ == seq![self.r, self.g, self.b],
    {
        [self.r, self.g, self.b]
    }
}

} // verus!
