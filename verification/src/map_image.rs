//! The look of the text laid over a ride's map: its colours and alignment.

use vstd::prelude::*;

verus! {

/// The colours that text comes in.
#[derive(Clone, Copy, Debug, PartialEq, Eq, Structural)]
pub enum DefaultColor {
    White,
    Orange,
    Blue,
    Red,
    Green,
}

/// How a line of text sits in the image.
#[derive(Clone, Copy, Debug, PartialEq, Eq, Structural)]
pub enum TextAlignment {
    Center,
    Left,
}

impl DefaultColor {
    /// Red, green, blue and opacity, each from 0 to 255.
    pub open spec fn channels(self) -> (u8, u8, u8, u8) {
        match self {
            DefaultColor::White => (255u8, 255u8, 255u8, 255u8),
            DefaultColor::Orange => (255u8, 165u8, 0u8, 255u8),
            DefaultColor::Blue => (0u8, 0u8, 255u8, 255u8),
            DefaultColor::Red => (255u8, 0u8, 0u8, 255u8),
            DefaultColor::Green => (0u8, 128u8, 0u8, 255u8),
        }
    }

    /// The colour as red, green, blue and opacity.
    pub fn rgba(self) -> (rgba: [u8; 4])
        ensures
            rgba@ == seq![
                self.channels().0,
                self.channels().1,
                self.channels().2,
                self.channels().3,
            ],
    {
        let rgba: [u8; 4] = match self {
            DefaultColor::White => [255, 255, 255, 255],
            DefaultColor::Orange => [255, 165, 0, 255],
            DefaultColor::Blue => [0, 0, 255, 255],
            DefaultColor::Red => [255, 0, 0, 255],
            DefaultColor::Green => [0, 128, 0, 255],
        };
        assert(rgba@ =~= seq![
            self.channels().0,
            self.channels().1,
            self.channels().2,
            self.channels().3,
        ]);
        rgba
    }
}

} // verus!
