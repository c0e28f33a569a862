//! The pixel values a window is created with.

use vstd::prelude::*;
use crate::display::DisplayInfo;

verus! {

/// Border and background pixel of a window to be created.
#[derive(Clone, Copy, Debug, PartialEq, Eq, Structural)]
pub struct WindowAttributes {
    pub border_pixel: u64,
    pub background_pixel: u64,
}

impl WindowAttributes {
    /// The attributes a display suggests: a black border around a white
    /// background.
    pub fn from_display(display: &DisplayInfo) -> (attributes: Self)
        ensures
            attributes == (WindowAttributes {
                border_pixel: display.black_pixel,
                background_pixel: display.white_pixel,
            }),
    {
        WindowAttributes {
            border_pixel: display.black_pixel,
            background_pixel: display.white_pixel,
        }
    }

    /// Replaces the border pixel.
    pub fn border_pixel(self, p: u64) -> (attributes: Self)
        ensures
            attributes == (WindowAttributes { border_pixel: p, ..self }),
    {
        let mut attributes = self;
        attributes.border_pixel = p;
        attributes
    }

    /// Replaces the background pixel.
    pub fn background_pixel(self, p: u64) -> (attributes: Self)
        ensures
            attributes == (WindowAttributes { background_pixel: p, ..self }),
    {
        let mut attributes = self;
        attributes.background_pixel = p;
        attributes
    }
}

} // verus!
