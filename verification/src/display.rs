//! What a display reports of its default screen when a connection opens.

use vstd::prelude::*;

verus! {

/// The defaults of the screen a connection was opened to.
#[derive(Clone, Copy, Debug, PartialEq, Eq, Structural)]
pub struct DisplayInfo {
    /// The depth of the default visual.
    pub depth: i32,
    /// The class number of the default visual.
    pub visual_class: i32,
    /// The pixel value of black.
    pub black_pixel: u64,
    /// The pixel value of white.
    pub white_pixel: u64,
}

} // verus!
