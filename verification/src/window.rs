//! The description a window is created from.

use vstd::prelude::*;
use crate::native::{cw_back_pixel, cw_border_pixel, cw_colormap};

verus! {

/// The window classes of the X protocol, in protocol order.
#[derive(Clone, Copy, Debug, PartialEq, Eq, Structural)]
pub enum WindowClass {
    CopyFromParent,
    InputOutput,
    InputOnly,
}

impl WindowClass {
    /// The protocol number of a class.
    pub open spec fn spec_code(self) -> int {
        match self {
            WindowClass::CopyFromParent => 0,
            WindowClass::InputOutput => 1,
            WindowClass::InputOnly => 2,
        }
    }

    /// The number Xlib expects for this class.
    pub fn code(&self) -> (code: u32)
        ensures
            code == self.spec_code(),
    {
        match self {
            WindowClass::CopyFromParent => 0,
            WindowClass::InputOutput => 1,
            WindowClass::InputOnly => 2,
        }
    }
}

/// The value mask a window has unless one is set: colormap, border pixel
/// and background pixel.
pub const DEFAULT_VALUEMASK: u64 = 0x200a;

/// What a window is created from: name, position, size, border width,
/// class, and the mask of the attributes honored at creation.
#[derive(Clone, Debug, PartialEq, Eq)]
pub struct Window {
    pub name: String,
    pub x: i32,
    pub y: i32,
    pub width: u32,
    pub height: u32,
    pub border_width: u32,
    pub class: WindowClass,
    pub valuemask: u64,
}

/// A window description with the name as a sequence of characters.
pub struct WindowView {
    pub name: Seq<char>,
    pub x: i32,
    pub y: i32,
    pub width: u32,
    pub height: u32,
    pub border_width: u32,
    pub class: WindowClass,
    pub valuemask: u64,
}

impl View for Window {
    type V = WindowView;

    open spec fn view(&self) -> WindowView {
        WindowView {
            name: self.name@,
            x: self.x,
            y: self.y,
            width: self.width,
            height: self.height,
            border_width: self.border_width,
            class: self.class,
            valuemask: self.valuemask,
        }
    }
}

impl WindowView {
    /// The unnamed one-by-one input-output window at the origin, with a
    /// border of one and the default value mask.
    pub open spec fn initial() -> WindowView {
        WindowView {
            name: Seq::empty(),
            x: 0,
            y: 0,
            width: 1,
            height: 1,
            border_width: 1,
            class: WindowClass::InputOutput,
            valuemask: DEFAULT_VALUEMASK,
        }
    }

    /// An input-only window has neither border nor depth; any other window
    /// takes any of both.
    pub open spec fn admits_depth(self, depth: int) -> bool {
        self.class == WindowClass::InputOnly ==> self.border_width == 0 && depth == 0
    }
}

impl Default for Window {
    fn default() -> (window: Self)
        ensures
            window@ == WindowView::initial(),
    {
        let colormap: u64 = cw_colormap();
        let border: u64 = cw_border_pixel();
        let back: u64 = cw_back_pixel();
        assert(0x2000u64 | 0x0008u64 | 0x0002u64 == 0x200au64) by (bit_vector);
        Window {
            name: String::new(),
            x: 0,
            y: 0,
            width: 1,
            height: 1,
            border_width: 1,
            class: WindowClass::InputOutput,
            valuemask: colormap | border | back,
        }
    }
}

impl Window {
    /// A window with the default description.
    pub fn new() -> (window: Self)
        ensures
            window@ == WindowView::initial(),
    {
        Self::default()
    }

    /// Sets the window's name.
    pub fn name(self, name: &str) -> (window: Self)
        ensures
            window@ == (WindowView { name: name@, ..self@ }),
    {
        let mut window = self;
        window.name = name.to_owned();
        window
    }

    /// Sets the window's x-coordinate.
    pub fn x(self, x: i32) -> (window: Self)
        ensures
            window@ == (WindowView { x, ..self@ }),
    {
        let mut window = self;
        window.x = x;
        window
    }

    /// Sets the window's y-coordinate.
    pub fn y(self, y: i32) -> (window: Self)
        ensures
            window@ == (WindowView { y, ..self@ }),
    {
        let mut window = self;
        window.y = y;
        window
    }

    /// Sets the window's width.
    pub fn width(self, width: u32) -> (window: Self)
        ensures
            window@ == (WindowView { width, ..self@ }),
    {
        let mut window = self;
        window.width = width;
        window
    }

    /// Sets the window's height.
    pub fn height(self, height: u32) -> (window: Self)
        ensures
            window@ == (WindowView { height, ..self@ }),
    {
        let mut window = self;
        window.height = height;
        window
    }

    /// Sets the window's border width.
    pub fn border_width(self, border_width: u32) -> (window: Self)
        ensures
            window@ == (WindowView { border_width, ..self@ }),
    {
        let mut window = self;
        window.border_width = border_width;
        window
    }

    /// Sets the window's class. An input-only window can be created only
    /// with a border width of zero on a visual of depth zero.
    pub fn class(self, class: WindowClass) -> (window: Self)
        ensures
            window@ == (WindowView { class, ..self@ }),
    {
        let mut window = self;
        window.class = class;
        window
    }

    /// Sets the mask of the attributes honored at creation.
    pub fn valuemask(self, valuemask: u64) -> (window: Self)
        ensures
            window@ == (WindowView { valuemask, ..self@ }),
    {
        let mut window = self;
        window.valuemask = valuemask;
        window
    }

    /// Whether a window of this description can be created at `depth`.
    pub fn admits_depth(&self, depth: i32) -> (ok: bool)
        ensures
            ok == self@.admits_depth(depth as int),
    {
        match self.class {
            WindowClass::InputOnly => self.border_width == 0 && depth == 0,
            _ => true,
        }
    }
}

} // verus!
