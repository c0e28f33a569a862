//! The session as a mathematical value, and what each call makes of it.

use vstd::prelude::*;
use crate::attributes::WindowAttributes;
use crate::display::DisplayInfo;
use crate::draw::DrawCall;
use crate::error::XError;
use crate::request::RequestView;
use crate::visualinfo::{VisualClass, VisualInfo};
use crate::window::WindowView;

verus! {

/// The event mask a window is subscribed under: structure notifications.
pub const STRUCTURE_NOTIFY_MASK: i64 = 0x0002_0000;

/// The allocation mode a colormap is created with: no entries reserved.
pub const ALLOC_NONE: i32 = 0;

/// The type of the event that reports a window mapped.
pub const MAP_NOTIFY: i32 = 19;

/// What a session knows and what it has asked for.
pub struct SessionView {
    /// The defaults of the display the session is connected to.
    pub display: DisplayInfo,
    /// The visual the display matched last.
    pub visual: VisualInfo,
    /// Whether the session owns a colormap of its own making; it uses the
    /// display's default colormap until then.
    pub colormap_created: bool,
    /// The pixel values the window is created with.
    pub attributes: WindowAttributes,
    /// The description the window was created from, once it was.
    pub window: Option<WindowView>,
    /// Whether a graphics context was created.
    pub gc: bool,
    /// The color cell each added name stands for.
    pub colors: Map<Seq<char>, usize>,
    /// The number of color cells asked for so far.
    pub cells: nat,
    /// The requests made and not yet handed to the driver, oldest first.
    pub pending: Seq<RequestView>,
}

impl SessionView {
    /// A graphics context exists exactly when the window does, and every
    /// name stands for a cell that was asked for.
    pub open spec fn wf(self) -> bool {
        &&& self.gc <==> self.window is Some
        &&& forall|name: Seq<char>| #[trigger]
            self.colors.dom().contains(name) ==> self.colors[name] < self.cells
    }

    /// The session a connection starts: the display's visual and pixel
    /// values, the default colormap, neither window nor graphics context,
    /// no colors and nothing pending. There is no session without a
    /// connection, nor without a visual of a known class that the display
    /// matched.
    pub open spec fn connect(display: Option<DisplayInfo>, matched: bool) -> Result<
        SessionView,
        XError,
    > {
        match display {
            None => Err(XError::ConnectionFailed),
            Some(display) => match VisualClass::spec_from_code(display.visual_class as int) {
                Some(class) if matched => Ok(
                    SessionView {
                        display,
                        visual: VisualInfo { depth: display.depth, class },
                        colormap_created: false,
                        attributes: WindowAttributes {
                            border_pixel: display.black_pixel,
                            background_pixel: display.white_pixel,
                        },
                        window: None,
                        gc: false,
                        colors: Map::empty(),
                        cells: 0,
                        pending: Seq::empty(),
                    },
                ),
                _ => Err(XError::NoMatchingVisual),
            },
        }
    }

    /// The session with `info` as its visual, if the display matched it.
    pub open spec fn visual(self, info: VisualInfo, matched: bool) -> Result<SessionView, XError> {
        if matched {
            Ok(SessionView { visual: info, ..self })
        } else {
            Err(XError::NoMatchingVisual)
        }
    }

    /// The requests that give the session a fresh colormap: an earlier one
    /// of its own making is freed first.
    pub open spec fn colormap_plan(self) -> Seq<RequestView> {
        if self.colormap_created {
            seq![RequestView::FreeColormap, RequestView::CreateColormap { alloc: ALLOC_NONE }]
        } else {
            seq![RequestView::CreateColormap { alloc: ALLOC_NONE }]
        }
    }

    /// The session with a fresh colormap asked for.
    pub open spec fn colormap(self) -> SessionView {
        SessionView {
            colormap_created: true,
            pending: self.pending + self.colormap_plan(),
            ..self
        }
    }

    /// The session with the display's pixel values as window attributes.
    pub open spec fn attributes(self) -> SessionView {
        SessionView {
            attributes: WindowAttributes {
                border_pixel: self.display.black_pixel,
                background_pixel: self.display.white_pixel,
            },
            ..self
        }
    }

    /// The requests that create, name, subscribe and show `window` and
    /// give it a graphics context. The graphics context of an earlier
    /// window is freed first, and a colormap is made before the window if
    /// the session made none yet.
    pub open spec fn window_plan(self, window: WindowView) -> Seq<RequestView> {
        let superseded = if self.gc {
            seq![RequestView::FreeGc]
        } else {
            Seq::<RequestView>::empty()
        };
        let colormap = if self.colormap_created {
            Seq::<RequestView>::empty()
        } else {
            seq![RequestView::CreateColormap { alloc: ALLOC_NONE }]
        };
        superseded + colormap + seq![
            RequestView::CreateWindow {
                x: window.x,
                y: window.y,
                width: window.width,
                height: window.height,
                border_width: window.border_width,
                depth: self.visual.depth,
                class: window.class.spec_code() as u32,
                valuemask: window.valuemask,
                border_pixel: self.attributes.border_pixel,
                background_pixel: self.attributes.background_pixel,
            },
            RequestView::SetClassHint { name: window.name },
            RequestView::StoreName { name: window.name },
            RequestView::SelectInput { event_mask: STRUCTURE_NOTIFY_MASK },
            RequestView::MapWindow,
            RequestView::CreateGc,
        ]
    }

    /// The session with `window` asked for: it is the session's window
    /// from now on, whether there was one before or not, and whatever its
    /// class, border and depth.
    pub open spec fn with_window(self, window: WindowView) -> SessionView {
        SessionView {
            colormap_created: true,
            window: Some(window),
            gc: true,
            pending: self.pending + self.window_plan(window),
            ..self
        }
    }

    /// The session with the color `name` asked for in a fresh cell, and
    /// `name` standing for that cell from now on.
    pub open spec fn add_color(self, name: Seq<char>) -> SessionView {
        SessionView {
            colors: self.colors.insert(name, self.cells as usize),
            cells: self.cells + 1,
            pending: self.pending.push(
                RequestView::AllocNamedColor { name, cell: self.cells as usize },
            ),
            ..self
        }
    }

    /// The session with one request made on the color `name` and the
    /// graphics context. The name must have been added, and the graphics
    /// context created.
    pub open spec fn with_color(
        self,
        name: Seq<char>,
        request: spec_fn(usize) -> RequestView,
    ) -> Result<SessionView, XError> {
        if !self.colors.dom().contains(name) {
            Err(XError::ColorNotFound)
        } else if !self.gc {
            Err(XError::NoWindow)
        } else {
            Ok(SessionView { pending: self.pending.push(request(self.colors[name])), ..self })
        }
    }

    /// The session with the color `name` asked for as foreground.
    pub open spec fn set_foreground(self, name: Seq<char>) -> Result<SessionView, XError> {
        self.with_color(name, |cell: usize| RequestView::SetForeground { cell })
    }

    /// The session with the color `name` asked for as background.
    pub open spec fn set_background(self, name: Seq<char>) -> Result<SessionView, XError> {
        self.with_color(name, |cell: usize| RequestView::SetBackground { cell })
    }

    /// The session with a wait for the window's mapping and then `call`
    /// asked for. There must be a window.
    pub open spec fn draw(self, call: DrawCall) -> Result<SessionView, XError> {
        if self.window is None {
            Err(XError::NoWindow)
        } else {
            Ok(
                SessionView {
                    pending: self.pending + seq![
                        RequestView::AwaitMapNotify,
                        RequestView::Draw { call },
                    ],
                    ..self
                },
            )
        }
    }

    /// The session with nothing pending.
    pub open spec fn drained(self) -> SessionView {
        SessionView { pending: Seq::empty(), ..self }
    }

    /// The requests that release what a session owns: the block of window
    /// attributes, the colormap, the graphics context if there is one, and
    /// the connection last.
    pub open spec fn teardown_plan(self) -> Seq<RequestView> {
        seq![RequestView::ReleaseAttributes, RequestView::FreeColormap] + (if self.gc {
            seq![RequestView::FreeGc]
        } else {
            Seq::<RequestView>::empty()
        }) + seq![RequestView::CloseDisplay]
    }
}

} // verus!
