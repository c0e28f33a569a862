//! The native operations a session asks its driver to perform.

use vstd::prelude::*;
use crate::draw::DrawCall;

verus! {

/// One Xlib operation, with every argument that is not a resource of the
/// session itself. The display, the matched visual, the colormap, the
/// window, the graphics context and the color cells are the driver's; a
/// request means the one the session owns at the time it is performed.
#[derive(Clone, Debug, PartialEq, Eq)]
pub enum Request {
    /// Create a colormap for the matched visual on the root window and make
    /// it the session's.
    CreateColormap { alloc: i32 },
    /// Create the window on the root window, with the session's colormap
    /// and the two pixel values as its attributes.
    CreateWindow {
        x: i32,
        y: i32,
        width: u32,
        height: u32,
        border_width: u32,
        depth: i32,
        class: u32,
        valuemask: u64,
        border_pixel: u64,
        background_pixel: u64,
    },
    /// Give the window `name` as both parts of its class hint.
    SetClassHint { name: String },
    /// Give the window `name` as its title.
    StoreName { name: String },
    /// Subscribe to the window's events under `event_mask`.
    SelectInput { event_mask: i64 },
    /// Show the window.
    MapWindow,
    /// Create the graphics context on the window.
    CreateGc,
    /// Allocate the color `name` in the colormap as color cell `cell`.
    AllocNamedColor { name: String, cell: usize },
    /// Draw with the pixel of color cell `cell` from now on.
    SetForeground { cell: usize },
    /// Fill with the pixel of color cell `cell` from now on.
    SetBackground { cell: usize },
    /// Read events, dropping each one, up to and including the first one
    /// that reports the window mapped.
    AwaitMapNotify,
    /// Issue one draw call on the window with the graphics context.
    Draw { call: DrawCall },
    /// Send everything buffered to the server.
    Flush,
    /// Release the block of window attributes.
    ReleaseAttributes,
    /// Free the colormap.
    FreeColormap,
    /// Free the graphics context.
    FreeGc,
    /// Close the connection.
    CloseDisplay,
}

/// A request with its names as sequences of characters.
pub enum RequestView {
    CreateColormap { alloc: i32 },
    CreateWindow {
        x: i32,
        y: i32,
        width: u32,
        height: u32,
        border_width: u32,
        depth: i32,
        class: u32,
        valuemask: u64,
        border_pixel: u64,
        background_pixel: u64,
    },
    SetClassHint { name: Seq<char> },
    StoreName { name: Seq<char> },
    SelectInput { event_mask: i64 },
    MapWindow,
    CreateGc,
    AllocNamedColor { name: Seq<char>, cell: usize },
    SetForeground { cell: usize },
    SetBackground { cell: usize },
    AwaitMapNotify,
    Draw { call: DrawCall },
    Flush,
    ReleaseAttributes,
    FreeColormap,
    FreeGc,
    CloseDisplay,
}

impl View for Request {
    type V = RequestView;

    open spec fn view(&self) -> RequestView {
        match *self {
            Request::CreateColormap { alloc } => RequestView::CreateColormap { alloc },
            Request::CreateWindow {
                x,
                y,
                width,
                height,
                border_width,
                depth,
                class,
                valuemask,
                border_pixel,
                background_pixel,
            } => RequestView::CreateWindow {
                x,
                y,
                width,
                height,
                border_width,
                depth,
                class,
                valuemask,
                border_pixel,
                background_pixel,
            },
            Request::SetClassHint { name } => RequestView::SetClassHint { name: name@ },
            Request::StoreName { name } => RequestView::StoreName { name: name@ },
            Request::SelectInput { event_mask } => RequestView::SelectInput { event_mask },
            Request::MapWindow => RequestView::MapWindow,
            Request::CreateGc => RequestView::CreateGc,
            Request::AllocNamedColor { name, cell } => RequestView::AllocNamedColor {
                name: name@,
                cell,
            },
            Request::SetForeground { cell } => RequestView::SetForeground { cell },
            Request::SetBackground { cell } => RequestView::SetBackground { cell },
            Request::AwaitMapNotify => RequestView::AwaitMapNotify,
            Request::Draw { call } => RequestView::Draw { call },
            Request::Flush => RequestView::Flush,
            Request::ReleaseAttributes => RequestView::ReleaseAttributes,
            Request::FreeColormap => RequestView::FreeColormap,
            Request::FreeGc => RequestView::FreeGc,
            Request::CloseDisplay => RequestView::CloseDisplay,
        }
    }
}

/// The views of a sequence of requests, in order.
pub open spec fn views(requests: Seq<Request>) -> Seq<RequestView> {
    requests.map_values(|request: Request| request@)
}

/// Taking views goes through appending one request and through joining two
/// sequences.
pub proof fn lemma_views(front: Seq<Request>, back: Seq<Request>, last: Request)
    ensures
        views(Seq::empty()) == Seq::<RequestView>::empty(),
        views(front.push(last)) == views(front).push(last@),
        views(front + back) == views(front) + views(back),
{
    assert(views(Seq::empty()) =~= Seq::<RequestView>::empty());
    assert(views(front.push(last)) =~= views(front).push(last@));
    assert(views(front + back) =~= views(front) + views(back));
}

} // verus!
