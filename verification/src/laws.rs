//! What holds of every session, whatever calls made it.

use vstd::prelude::*;
use crate::display::DisplayInfo;
use crate::draw::{DrawCall, Point, Segment, Drawable};
use crate::error::XError;
use crate::request::RequestView;
use crate::session::{SessionView, ALLOC_NONE, STRUCTURE_NOTIFY_MASK};
use crate::visualinfo::VisualInfo;
use crate::window::WindowView;
use vstd::std_specs::convert::FromSpec;

verus! {

/// A session that a connection starts is well-formed, and every call
/// keeps a well-formed session well-formed.
pub proof fn lemma_calls_keep_wf(
    s: SessionView,
    display: Option<DisplayInfo>,
    matched: bool,
    info: VisualInfo,
    window: WindowView,
    name: Seq<char>,
    call: DrawCall,
)
    requires
        s.wf(),
    ensures
        SessionView::connect(display, matched) matches Ok(t) ==> t.wf(),
        s.visual(info, matched) matches Ok(t) ==> t.wf(),
        s.colormap().wf(),
        s.attributes().wf(),
        s.with_window(window).wf(),
        s.add_color(name).wf(),
        s.set_foreground(name) matches Ok(t) ==> t.wf(),
        s.set_background(name) matches Ok(t) ==> t.wf(),
        s.draw(call) matches Ok(t) ==> t.wf(),
        s.drained().wf(),
{
}

/// A visual that the display matched becomes the session's, with the
/// depth and the class asked for; one that it did not match is refused,
/// and nothing of it is kept.
pub proof fn lemma_visual_is_matched_or_refused(s: SessionView, info: VisualInfo, matched: bool)
    ensures
        matched ==> s.visual(info, matched) == Ok::<SessionView, XError>(
            SessionView { visual: info, ..s },
        ),
        !matched ==> s.visual(info, matched) == Err::<SessionView, XError>(
            XError::NoMatchingVisual,
        ),
{
}

/// Every window asked for becomes the session's window, with a graphics
/// context, whatever the session held before and whatever the window's
/// class, border and depth. It is created with exactly the position, size,
/// border width, class and value mask of its description, at the depth and
/// with the pixel values of the session; after its creation come, once
/// each and in this order, its class hint and its title, both with its
/// name, the subscription to structure notifications, its mapping and its
/// graphics context.
pub proof fn lemma_window_keeps_geometry(s: SessionView, window: WindowView)
    ensures
        s.with_window(window).window == Some(window),
        s.with_window(window).gc,
        s.with_window(window).colormap_created,
        s.with_window(window).pending == s.pending + s.window_plan(window),
        s.window_plan(window).len() >= 6,
        s.window_plan(window).subrange(
            s.window_plan(window).len() - 6,
            s.window_plan(window).len() as int,
        ) == seq![
            RequestView::CreateWindow {
                x: window.x,
                y: window.y,
                width: window.width,
                height: window.height,
                border_width: window.border_width,
                depth: s.visual.depth,
                class: window.class.spec_code() as u32,
                valuemask: window.valuemask,
                border_pixel: s.attributes.border_pixel,
                background_pixel: s.attributes.background_pixel,
            },
            RequestView::SetClassHint { name: window.name },
            RequestView::StoreName { name: window.name },
            RequestView::SelectInput { event_mask: STRUCTURE_NOTIFY_MASK },
            RequestView::MapWindow,
            RequestView::CreateGc,
        ],
{
    let plan = s.window_plan(window);
    let tail = plan.subrange(plan.len() - 6, plan.len() as int);
    assert(tail =~= seq![
        RequestView::CreateWindow {
            x: window.x,
            y: window.y,
            width: window.width,
            height: window.height,
            border_width: window.border_width,
            depth: s.visual.depth,
            class: window.class.spec_code() as u32,
            valuemask: window.valuemask,
            border_pixel: s.attributes.border_pixel,
            background_pixel: s.attributes.background_pixel,
        },
        RequestView::SetClassHint { name: window.name },
        RequestView::StoreName { name: window.name },
        RequestView::SelectInput { event_mask: STRUCTURE_NOTIFY_MASK },
        RequestView::MapWindow,
        RequestView::CreateGc,
    ]);
}

/// Before a window is created, the graphics context of an earlier window
/// is freed if there is one, and a colormap is made if the session made
/// none: on a session fresh from its connection the colormap is asked for
/// first and the window second.
pub proof fn lemma_window_is_prepared(s: SessionView, window: WindowView)
    requires
        s.wf(),
    ensures
        s.window_plan(window).len() == 6 + (if s.window is Some {
            1int
        } else {
            0int
        }) + (if s.colormap_created {
            0int
        } else {
            1int
        }),
        s.window is Some ==> s.window_plan(window)[0] == RequestView::FreeGc,
        !s.colormap_created ==> s.window_plan(window)[s.window_plan(window).len() - 7]
            == (RequestView::CreateColormap { alloc: ALLOC_NONE }),
        s.window is None && !s.colormap_created ==> s.window_plan(window)[0]
            == (RequestView::CreateColormap { alloc: ALLOC_NONE }) && s.window_plan(window)[1]
            is CreateWindow,
{
}

/// On a session with a window, a color that was just added is found: it
/// is accepted as foreground and as background, and the request names the
/// cell that the color was added in.
pub proof fn lemma_added_color_is_found(s: SessionView, name: Seq<char>)
    requires
        s.wf(),
        s.window is Some,
    ensures
        s.add_color(name).set_foreground(name) == Ok::<SessionView, XError>(
            SessionView {
                pending: s.add_color(name).pending.push(
                    RequestView::SetForeground { cell: s.cells as usize },
                ),
                ..s.add_color(name)
            },
        ),
        s.add_color(name).set_background(name) == Ok::<SessionView, XError>(
            SessionView {
                pending: s.add_color(name).pending.push(
                    RequestView::SetBackground { cell: s.cells as usize },
                ),
                ..s.add_color(name)
            },
        ),
{
}

/// A color that was never added is refused as not found, as foreground
/// and as background, whatever else holds of the session.
pub proof fn lemma_unknown_color_is_refused(s: SessionView, name: Seq<char>)
    requires
        !s.colors.dom().contains(name),
    ensures
        s.set_foreground(name) == Err::<SessionView, XError>(XError::ColorNotFound),
        s.set_background(name) == Err::<SessionView, XError>(XError::ColorNotFound),
{
}

/// A request to draw or fill with a color names a cell that was asked for
/// before: the driver never looks for a color cell that it was not told to
/// allocate.
pub proof fn lemma_colors_name_allocated_cells(s: SessionView, name: Seq<char>)
    requires
        s.wf(),
    ensures
        s.set_foreground(name) matches Ok(t) ==> t.pending.last() == (RequestView::SetForeground {
            cell: s.colors[name],
        }) && s.colors[name] < s.cells,
        s.set_background(name) matches Ok(t) ==> t.pending.last() == (RequestView::SetBackground {
            cell: s.colors[name],
        }) && s.colors[name] < s.cells,
{
}

/// Adding a color leaves every other name with its cell.
pub proof fn lemma_other_colors_keep_their_cells(s: SessionView, added: Seq<char>, other: Seq<char>)
    requires
        other != added,
    ensures
        s.add_color(added).colors.dom().contains(other) == s.colors.dom().contains(other),
        s.colors.dom().contains(other) ==> s.add_color(added).colors[other] == s.colors[other],
{
}

/// Drawing on a session with a window adds two requests: the wait for the
/// window's mapping, and one draw call, which is the shape's own.
pub proof fn lemma_draw_issues_one_call(s: SessionView, call: DrawCall)
    requires
        s.window is Some,
    ensures
        s.draw(call) matches Ok(t) && t.pending == s.pending + seq![
            RequestView::AwaitMapNotify,
            RequestView::Draw { call },
        ] && t.drained() == s.drained(),
{
}

/// A point made from a pair of coordinates is drawn by one point call at
/// those coordinates, and a segment made from four by one segment call
/// between them.
pub proof fn lemma_shapes_draw_their_coordinates(
    s: SessionView,
    x: i16,
    y: i16,
    x1: i16,
    y1: i16,
    x2: i16,
    y2: i16,
)
    requires
        s.window is Some,
    ensures
        s.draw(<Point as FromSpec<(i16, i16)>>::from_spec((x, y)).call()) matches Ok(t)
            && t.pending == s.pending + seq![
            RequestView::AwaitMapNotify,
            RequestView::Draw { call: DrawCall::Point { x: x as i32, y: y as i32 } },
        ],
        s.draw(
            <Segment as FromSpec<(i16, i16, i16, i16)>>::from_spec((x1, y1, x2, y2)).call(),
        ) matches Ok(t) && t.pending == s.pending + seq![
            RequestView::AwaitMapNotify,
            RequestView::Draw { call: DrawCall::Segments { x1, y1, x2, y2 } },
        ],
{
    crate::draw::lemma_point_from_pair(x, y);
    crate::draw::lemma_segment_from(x1, y1, x2, y2);
}

/// A session that never created a window is torn down by releasing the
/// block of window attributes, freeing the colormap and closing the
/// connection, in that order; no graphics context is freed.
pub proof fn lemma_teardown_without_window(s: SessionView)
    requires
        s.wf(),
        s.window is None,
    ensures
        s.teardown_plan() == seq![
            RequestView::ReleaseAttributes,
            RequestView::FreeColormap,
            RequestView::CloseDisplay,
        ],
        !s.teardown_plan().contains(RequestView::FreeGc),
{
    assert(s.teardown_plan() =~= seq![
        RequestView::ReleaseAttributes,
        RequestView::FreeColormap,
        RequestView::CloseDisplay,
    ]);
}

/// A session with a window is torn down in the same order, with the
/// graphics context freed between the colormap and the connection.
pub proof fn lemma_teardown_with_window(s: SessionView)
    requires
        s.wf(),
        s.window is Some,
    ensures
        s.teardown_plan() == seq![
            RequestView::ReleaseAttributes,
            RequestView::FreeColormap,
            RequestView::FreeGc,
            RequestView::CloseDisplay,
        ],
{
    assert(s.teardown_plan() =~= seq![
        RequestView::ReleaseAttributes,
        RequestView::FreeColormap,
        RequestView::FreeGc,
        RequestView::CloseDisplay,
    ]);
}

/// Every teardown releases each resource once and closes the connection
/// last: the connection is closed at one place of the plan, its end.
pub proof fn lemma_teardown_closes_once(s: SessionView)
    ensures
        s.teardown_plan().len() >= 3,
        forall|i: int|
            0 <= i < s.teardown_plan().len() ==> (s.teardown_plan()[i] is CloseDisplay <==> i
                == s.teardown_plan().len() - 1),
        forall|i: int|
            0 <= i < s.teardown_plan().len() ==> (s.teardown_plan()[i] is ReleaseAttributes <==> i
                == 0),
        forall|i: int|
            0 <= i < s.teardown_plan().len() ==> (s.teardown_plan()[i] is FreeColormap <==> i
                == 1),
{
}

/// A session that is torn down right after its connection started asks
/// for nothing but the release of the block of window attributes, of the
/// colormap and of the connection.
pub proof fn lemma_connect_then_teardown(display: DisplayInfo, matched: bool)
    requires
        SessionView::connect(Some(display), matched) is Ok,
    ensures
        ({
            let s = SessionView::connect(Some(display), matched).unwrap();
            s.pending + s.teardown_plan() == seq![
                RequestView::ReleaseAttributes,
                RequestView::FreeColormap,
                RequestView::CloseDisplay,
            ]
        }),
{
    let s = SessionView::connect(Some(display), matched).unwrap();
    assert(s.pending + s.teardown_plan() =~= seq![
        RequestView::ReleaseAttributes,
        RequestView::FreeColormap,
        RequestView::CloseDisplay,
    ]);
}

} // verus!
