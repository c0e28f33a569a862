//! The builder a session is driven through.

use vstd::prelude::*;
use crate::attributes::WindowAttributes;
use crate::color::Colors;
use crate::display::DisplayInfo;
use crate::draw::Drawable;
use crate::error::XError;
use crate::native::{alloc_none, map_notify, structure_notify_mask};
use crate::request::{lemma_views, views, Request, RequestView};
use crate::session::{SessionView, MAP_NOTIFY};
use crate::visualinfo::{VisualClass, VisualInfo};
use crate::window::Window;

verus! {

/// A session with a display: what was configured, which resources exist,
/// the colors added, and the requests not yet handed to the driver.
///
/// The driver performs the requests it is handed in order, and before it
/// asks the display anything else on the session's behalf.
#[derive(Debug)]
pub struct XBuilder {
    display: DisplayInfo,
    visual_info: VisualInfo,
    colormap_created: bool,
    attributes: WindowAttributes,
    /// The window's description; the graphics context exists with it.
    window: Option<Window>,
    colors: Colors,
    pending: Vec<Request>,
}

impl View for XBuilder {
    type V = SessionView;

    closed spec fn view(&self) -> SessionView {
        SessionView {
            display: self.display,
            visual: self.visual_info,
            colormap_created: self.colormap_created,
            attributes: self.attributes,
            window: match self.window {
                Some(window) => Some(window@),
                None => None,
            },
            gc: self.window is Some,
            colors: self.colors@,
            cells: self.colors.spec_len(),
            pending: views(self.pending@),
        }
    }
}

/// A refused call: the session as it was before the call, and why the call
/// was refused.
#[derive(Debug)]
pub struct Refused {
    pub session: XBuilder,
    pub error: XError,
}

/// What a call that may refuse made of the session: the session that came
/// out of it as a mathematical value, or the error.
pub open spec fn outcome(result: Result<XBuilder, Refused>) -> Result<SessionView, XError> {
    match result {
        Ok(session) => Ok(session@),
        Err(refused) => Err(refused.error),
    }
}

/// Whether an event of type `event_type` ends the wait that
/// [`Request::AwaitMapNotify`] asks for: only the report of a mapped window
/// does, every other event is dropped.
pub fn ends_map_wait(event_type: i32) -> (ends: bool)
    ensures
        ends == (event_type == MAP_NOTIFY),
{
    event_type == map_notify()
}

impl XBuilder {
    #[verifier::type_invariant]
    spec fn inv(self) -> bool {
        self@.wf()
    }

    /// Starts a session on a connection that the driver opened: `display`
    /// holds what the display reported of its default screen, and `matched`
    /// says whether it matched a visual to the default depth and class.
    pub fn new(display: Option<DisplayInfo>, matched: bool) -> (session: Result<XBuilder, XError>)
        ensures
            session is Ok <==> display is Some && matched && VisualClass::spec_from_code(
                display.unwrap().visual_class as int,
            ) is Some,
            session matches Ok(b) ==> SessionView::connect(display, matched) == Ok::<
                SessionView,
                XError,
            >(b@) && b@.wf(),
            session matches Err(e) ==> SessionView::connect(display, matched) == Err::<
                SessionView,
                XError,
            >(e),
    {
        let display = match display {
            Some(display) => display,
            None => {
                return Err(XError::ConnectionFailed);
            },
        };
        let class = match VisualClass::from_code(display.visual_class) {
            Some(class) => class,
            None => {
                return Err(XError::NoMatchingVisual);
            },
        };
        if !matched {
            return Err(XError::NoMatchingVisual);
        }
        let colors = Colors::new();
        let pending: Vec<Request> = Vec::new();
        proof {
            lemma_views(Seq::empty(), Seq::empty(), Request::Flush);
        }
        Ok(
            XBuilder {
                display,
                visual_info: VisualInfo { depth: display.depth, class },
                colormap_created: false,
                attributes: WindowAttributes::from_display(&display),
                window: None,
                colors,
                pending,
            },
        )
    }

    /// Records the color `name` in a fresh color cell and asks for its
    /// allocation. A name added before stands for the new cell from now on.
    pub fn add_color(self, name: &str) -> (session: Self)
        ensures
            session@ == self@.add_color(name@),
            session@.wf(),
    {
        proof {
            use_type_invariant(&self);
        }
        let XBuilder {
            display,
            visual_info,
            colormap_created,
            attributes,
            window,
            mut colors,
            pending,
        } = self;
        let cell = colors.len();
        colors.insert(name, cell);
        let pending = appended(pending, Request::AllocNamedColor { name: name.to_owned(), cell });
        XBuilder { display, visual_info, colormap_created, attributes, window, colors, pending }
    }

    /// Asks for the color `name` as the foreground of the graphics
    /// context. The name must have been added, and there must be a window.
    pub fn set_foreground(self, name: &str) -> (session: Result<Self, Refused>)
        ensures
            session is Ok <==> self@.colors.dom().contains(name@) && self@.window is Some,
            outcome(session) == self@.set_foreground(name@),
            session matches Ok(b) ==> b@.wf(),
            session matches Err(refused) ==> refused.session@ == self@,
    {
        proof {
            use_type_invariant(&self);
        }
        let cell = match self.colors.get(name) {
            Some(cell) => cell,
            None => {
                return Err(Refused { session: self, error: XError::ColorNotFound });
            },
        };
        if self.window.is_none() {
            return Err(Refused { session: self, error: XError::NoWindow });
        }
        Ok(self.with_request(Request::SetForeground { cell }))
    }

    /// Asks for the color `name` as the background of the graphics
    /// context. The name must have been added, and there must be a window.
    pub fn set_background(self, name: &str) -> (session: Result<Self, Refused>)
        ensures
            session is Ok <==> self@.colors.dom().contains(name@) && self@.window is Some,
            outcome(session) == self@.set_background(name@),
            session matches Ok(b) ==> b@.wf(),
            session matches Err(refused) ==> refused.session@ == self@,
    {
        proof {
            use_type_invariant(&self);
        }
        let cell = match self.colors.get(name) {
            Some(cell) => cell,
            None => {
                return Err(Refused { session: self, error: XError::ColorNotFound });
            },
        };
        if self.window.is_none() {
            return Err(Refused { session: self, error: XError::NoWindow });
        }
        Ok(self.with_request(Request::SetBackground { cell }))
    }

    /// Takes `visual_info` as the session's visual if the display matched
    /// it: `matched` says whether it found a visual of that depth and
    /// class.
    pub fn visual(self, visual_info: VisualInfo, matched: bool) -> (session: Result<Self, Refused>)
        ensures
            session is Ok <==> matched,
            session matches Ok(b) ==> b@.visual == visual_info && b@.wf(),
            session matches Err(refused) ==> refused.error == XError::NoMatchingVisual
                && refused.session@ == self@,
            outcome(session) == self@.visual(visual_info, matched),
    {
        proof {
            use_type_invariant(&self);
        }
        if !matched {
            return Err(Refused { session: self, error: XError::NoMatchingVisual });
        }
        let XBuilder { display, colormap_created, attributes, window, colors, pending, .. } = self;
        Ok(XBuilder { display, visual_info, colormap_created, attributes, window, colors, pending })
    }

    /// Asks for a colormap of the session's own, on the matched visual and
    /// with no entries reserved. One made before is freed first.
    pub fn colormap(self) -> (session: Self)
        ensures
            session@ == self@.colormap(),
            session@.wf(),
    {
        proof {
            use_type_invariant(&self);
        }
        let XBuilder { display, visual_info, colormap_created, attributes, window, colors, pending } =
            self;
        let ghost before = views(pending@);
        let mut pending = pending;
        if colormap_created {
            pending = appended(pending, Request::FreeColormap);
        }
        pending = appended(pending, Request::CreateColormap { alloc: alloc_none() });
        assert(views(pending@) =~= before + self@.colormap_plan());
        XBuilder {
            display,
            visual_info,
            colormap_created: true,
            attributes,
            window,
            colors,
            pending,
        }
    }

    /// Takes the display's black and white as border and background of
    /// the window to come.
    pub fn attributes(self) -> (session: Self)
        ensures
            session@ == self@.attributes(),
            session@.wf(),
    {
        proof {
            use_type_invariant(&self);
        }
        let XBuilder { display, visual_info, colormap_created, window, colors, pending, .. } = self;
        let attributes = WindowAttributes::from_display(&display);
        XBuilder { display, visual_info, colormap_created, attributes, window, colors, pending }
    }

    /// Asks for the session's window: a colormap first if the session made
    /// none, then the window itself at the depth of the visual with the
    /// session's attributes, its class hint and title, the subscription to
    /// structure notifications, its mapping, and a graphics context on it.
    ///
    /// A session that has a window already gets the new one in its place:
    /// the graphics context of the earlier window is freed first, and the
    /// earlier window stays with the display until the connection closes.
    /// Whether the display can create the window is not looked into here;
    /// [`Window::admits_depth`] tells of an input-only window.
    pub fn window(&mut self, window: Window)
        ensures
            final(self)@ == old(self)@.with_window(window@),
            final(self)@.wf(),
    {
        proof {
            use_type_invariant(&*self);
        }
        let mut pending: Vec<Request> = Vec::new();
        core::mem::swap(&mut self.pending, &mut pending);
        let ghost before = views(pending@);
        if self.window.is_some() {
            pending = appended(pending, Request::FreeGc);
        }
        if !self.colormap_created {
            pending = appended(pending, Request::CreateColormap { alloc: alloc_none() });
        }
        pending = appended(
            pending,
            Request::CreateWindow {
                x: window.x,
                y: window.y,
                width: window.width,
                height: window.height,
                border_width: window.border_width,
                depth: self.visual_info.depth,
                class: window.class.code(),
                valuemask: window.valuemask,
                border_pixel: self.attributes.border_pixel,
                background_pixel: self.attributes.background_pixel,
            },
        );
        pending = appended(pending, Request::SetClassHint { name: window.name.clone() });
        pending = appended(pending, Request::StoreName { name: window.name.clone() });
        pending = appended(pending, Request::SelectInput { event_mask: structure_notify_mask() });
        pending = appended(pending, Request::MapWindow);
        pending = appended(pending, Request::CreateGc);
        assert(views(pending@) =~= before + old(self)@.window_plan(window@));
        self.pending = pending;
        self.colormap_created = true;
        self.window = Some(window);
    }

    /// Asks for the session's window as [`XBuilder::window`] does, and
    /// hands the session on.
    pub fn with_window(self, window: Window) -> (session: Self)
        ensures
            session@ == self@.with_window(window@),
            session@.wf(),
    {
        let mut session = self;
        session.window(window);
        session
    }

    /// Asks for `drawable` to be drawn once the window is reported mapped:
    /// a wait for that report, then the one call that draws it. There must
    /// be a window.
    pub fn draw<T: Drawable>(self, drawable: T) -> (session: Result<Self, Refused>)
        ensures
            session is Ok <==> self@.window is Some,
            outcome(session) == self@.draw(drawable.call()),
            session matches Ok(b) ==> b@.wf(),
            session matches Err(refused) ==> refused.session@ == self@,
    {
        proof {
            use_type_invariant(&self);
        }
        if self.window.is_none() {
            return Err(Refused { session: self, error: XError::NoWindow });
        }
        let call = drawable.draw();
        let ghost before = self@.pending;
        let session = self.with_request(Request::AwaitMapNotify).with_request(
            Request::Draw { call },
        );
        assert(session@.pending =~= before + seq![
            RequestView::AwaitMapNotify,
            RequestView::Draw { call },
        ]);
        Ok(session)
    }

    /// Hands over everything pending, with the request to send it all to
    /// the server behind it. Nothing is pending afterwards.
    pub fn flush(&mut self) -> (requests: Vec<Request>)
        ensures
            views(requests@) == old(self)@.pending.push(RequestView::Flush),
            final(self)@ == old(self)@.drained(),
            final(self)@.wf(),
    {
        let requests = self.take_requests();
        appended(requests, Request::Flush)
    }

    /// Hands over everything pending, oldest first. Nothing is pending
    /// afterwards.
    pub fn take_requests(&mut self) -> (requests: Vec<Request>)
        ensures
            views(requests@) == old(self)@.pending,
            final(self)@ == old(self)@.drained(),
            final(self)@.wf(),
    {
        proof {
            use_type_invariant(&*self);
            lemma_views(Seq::empty(), Seq::empty(), Request::Flush);
        }
        let mut requests: Vec<Request> = Vec::new();
        core::mem::swap(&mut self.pending, &mut requests);
        requests
    }

    /// Ends the session: hands over everything pending, and behind it the
    /// requests that release the block of window attributes, the colormap,
    /// the graphics context if one was created, and the connection, in
    /// that order.
    pub fn teardown(self) -> (requests: Vec<Request>)
        ensures
            views(requests@) == self@.pending + self@.teardown_plan(),
    {
        proof {
            use_type_invariant(&self);
        }
        let ghost before = self@.pending;
        let gc = self.window.is_some();
        let mut requests = self.pending;
        requests = appended(requests, Request::ReleaseAttributes);
        requests = appended(requests, Request::FreeColormap);
        if gc {
            requests = appended(requests, Request::FreeGc);
        }
        requests = appended(requests, Request::CloseDisplay);
        assert(views(requests@) =~= before + self@.teardown_plan());
        requests
    }

    /// What the display reported when the session started.
    pub fn display(&self) -> (display: DisplayInfo)
        ensures
            display == self@.display,
    {
        self.display
    }

    /// The visual the display matched last.
    pub fn visual_info(&self) -> (info: VisualInfo)
        ensures
            info == self@.visual,
    {
        self.visual_info
    }

    /// The pixel values the window is created with.
    pub fn window_attributes(&self) -> (attributes: WindowAttributes)
        ensures
            attributes == self@.attributes,
    {
        self.attributes
    }

    /// The description the window was created from, once it was.
    pub fn created_window(&self) -> (window: Option<&Window>)
        ensures
            window is Some <==> self@.window is Some,
            window matches Some(w) ==> Some(w@) == self@.window,
    {
        self.window.as_ref()
    }

    /// Whether the session's graphics context was created.
    pub fn has_gc(&self) -> (gc: bool)
        ensures
            gc == self@.gc,
            gc == self@.window is Some,
    {
        self.window.is_some()
    }

    /// Whether the session made a colormap of its own.
    pub fn has_colormap(&self) -> (created: bool)
        ensures
            created == self@.colormap_created,
    {
        self.colormap_created
    }

    /// The color names added so far, each with its cell.
    pub fn colors(&self) -> (colors: &Colors)
        ensures
            colors@ == self@.colors,
            colors.spec_len() == self@.cells,
    {
        &self.colors
    }

    /// The requests not yet handed over, oldest first.
    pub fn requests(&self) -> (requests: &Vec<Request>)
        ensures
            views(requests@) == self@.pending,
    {
        &self.pending
    }

    /// The session with one more request pending.
    fn with_request(self, request: Request) -> (session: Self)
        ensures
            session@ == (SessionView { pending: self@.pending.push(request@), ..self@ }),
    {
        proof {
            use_type_invariant(&self);
        }
        let XBuilder { display, visual_info, colormap_created, attributes, window, colors, pending } =
            self;
        let pending = appended(pending, request);
        XBuilder { display, visual_info, colormap_created, attributes, window, colors, pending }
    }
}

/// `pending` with `request` behind it.
fn appended(pending: Vec<Request>, request: Request) -> (longer: Vec<Request>)
    ensures
        views(longer@) == views(pending@).push(request@),
{
    proof {
        lemma_views(pending@, Seq::empty(), request);
    }
    let mut longer = pending;
    longer.push(request);
    longer
}

} // verus!
