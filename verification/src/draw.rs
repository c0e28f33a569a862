//! Points and segments, and the draw call each one stands for.

use vstd::prelude::*;
use vstd::std_specs::convert::{FromSpec, FromSpecImpl, IntoSpec, IntoSpecImpl};

verus! {

/// One native draw call, with the coordinates it is issued with.
#[derive(Clone, Copy, Debug, PartialEq, Eq, Structural)]
pub enum DrawCall {
    /// A point drawn at (`x`, `y`).
    Point { x: i32, y: i32 },
    /// A batch of one segment, drawn from (`x1`, `y1`) to (`x2`, `y2`).
    Segments { x1: i16, y1: i16, x2: i16, y2: i16 },
}

/// A shape that is drawn by a single native call.
pub trait Drawable: Sized {
    /// The call that draws this shape.
    spec fn call(self) -> DrawCall;

    /// Turns the shape into the call that draws it.
    fn draw(self) -> (call: DrawCall)
        ensures
            call == self.call(),
    ;
}

/// A point in window coordinates.
#[derive(Default, Clone, Copy, Debug, PartialEq, Eq, Structural)]
pub struct Point {
    x: i16,
    y: i16,
}

impl View for Point {
    type V = (i16, i16);

    closed spec fn view(&self) -> (i16, i16) {
        (self.x, self.y)
    }
}

impl Point {
    /// The x-coordinate.
    pub fn x(&self) -> (x: i16)
        ensures
            x == self@.0,
    {
        self.x
    }

    /// The y-coordinate.
    pub fn y(&self) -> (y: i16)
        ensures
            y == self@.1,
    {
        self.y
    }
}

impl From<(i16, i16)> for Point {
    fn from(t: (i16, i16)) -> (point: Self) {
        Point { x: t.0, y: t.1 }
    }
}

impl FromSpecImpl<(i16, i16)> for Point {
    open spec fn obeys_from_spec() -> bool {
        true
    }

    closed spec fn from_spec(t: (i16, i16)) -> Self {
        Point { x: t.0, y: t.1 }
    }
}

/// `x11::xlib::XPoint`, the point of the native geometry records, made
/// known to the verifier as the bindings define it: two public signed
/// 16-bit fields, `x` and `y`.
#[verifier::external_type_specification]
pub struct ExXPoint(x11::xlib::XPoint);

impl From<x11::xlib::XPoint> for Point {
    fn from(xpoint: x11::xlib::XPoint) -> (point: Self) {
        Point { x: xpoint.x, y: xpoint.y }
    }
}

impl FromSpecImpl<x11::xlib::XPoint> for Point {
    open spec fn obeys_from_spec() -> bool {
        true
    }

    closed spec fn from_spec(xpoint: x11::xlib::XPoint) -> Self {
        Point { x: xpoint.x, y: xpoint.y }
    }
}

impl Drawable for Point {
    open spec fn call(self) -> DrawCall {
        DrawCall::Point { x: self@.0 as i32, y: self@.1 as i32 }
    }

    fn draw(self) -> (call: DrawCall) {
        DrawCall::Point { x: self.x as i32, y: self.y as i32 }
    }
}

/// A line segment between two points in window coordinates.
#[derive(Default, Clone, Copy, Debug, PartialEq, Eq, Structural)]
pub struct Segment {
    x1: i16,
    y1: i16,
    x2: i16,
    y2: i16,
}

impl View for Segment {
    type V = (i16, i16, i16, i16);

    closed spec fn view(&self) -> (i16, i16, i16, i16) {
        (self.x1, self.y1, self.x2, self.y2)
    }
}

impl Segment {
    /// The point the segment starts at.
    pub fn start(&self) -> (point: Point)
        ensures
            point@ == (self@.0, self@.1),
    {
        Point { x: self.x1, y: self.y1 }
    }

    /// The point the segment ends at.
    pub fn end(&self) -> (point: Point)
        ensures
            point@ == (self@.2, self@.3),
    {
        Point { x: self.x2, y: self.y2 }
    }
}

impl From<(i16, i16, i16, i16)> for Segment {
    fn from(t: (i16, i16, i16, i16)) -> (segment: Self) {
        Segment { x1: t.0, y1: t.1, x2: t.2, y2: t.3 }
    }
}

impl FromSpecImpl<(i16, i16, i16, i16)> for Segment {
    open spec fn obeys_from_spec() -> bool {
        true
    }

    closed spec fn from_spec(t: (i16, i16, i16, i16)) -> Self {
        Segment { x1: t.0, y1: t.1, x2: t.2, y2: t.3 }
    }
}

impl From<(Point, Point)> for Segment {
    fn from(t: (Point, Point)) -> (segment: Self) {
        Segment { x1: t.0.x, y1: t.0.y, x2: t.1.x, y2: t.1.y }
    }
}

impl FromSpecImpl<(Point, Point)> for Segment {
    open spec fn obeys_from_spec() -> bool {
        true
    }

    closed spec fn from_spec(t: (Point, Point)) -> Self {
        Segment { x1: t.0.x, y1: t.0.y, x2: t.1.x, y2: t.1.y }
    }
}

impl From<((i16, i16), (i16, i16))> for Segment {
    fn from(t: ((i16, i16), (i16, i16))) -> (segment: Self) {
        Segment { x1: (t.0).0, y1: (t.0).1, x2: (t.1).0, y2: (t.1).1 }
    }
}

impl FromSpecImpl<((i16, i16), (i16, i16))> for Segment {
    open spec fn obeys_from_spec() -> bool {
        true
    }

    closed spec fn from_spec(t: ((i16, i16), (i16, i16))) -> Self {
        Segment { x1: (t.0).0, y1: (t.0).1, x2: (t.1).0, y2: (t.1).1 }
    }
}

/// `x11::xlib::XSegment`, the segment of the native geometry records,
/// made known to the verifier as the bindings define it: four public
/// signed 16-bit fields, `x1`, `y1`, `x2` and `y2`.
#[verifier::external_type_specification]
pub struct ExXSegment(x11::xlib::XSegment);

impl From<x11::xlib::XSegment> for Segment {
    fn from(xsegment: x11::xlib::XSegment) -> (segment: Self) {
        Segment { x1: xsegment.x1, y1: xsegment.y1, x2: xsegment.x2, y2: xsegment.y2 }
    }
}

impl FromSpecImpl<x11::xlib::XSegment> for Segment {
    open spec fn obeys_from_spec() -> bool {
        true
    }

    closed spec fn from_spec(xsegment: x11::xlib::XSegment) -> Self {
        Segment { x1: xsegment.x1, y1: xsegment.y1, x2: xsegment.x2, y2: xsegment.y2 }
    }
}

impl Into<x11::xlib::XSegment> for Segment {
    fn into(self) -> (xsegment: x11::xlib::XSegment) {
        x11::xlib::XSegment { x1: self.x1, y1: self.y1, x2: self.x2, y2: self.y2 }
    }
}

impl IntoSpecImpl<x11::xlib::XSegment> for Segment {
    open spec fn obeys_into_spec() -> bool {
        true
    }

    closed spec fn into_spec(self) -> x11::xlib::XSegment {
        x11::xlib::XSegment { x1: self.x1, y1: self.y1, x2: self.x2, y2: self.y2 }
    }
}

impl Drawable for Segment {
    open spec fn call(self) -> DrawCall {
        DrawCall::Segments { x1: self@.0, y1: self@.1, x2: self@.2, y2: self@.3 }
    }

    fn draw(self) -> (call: DrawCall) {
        DrawCall::Segments { x1: self.x1, y1: self.y1, x2: self.x2, y2: self.y2 }
    }
}

/// Points with the same coordinates are the same point, and segments with
/// the same endpoints the same segment.
pub proof fn lemma_shapes_are_their_coordinates(p: Point, q: Point, s: Segment, t: Segment)
    ensures
        p@ == q@ ==> p == q,
        s@ == t@ ==> s == t,
{
}

/// A point made from a pair of coordinates has those coordinates, and is
/// drawn by one call at them.
pub proof fn lemma_point_from_pair(x: i16, y: i16)
    ensures
        <Point as FromSpec<(i16, i16)>>::from_spec((x, y))@ == (x, y),
        <Point as FromSpec<(i16, i16)>>::from_spec((x, y)).call() == (DrawCall::Point {
            x: x as i32,
            y: y as i32,
        }),
{
}

/// A segment made from four coordinates, from two pairs or from two points
/// has its endpoints in the order given, and is drawn by one call between
/// them.
pub proof fn lemma_segment_from(x1: i16, y1: i16, x2: i16, y2: i16)
    ensures
        <Segment as FromSpec<(i16, i16, i16, i16)>>::from_spec((x1, y1, x2, y2))@ == (
            x1,
            y1,
            x2,
            y2,
        ),
        <Segment as FromSpec<((i16, i16), (i16, i16))>>::from_spec(((x1, y1), (x2, y2)))@ == (
            x1,
            y1,
            x2,
            y2,
        ),
        <Segment as FromSpec<(i16, i16, i16, i16)>>::from_spec((x1, y1, x2, y2)).call() == (
            DrawCall::Segments { x1, y1, x2, y2 }
        ),
{
}

/// A segment made from two points runs from the first to the second.
pub proof fn lemma_segment_from_points(start: Point, end: Point)
    ensures
        <Segment as FromSpec<(Point, Point)>>::from_spec((start, end))@ == (
            start@.0,
            start@.1,
            end@.0,
            end@.1,
        ),
{
}

/// Converting to and from the native records moves each coordinate to the
/// field of its name.
pub proof fn lemma_native_records(xpoint: x11::xlib::XPoint, xsegment: x11::xlib::XSegment)
    ensures
        <Point as FromSpec<x11::xlib::XPoint>>::from_spec(xpoint)@ == (xpoint.x, xpoint.y),
        <Segment as FromSpec<x11::xlib::XSegment>>::from_spec(xsegment)@ == (
            xsegment.x1,
            xsegment.y1,
            xsegment.x2,
            xsegment.y2,
        ),
        <Segment as IntoSpec<x11::xlib::XSegment>>::into_spec(
            <Segment as FromSpec<x11::xlib::XSegment>>::from_spec(xsegment),
        ) == xsegment,
{
}

/// The native record of a segment holds the segment's four coordinates.
pub proof fn lemma_segment_into_native(segment: Segment)
    ensures
        ({
            let xsegment = <Segment as IntoSpec<x11::xlib::XSegment>>::into_spec(segment);
            (xsegment.x1, xsegment.y1, xsegment.x2, xsegment.y2) == segment@
        }),
{
}

} // verus!
