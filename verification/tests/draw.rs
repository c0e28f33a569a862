use xbuilder::display::DisplayInfo;
use xbuilder::draw::{DrawCall, Drawable, Point, Segment};
use xbuilder::window::Window;
use xbuilder::{Request, XBuilder};

fn screen() -> DisplayInfo {
    DisplayInfo { depth: 24, visual_class: 4, black_pixel: 0, white_pixel: 0xff_ff_ff }
}

#[test]
fn segment() {
    let mut session = XBuilder::new(Some(screen()), true)
        .unwrap()
        .with_window(
            Window::new()
                .name("Drawable Segment")
                .x(100)
                .y(100)
                .width(100)
                .height(100),
        )
        .add_color("purple")
        .set_foreground("purple")
        .unwrap()
        .draw(Segment::from((0, 0, 100, 100)))
        .unwrap();
    let requests = session.flush();
    assert_eq!(
        requests,
        vec![
            Request::CreateColormap { alloc: 0 },
            Request::CreateWindow {
                x: 100,
                y: 100,
                width: 100,
                height: 100,
                border_width: 1,
                depth: 24,
                class: 1,
                valuemask: 0x200a,
                border_pixel: 0,
                background_pixel: 0xff_ff_ff,
            },
            Request::SetClassHint { name: String::from("Drawable Segment") },
            Request::StoreName { name: String::from("Drawable Segment") },
            Request::SelectInput { event_mask: 0x2_0000 },
            Request::MapWindow,
            Request::CreateGc,
            Request::AllocNamedColor { name: String::from("purple"), cell: 0 },
            Request::SetForeground { cell: 0 },
            Request::AwaitMapNotify,
            Request::Draw { call: DrawCall::Segments { x1: 0, y1: 0, x2: 100, y2: 100 } },
            Request::Flush,
        ]
    );
    assert!(session.requests().is_empty());
}

#[test]
fn point() {
    let mut session = XBuilder::new(Some(screen()), true)
        .unwrap()
        .with_window(Window::new().name("Drawable Point").width(100).height(100))
        .add_color("magenta")
        .set_foreground("magenta")
        .unwrap()
        .draw(Point::from((50, 50)))
        .unwrap();
    let requests = session.flush();
    assert_eq!(requests.len(), 12);
    assert_eq!(requests[9], Request::AwaitMapNotify);
    assert_eq!(requests[10], Request::Draw { call: DrawCall::Point { x: 50, y: 50 } });
    assert_eq!(requests[11], Request::Flush);
    let draws = requests.iter().filter(|r| matches!(r, Request::Draw { .. })).count();
    assert_eq!(draws, 1);
}

#[test]
fn point_from_pair_keeps_the_order() {
    let point = Point::from((3, -4));
    assert_eq!(point.x(), 3);
    assert_eq!(point.y(), -4);
    assert_eq!(point.draw(), DrawCall::Point { x: 3, y: -4 });
}

#[test]
fn point_at_the_ends_of_the_range() {
    let point = Point::from((i16::MIN, i16::MAX));
    assert_eq!(point.draw(), DrawCall::Point { x: -32768, y: 32767 });
}

#[test]
fn point_default_is_the_origin() {
    assert_eq!(Point::default(), Point::from((0, 0)));
}

#[test]
fn point_from_native_point() {
    let point = Point::from(x11::xlib::XPoint { x: 7, y: 9 });
    assert_eq!(point, Point::from((7, 9)));
}

#[test]
fn segment_from_four_coordinates() {
    let segment = Segment::from((1, 2, 3, 4));
    assert_eq!(segment.start(), Point::from((1, 2)));
    assert_eq!(segment.end(), Point::from((3, 4)));
    assert_eq!(segment.draw(), DrawCall::Segments { x1: 1, y1: 2, x2: 3, y2: 4 });
}

#[test]
fn segment_from_two_points() {
    let segment = Segment::from((Point::from((1, 2)), Point::from((3, 4))));
    assert_eq!(segment, Segment::from((1, 2, 3, 4)));
}

#[test]
fn segment_from_two_pairs() {
    let segment = Segment::from(((1, 2), (3, 4)));
    assert_eq!(segment, Segment::from((1, 2, 3, 4)));
}

#[test]
fn segment_from_native_segment() {
    let segment = Segment::from(x11::xlib::XSegment { x1: 1, y1: 2, x2: 3, y2: 4 });
    assert_eq!(segment, Segment::from((1, 2, 3, 4)));
}

#[test]
fn segment_into_native_segment() {
    let native: x11::xlib::XSegment = Segment::from((1, 2, 3, 4)).into();
    assert_eq!(native, x11::xlib::XSegment { x1: 1, y1: 2, x2: 3, y2: 4 });
}

#[test]
fn segment_default_is_a_point_at_the_origin() {
    assert_eq!(Segment::default(), Segment::from((0, 0, 0, 0)));
}

#[test]
fn draw_needs_a_window() {
    let session = XBuilder::new(Some(screen()), true).unwrap();
    let refused = session.draw(Point::from((50, 50)));
    assert_eq!(refused.unwrap_err().error, xbuilder::XError::NoWindow);
}

#[test]
fn draw_twice_waits_twice() {
    let mut session = XBuilder::new(Some(screen()), true)
        .unwrap()
        .with_window(Window::new());
    session.take_requests();
    let mut session = session
        .draw(Point::from((1, 1)))
        .unwrap()
        .draw(Segment::from((0, 0, 1, 1)))
        .unwrap();
    assert_eq!(
        session.take_requests(),
        vec![
            Request::AwaitMapNotify,
            Request::Draw { call: DrawCall::Point { x: 1, y: 1 } },
            Request::AwaitMapNotify,
            Request::Draw { call: DrawCall::Segments { x1: 0, y1: 0, x2: 1, y2: 1 } },
        ]
    );
}
