use xbuilder::window::{Window, WindowClass, DEFAULT_VALUEMASK};

#[test]
fn window_defaults() {
    let window = Window::new();
    assert_eq!(window.name, "");
    assert_eq!(window.x, 0);
    assert_eq!(window.y, 0);
    assert_eq!(window.width, 1);
    assert_eq!(window.height, 1);
    assert_eq!(window.border_width, 1);
    assert_eq!(window.class, WindowClass::InputOutput);
    assert_eq!(window.valuemask, 0x200a);
    assert_eq!(window, Window::default());
}

#[test]
fn window_default_mask_is_made_of_the_bindings_bits() {
    let bits = x11::xlib::CWColormap | x11::xlib::CWBorderPixel | x11::xlib::CWBackPixel;
    assert_eq!(Window::new().valuemask, bits);
    assert_eq!(DEFAULT_VALUEMASK, bits);
}

#[test]
fn window_geometry_is_what_was_set() {
    let window = Window::new()
        .width(100)
        .height(100)
        .x(0)
        .y(0)
        .border_width(1)
        .class(WindowClass::InputOutput);
    assert_eq!(window.width, 100);
    assert_eq!(window.height, 100);
    assert_eq!(window.x, 0);
    assert_eq!(window.y, 0);
    assert_eq!(window.border_width, 1);
    assert_eq!(window.class, WindowClass::InputOutput);
}

#[test]
fn window_setters_replace_one_field() {
    let window = Window::new().name("Test Name");
    assert_eq!(window, Window { name: String::from("Test Name"), ..Window::new() });
    let window = Window::new().x(-7);
    assert_eq!(window, Window { x: -7, ..Window::new() });
    let window = Window::new().y(9);
    assert_eq!(window, Window { y: 9, ..Window::new() });
    let window = Window::new().width(640);
    assert_eq!(window, Window { width: 640, ..Window::new() });
    let window = Window::new().height(480);
    assert_eq!(window, Window { height: 480, ..Window::new() });
    let window = Window::new().border_width(0);
    assert_eq!(window, Window { border_width: 0, ..Window::new() });
    let window = Window::new().class(WindowClass::InputOnly);
    assert_eq!(window, Window { class: WindowClass::InputOnly, ..Window::new() });
    let window = Window::new().valuemask(1 << 11);
    assert_eq!(window, Window { valuemask: 0x800, ..Window::new() });
}

#[test]
fn window_name_is_replaced_by_the_later_one() {
    let window = Window::new().name("first").name("second");
    assert_eq!(window.name, "second");
}

#[test]
fn window_class_codes_follow_the_protocol() {
    assert_eq!(WindowClass::CopyFromParent.code(), 0);
    assert_eq!(WindowClass::InputOutput.code(), 1);
    assert_eq!(WindowClass::InputOnly.code(), 2);
    assert_eq!(WindowClass::CopyFromParent.code() as i32, x11::xlib::CopyFromParent);
    assert_eq!(WindowClass::InputOutput.code() as i32, x11::xlib::InputOutput);
    assert_eq!(WindowClass::InputOnly.code() as i32, x11::xlib::InputOnly);
}

#[test]
fn window_input_only_needs_no_border_and_no_depth() {
    let window = Window::new().class(WindowClass::InputOnly);
    assert!(!window.admits_depth(0));
    assert!(!window.admits_depth(24));
    let window = window.border_width(0);
    assert!(window.admits_depth(0));
    assert!(!window.admits_depth(24));
    assert!(!window.admits_depth(-1));
}

#[test]
fn window_of_another_class_takes_any_border_and_depth() {
    assert!(Window::new().admits_depth(0));
    assert!(Window::new().admits_depth(24));
    assert!(Window::new().border_width(5).admits_depth(32));
    assert!(Window::new().class(WindowClass::CopyFromParent).admits_depth(8));
}
