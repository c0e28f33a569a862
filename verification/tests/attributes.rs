use xbuilder::attributes::WindowAttributes;
use xbuilder::display::DisplayInfo;

#[test]
fn attributes_from_display_are_black_on_white() {
    let display = DisplayInfo { depth: 24, visual_class: 4, black_pixel: 0, white_pixel: 0xff_ff_ff };
    let attributes = WindowAttributes::from_display(&display);
    assert_eq!(attributes.border_pixel, 0);
    assert_eq!(attributes.background_pixel, 0xff_ff_ff);
}

#[test]
fn attributes_from_display_do_not_swap_the_pixels() {
    let display = DisplayInfo { depth: 1, visual_class: 0, black_pixel: 1, white_pixel: 0 };
    let attributes = WindowAttributes::from_display(&display);
    assert_eq!(attributes, WindowAttributes { border_pixel: 1, background_pixel: 0 });
}

#[test]
fn attributes_setters_replace_one_field() {
    let attributes = WindowAttributes { border_pixel: 1, background_pixel: 2 };
    assert_eq!(
        attributes.border_pixel(7),
        WindowAttributes { border_pixel: 7, background_pixel: 2 }
    );
    assert_eq!(
        attributes.background_pixel(9),
        WindowAttributes { border_pixel: 1, background_pixel: 9 }
    );
    assert_eq!(
        attributes.border_pixel(u64::MAX).background_pixel(0),
        WindowAttributes { border_pixel: u64::MAX, background_pixel: 0 }
    );
}
