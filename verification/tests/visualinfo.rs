use xbuilder::visualinfo::{VisualClass, VisualInfo};

#[test]
fn visual_info_defaults_to_deep_true_color() {
    let info = VisualInfo::default();
    assert_eq!(info.depth, 32);
    assert_eq!(info.class, VisualClass::TrueColor);
}

#[test]
fn visual_info_setters_replace_one_field() {
    let info = VisualInfo::default().depth(24);
    assert_eq!(info, VisualInfo { depth: 24, class: VisualClass::TrueColor });
    let info = info.class(VisualClass::PseudoColor);
    assert_eq!(info, VisualInfo { depth: 24, class: VisualClass::PseudoColor });
    let info = info.depth(8);
    assert_eq!(info, VisualInfo { depth: 8, class: VisualClass::PseudoColor });
}

#[test]
fn visual_class_codes_follow_the_protocol() {
    assert_eq!(VisualClass::StaticGray.code(), 0);
    assert_eq!(VisualClass::GrayScale.code(), 1);
    assert_eq!(VisualClass::StaticColor.code(), 2);
    assert_eq!(VisualClass::PseudoColor.code(), 3);
    assert_eq!(VisualClass::TrueColor.code(), 4);
    assert_eq!(VisualClass::DirectColor.code(), 5);
}

#[test]
fn visual_class_codes_agree_with_the_bindings() {
    assert_eq!(VisualClass::StaticGray.code(), x11::xlib::StaticGray);
    assert_eq!(VisualClass::GrayScale.code(), x11::xlib::GrayScale);
    assert_eq!(VisualClass::StaticColor.code(), x11::xlib::StaticColor);
    assert_eq!(VisualClass::PseudoColor.code(), x11::xlib::PseudoColor);
    assert_eq!(VisualClass::TrueColor.code(), x11::xlib::TrueColor);
    assert_eq!(VisualClass::DirectColor.code(), x11::xlib::DirectColor);
}

#[test]
fn visual_class_decoding_undoes_encoding() {
    let classes = [
        VisualClass::StaticGray,
        VisualClass::GrayScale,
        VisualClass::StaticColor,
        VisualClass::PseudoColor,
        VisualClass::TrueColor,
        VisualClass::DirectColor,
    ];
    for class in classes {
        assert_eq!(VisualClass::from_code(class.code()), Some(class));
    }
}

#[test]
fn visual_class_decoding_refuses_other_numbers() {
    assert_eq!(VisualClass::from_code(-1), None);
    assert_eq!(VisualClass::from_code(6), None);
    assert_eq!(VisualClass::from_code(i32::MAX), None);
    assert_eq!(VisualClass::from_code(i32::MIN), None);
}
