use xbuilder::color::Colors;

#[test]
fn colors_start_empty() {
    let colors = Colors::new();
    assert_eq!(colors.len(), 0);
    assert_eq!(colors.get("magenta"), None);
    assert!(!colors.contains("magenta"));
    assert_eq!(Colors::default().len(), 0);
}

#[test]
fn colors_insert_then_get() {
    let mut colors = Colors::new();
    colors.insert("magenta", 3);
    assert_eq!(colors.get("magenta"), Some(3));
    assert!(colors.contains("magenta"));
    assert_eq!(colors.get("chartreuse"), None);
    assert_eq!(colors.len(), 1);
}

#[test]
fn colors_insert_overwrites() {
    let mut colors = Colors::new();
    colors.insert("magenta", 0);
    colors.insert("purple", 1);
    colors.insert("magenta", 2);
    assert_eq!(colors.get("magenta"), Some(2));
    assert_eq!(colors.get("purple"), Some(1));
    assert_eq!(colors.len(), 3);
}

#[test]
fn colors_tell_names_apart_by_every_character() {
    let mut colors = Colors::new();
    colors.insert("gray", 0);
    colors.insert("grey", 1);
    colors.insert("", 2);
    assert_eq!(colors.get("gray"), Some(0));
    assert_eq!(colors.get("grey"), Some(1));
    assert_eq!(colors.get(""), Some(2));
    assert_eq!(colors.get("Gray"), None);
    assert_eq!(colors.get("gra"), None);
    assert_eq!(colors.get("gray "), None);
}
