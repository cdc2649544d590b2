use realms::data::Color;

#[test]
fn rgba_stores_all_components() {
    let c = Color::rgba(31, 127, 255, 100);
    assert_eq!(c.r, 31);
    assert_eq!(c.g, 127);
    assert_eq!(c.b, 255);
    assert_eq!(c.a, 100);
}

#[test]
fn rgb_is_fully_opaque() {
    let c = Color::rgb(255, 127, 0);
    assert_eq!(c.r, 255);
    assert_eq!(c.g, 127);
    assert_eq!(c.b, 0);
    assert_eq!(c.a, 255);
}

#[test]
fn new_is_opaque_black() {
    let c = Color::new();
    assert_eq!(c, Color::rgba(0, 0, 0, 255));
}

#[test]
fn default_is_opaque_black() {
    let c = Color::default();
    assert_eq!(c, Color::rgb(0, 0, 0));
}
