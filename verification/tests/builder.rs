//! Tests of the display-surface builder.

use black::{Builder, ContextError};

#[test]
fn default_builder_settings() {
    let b = Builder::default();
    assert_eq!(b.title, "");
    assert_eq!(b.width, 512);
    assert_eq!(b.height, 512);
    assert_eq!(b.pixel_size, 1);
    assert_eq!(b.x, 100);
    assert_eq!(b.y, 100);
}

#[test]
fn builder_setters_replace_one_setting_each() {
    let b = Builder::default()
        .title("demo")
        .size(640, 480)
        .pixel_size(2)
        .position(20, -30);
    assert_eq!(b.title, "demo");
    assert_eq!(b.width, 640);
    assert_eq!(b.height, 480);
    assert_eq!(b.pixel_size, 2);
    assert_eq!(b.x, 20);
    assert_eq!(b.y, -30);
}

#[test]
fn context_error_keeps_its_message() {
    let e = ContextError::new("no display");
    assert_eq!(e.message, "no display");
}
