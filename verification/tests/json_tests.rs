use delivery::json::server_status::{friendly_status, status_color};
use delivery::json::{pair_object, quote};

#[test]
fn quote_escapes_control_characters() {
    assert_eq!("\"a\\u001fb\\u007f\"", quote("a\u{1f}b\u{7f}").unwrap());
    assert_eq!("\"\\b\\f\\r\"", quote("\u{8}\u{c}\r").unwrap());
    assert_eq!("\"héllo\"", quote("héllo").unwrap());
}

#[test]
fn pair_object_in_field_order() {
    assert_eq!("{\"a\":\"1\",\"b\":\"2\"}", pair_object("a", "1", "b", "2").unwrap());
}

#[test]
fn friendly_status_text() {
    assert_eq!("{\"configuration_mode\": \"up\"}", friendly_status("{\"configuration mode\": \"pong\"}"));
    assert_eq!("green", status_color("up"));
    assert_eq!("red", status_color("down"));
}
