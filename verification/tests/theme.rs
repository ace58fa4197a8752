use led_speakers::api_types;
use led_speakers::theme::Color;

#[test]
fn color_from_vec() {
    let color = Color::from_vec(&vec![1, 2, 3, 4]);
    assert_eq!(color.r, 1);
    assert_eq!(color.g, 2);
    assert_eq!(color.b, 3);
    assert_eq!(color.a, 4);
}

#[test]
fn color_from_hex() {
    let color = api_types::Color::from_hex("#A1B2C3");
    assert_eq!(color.r, 0xA1);
    assert_eq!(color.g, 0xB2);
    assert_eq!(color.b, 0xC3);
}

#[test]
fn color_from_hex_lowercase() {
    let color = api_types::Color::from_hex("#ff00e7");
    assert_eq!(color.r, 255);
    assert_eq!(color.g, 0);
    assert_eq!(color.b, 0xE7);
}

#[test]
fn color_to_hex() {
    let color = api_types::Color { r: 0xA1, g: 0x0B, b: 0xC3 };
    assert_eq!(color.to_hex(), "#A10BC3");
}

#[test]
fn color_hex_round_trip() {
    let color = api_types::Color { r: 17, g: 255, b: 0 };
    let parsed = api_types::Color::from_hex(color.to_hex().as_str());
    assert_eq!(parsed, color);
}
