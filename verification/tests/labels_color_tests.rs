use aracari::color::{format_hex_rgb, parse_hex, ColorInputMode, Rgba8};
use aracari::labels::{field_label, path_to_label};

#[test]
fn field_labels_are_sentence_case() {
    assert_eq!(field_label("lifetime_randomness"), "Lifetime randomness");
    assert_eq!(field_label("one_shot"), "One shot");
    assert_eq!(field_label("delay"), "Delay");
}

#[test]
fn field_label_capitalizes_fps() {
    assert_eq!(field_label("fixed_fps"), "Fixed FPS");
    assert_eq!(field_label("fps"), "FPS");
}

#[test]
fn path_labels_use_the_last_segment() {
    assert_eq!(path_to_label("time.lifetime"), "Lifetime");
    assert_eq!(path_to_label("time.fixed_fps"), "Fixed FPS");
    assert_eq!(path_to_label("emission.particles_amount"), "Particles amount");
    assert_eq!(path_to_label("spread"), "Spread");
}

#[test]
fn hex_formatting_is_uppercase_two_digits() {
    assert_eq!(format_hex_rgb(255, 0, 16), "FF0010");
    assert_eq!(format_hex_rgb(0, 0, 0), "000000");
    assert_eq!(format_hex_rgb(0xab, 0xcd, 0xef), "ABCDEF");
}

#[test]
fn hex_parsing_accepts_six_or_eight_digits() {
    assert_eq!(parse_hex("#FF8000"), Some(Rgba8 { r: 255, g: 128, b: 0, a: 255 }));
    assert_eq!(parse_hex("ff800080"), Some(Rgba8 { r: 255, g: 128, b: 0, a: 128 }));
    assert_eq!(parse_hex("##00ff00"), Some(Rgba8 { r: 0, g: 255, b: 0, a: 255 }));
    assert_eq!(parse_hex("+F+F+F"), Some(Rgba8 { r: 15, g: 15, b: 15, a: 255 }));
}

#[test]
fn hex_parsing_rejects_other_texts() {
    assert_eq!(parse_hex("FFF"), None);
    assert_eq!(parse_hex("GG0000"), None);
    assert_eq!(parse_hex(""), None);
    assert_eq!(parse_hex("1234567"), None);
    assert_eq!(parse_hex("12 456"), None);
}

#[test]
fn hex_roundtrip_on_samples() {
    for (r, g, b) in [(1u8, 2u8, 3u8), (200, 17, 99), (255, 255, 255)] {
        let text = format_hex_rgb(r, g, b);
        assert_eq!(parse_hex(&text), Some(Rgba8 { r, g, b, a: 255 }));
    }
}

#[test]
fn input_mode_positions() {
    assert_eq!(ColorInputMode::default(), ColorInputMode::Rgb);
    assert_eq!(ColorInputMode::Hex.index(), 0);
    assert_eq!(ColorInputMode::Hsb.index(), 2);
    assert_eq!(ColorInputMode::from_index(0), ColorInputMode::Hex);
    assert_eq!(ColorInputMode::from_index(1), ColorInputMode::Rgb);
    assert_eq!(ColorInputMode::from_index(2), ColorInputMode::Hsb);
    assert_eq!(ColorInputMode::from_index(9), ColorInputMode::Rgb);
    for m in [ColorInputMode::Hex, ColorInputMode::Rgb, ColorInputMode::Hsb] {
        assert_eq!(ColorInputMode::from_index(m.index()), m);
    }
}
