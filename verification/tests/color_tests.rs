use tivra::CustomColor;

#[test]
fn test_hex_string_parsing_toml() {
    let inputs = vec![
        ("color = \"#FF0000\"", 0xFF0000),
        ("color = \"0x00FF00\"", 0x00FF00),
        ("color = \"0000FF\"", 0x0000FF),
        // Test case formatting tolerance
        ("color = \"#abcdef\"", 0xABCDEF),
    ];

    for (toml_input, expected_val) in inputs {
        let table: toml::Table = toml::from_str(toml_input).expect("Failed to parse TOML");
        let text = table["color"].as_str().expect("color is a string");
        let color = CustomColor::parse(text).expect("Parsed color");
        assert_eq!(color.0, expected_val);
    }
}

#[test]
fn test_iced_color_conversion_roundtrip() {
    // channels of Color::from_rgb8(255, 128, 0)
    let custom = CustomColor::from_channels(255, 128, 0);
    assert_eq!(custom.0, 0xFF8000, "RGB values did not map to Hex correctly");
    assert_eq!(custom.channels(), (255, 128, 0));
}

#[test]
fn color_text_form() {
    assert_eq!(CustomColor(0xFF00AA).to_hex_string(), "#FF00AA");
    assert_eq!(CustomColor(0xFF).to_hex_string(), "#0000FF");
    assert_eq!(CustomColor(0).to_hex_string(), "#000000");
    assert_eq!(CustomColor(0x1234567).to_hex_string(), "#1234567");
    assert_eq!(CustomColor(u32::MAX).to_hex_string(), "#FFFFFFFF");
    for v in [0u32, 1, 0xabcdef, 0xFF8000, 0x1000000, u32::MAX] {
        let text = CustomColor(v).to_hex_string();
        assert_eq!(CustomColor::parse(&text), Some(CustomColor(v)));
    }
}

#[test]
fn color_parsing_edges() {
    assert_eq!(CustomColor::parse("+ff"), Some(CustomColor(0xff)));
    assert_eq!(CustomColor::parse("#+ff"), Some(CustomColor(0xff)));
    assert_eq!(CustomColor::parse("+"), None);
    assert_eq!(CustomColor::parse(""), None);
    assert_eq!(CustomColor::parse("#"), None);
    assert_eq!(CustomColor::parse("0x0x12"), Some(CustomColor(0x12)));
    assert_eq!(CustomColor::parse("##12"), Some(CustomColor(0x12)));
    assert_eq!(CustomColor::parse("#0x12"), None);
    assert_eq!(CustomColor::parse("-1"), None);
    assert_eq!(CustomColor::parse("ffffffff"), Some(CustomColor(u32::MAX)));
    assert_eq!(CustomColor::parse("100000000"), None);
    assert_eq!(CustomColor::parse("00000000000000ff"), Some(CustomColor(0xff)));
    assert_eq!(CustomColor::parse("12g4"), None);
    assert_eq!(CustomColor::parse("0x"), None);
}

#[test]
fn color_channels() {
    let c = CustomColor(0x12_34_56);
    assert_eq!(c.channels(), (0x12, 0x34, 0x56));
    assert_eq!(CustomColor(0xAB_12_34_56).channels(), (0x12, 0x34, 0x56));
    assert_eq!(CustomColor::from_channels(0x12, 0x34, 0x56), c);
    // values above a byte are not masked
    assert_eq!(CustomColor::from_channels(0, 0x1FF, 0).0, 0x1FF00);
}
