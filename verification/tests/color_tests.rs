use tasbot_eyes::color::Color;
use tasbot_eyes::color::ColorError;
use tasbot_eyes::color::default_palette;
use tasbot_eyes::color::get_base_or_blink_color;
use tasbot_eyes::color::get_random_color;
use tasbot_eyes::color::get_random_color_from_palette;
use tasbot_eyes::color::init_color_palette;
use tasbot_eyes::color::parse_hex_u32;
use tasbot_eyes::color::read_color_palette;
use tasbot_eyes::file_operations::Palette;

#[test]
fn test_to_hex() {
    let color = Color { r: 255, g: 0, b: 0 };
    let hex = color.to_hex();
    assert_eq!(hex, 0xff0000);
}

#[test]
fn test_from_hex() {
    let hex = 0xff0000;
    let color = Color::from_hex(hex);
    assert_eq!(color, Color { r: 255, g: 0, b: 0 });
}

#[test]
fn test_from_hex_string() {
    let hex_string = "ff0000";
    let color = Color::from_hex_string(hex_string).unwrap();
    assert_eq!(color, Color { r: 255, g: 0, b: 0 });

    let hex_string = "fff";
    let result = Color::from_hex_string(hex_string);
    assert!(result.is_err());
}

#[test]
fn test_to_raw() {
    let color = Color { r: 255, g: 0, b: 0 };
    let raw = color.to_raw();
    assert_eq!(raw, [0, 0, 255, 0]);
}

#[test]
fn test_read_color_palette() {
    let pal = Palette {
        data_type: String::from("palette"),
        colors: vec![
            String::from("FF0000"),
            String::from("00FF00"),
            String::from("0000FF"),
        ],
    };
    let palette = read_color_palette(&pal).unwrap();
    assert_eq!(palette.len(), 3);
    assert_eq!(palette[0], Color { r: 255, g: 0, b: 0 });
    assert_eq!(palette[1], Color { r: 0, g: 255, b: 0 });
    assert_eq!(palette[2], Color { r: 0, g: 0, b: 255 });
}

fn mock_palette() -> Vec<Color> {
    vec![
        Color::from_hex_string("FF0000").unwrap(),
        Color::from_hex_string("00FF00").unwrap(),
        Color::from_hex_string("0000FF").unwrap(),
    ]
}

#[test]
fn test_get_random_color_from_palette_with_palette() {
    let mock_palette = mock_palette();
    let color = get_random_color(&mock_palette);

    assert!(mock_palette.contains(&color));
}

#[test]
fn test_get_random_color_from_palette_same_color_multiple_calls() {
    let mock_palette = mock_palette();

    let color_a = get_random_color(&mock_palette);
    let color_b = get_random_color(&mock_palette);

    assert!(mock_palette.contains(&color_a));
    assert!(mock_palette.contains(&color_b));
}

#[test]
fn test_parse_hex_u32_values() {
    assert_eq!(parse_hex_u32("ff0000"), Some(0xff0000));
    assert_eq!(parse_hex_u32("FFFFFF"), Some(0xffffff));
    assert_eq!(parse_hex_u32("0"), Some(0));
    assert_eq!(parse_hex_u32("+10"), Some(16));
    assert_eq!(parse_hex_u32("ffffffff"), Some(0xffffffff));
    assert_eq!(parse_hex_u32(""), None);
    assert_eq!(parse_hex_u32("+"), None);
    assert_eq!(parse_hex_u32("12g4"), None);
    assert_eq!(parse_hex_u32("100000000"), None);
}

#[test]
fn test_hex_round_trip() {
    let color = Color { r: 12, g: 200, b: 7 };
    assert_eq!(Color::from_hex(color.to_hex()), color);
    assert_eq!(Color::from_hex(0x123456).to_hex(), 0x123456);
}

#[test]
fn test_from_hex_string_rejects_seven_digits() {
    assert!(Color::from_hex_string("1234567").is_err());
    assert!(Color::from_hex_string("zzzzzz").is_err());
}

#[test]
fn test_read_color_palette_skips_bad_entries() {
    let pal = Palette {
        data_type: String::from("palette"),
        colors: vec![String::from("bogus!"), String::from("00FF00")],
    };
    let palette = read_color_palette(&pal).unwrap();
    assert_eq!(palette, vec![Color { r: 0, g: 255, b: 0 }]);
}

#[test]
fn test_read_color_palette_empty_is_error() {
    let pal = Palette { data_type: String::from("palette"), colors: vec![] };
    match read_color_palette(&pal) {
        Err(ColorError::Other(msg)) => assert_eq!(msg, "No colors in file"),
        _ => panic!("an empty palette must be an error"),
    }
}

#[test]
fn test_init_color_palette_three_entries() {
    let pal = Palette {
        data_type: String::from("palette"),
        colors: vec![
            String::from("FF0000"),
            String::from("00FF00"),
            String::from("0000FF"),
        ],
    };
    let palette = init_color_palette(Some(&pal));
    assert_eq!(palette.len(), 3);
    assert_eq!(palette[0], Color { r: 255, g: 0, b: 0 });
}

#[test]
fn test_init_color_palette_empty_falls_back_to_default() {
    let pal = Palette { data_type: String::from("palette"), colors: vec![] };
    let palette = init_color_palette(Some(&pal));
    assert_eq!(palette, default_palette());
}

#[test]
fn test_init_color_palette_none_is_default() {
    let palette = init_color_palette(None);
    assert_eq!(palette.len(), 6);
    assert_eq!(palette[0], Color { r: 255, g: 0, b: 0 });
    assert_eq!(palette[5], Color { r: 255, g: 0, b: 255 });
}

#[test]
fn test_get_random_color_empty_palette_is_white() {
    let empty: Vec<Color> = vec![];
    assert_eq!(get_random_color(&empty), Color { r: 255, g: 255, b: 255 });
}

#[test]
fn test_get_random_color_from_palette_empty_uses_default() {
    let empty: Vec<Color> = vec![];
    let color = get_random_color_from_palette(&empty);
    assert!(default_palette().contains(&color));
}

#[test]
fn test_get_base_or_blink_color_override() {
    let palette = mock_palette();
    // an explicitly configured color is used
    let c = get_base_or_blink_color(false, &Some(String::from("00FF00")), &palette);
    assert_eq!(c, Some(Color { r: 0, g: 255, b: 0 }));
    // white is the no-override sentinel
    let c = get_base_or_blink_color(false, &Some(String::from("FFFFFF")), &palette);
    assert_eq!(c, None);
    // no configured color means the animation's own colors
    let c = get_base_or_blink_color(false, &None, &palette);
    assert_eq!(c, None);
    // an unparseable color falls back to white, the sentinel
    let c = get_base_or_blink_color(false, &Some(String::from("not hex")), &palette);
    assert_eq!(c, None);
}

#[test]
fn test_get_base_or_blink_color_random() {
    let palette = mock_palette();
    let c = get_base_or_blink_color(true, &None, &palette).unwrap();
    assert!(palette.contains(&c));
}
