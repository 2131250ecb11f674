use term_theme::{BaseColor, Color};

const BASES: [BaseColor; 8] = [
    BaseColor::Black,
    BaseColor::Red,
    BaseColor::Green,
    BaseColor::Yellow,
    BaseColor::Blue,
    BaseColor::Magenta,
    BaseColor::Cyan,
    BaseColor::White,
];

#[test]
fn base_color_from_is_modulo_8() {
    for n in 0u8..=255 {
        assert_eq!(BaseColor::from(n), BASES[(n % 8) as usize]);
    }
}

#[test]
fn from_256colors_dark_range() {
    for n in 0u8..8 {
        assert_eq!(Color::from_256colors(n), Color::Dark(BaseColor::from(n)));
    }
}

#[test]
fn from_256colors_light_range() {
    for n in 8u8..16 {
        assert_eq!(Color::from_256colors(n), Color::Light(BaseColor::from(n - 8)));
    }
}

#[test]
fn from_256colors_cube_channels_recombine() {
    for n in 16u8..=231 {
        match Color::from_256colors(n) {
            Color::RgbLowRes(r, g, b) => {
                assert!(r <= 5 && g <= 5 && b <= 5);
                assert_eq!(16u32 + 36 * r as u32 + 6 * g as u32 + b as u32, n as u32);
            }
            other => panic!("index {} gave {:?}", n, other),
        }
    }
}

#[test]
fn from_256colors_cube_corners() {
    assert_eq!(Color::from_256colors(16), Color::RgbLowRes(0, 0, 0));
    assert_eq!(Color::from_256colors(196), Color::RgbLowRes(5, 0, 0));
    assert_eq!(Color::from_256colors(231), Color::RgbLowRes(5, 5, 5));
}

#[test]
fn from_256colors_past_the_cube_follows_the_formula() {
    // Indices 232..=255 still go through the cube formula, which pushes the
    // red channel to 6.
    assert_eq!(Color::from_256colors(232), Color::RgbLowRes(6, 0, 0));
    assert_eq!(Color::from_256colors(255), Color::RgbLowRes(6, 3, 5));
}

#[test]
fn parse_six_digit_hex() {
    assert_eq!(Color::parse("#FF5555"), Some(Color::Rgb(255, 85, 85)));
    assert_eq!(Color::parse("#ff5555"), Some(Color::Rgb(255, 85, 85)));
    assert_eq!(Color::parse("#d3d7cf"), Some(Color::Rgb(0xd3, 0xd7, 0xcf)));
    assert_eq!(Color::parse("#000000"), Some(Color::Rgb(0, 0, 0)));
}

#[test]
fn parse_three_digit_hex_scales_by_17() {
    assert_eq!(Color::parse("#F55"), Some(Color::Rgb(255, 85, 85)));
    assert_eq!(Color::parse("#F00"), Some(Color::Rgb(255, 0, 0)));
    assert_eq!(Color::parse("#fff"), Some(Color::Rgb(255, 255, 255)));
}

#[test]
fn parse_hex_is_lenient_about_digits() {
    // A character outside 0-9a-fA-F counts as 0.
    assert_eq!(Color::parse("#GGG"), Some(Color::Rgb(0, 0, 0)));
    assert_eq!(Color::parse("#1G2"), Some(Color::Rgb(17, 0, 34)));
    assert_eq!(Color::parse("#ZZZZZZ"), Some(Color::Rgb(0, 0, 0)));
}

#[test]
fn parse_hex_of_other_lengths_matches_nothing() {
    assert_eq!(Color::parse("#1234"), None);
    assert_eq!(Color::parse("#12"), None);
    assert_eq!(Color::parse("#"), None);
    assert_eq!(Color::parse("#1234567"), None);
}

#[test]
fn parse_dark_names() {
    assert_eq!(Color::parse("red"), Some(Color::Dark(BaseColor::Red)));
    let names = ["black", "red", "green", "yellow", "blue", "magenta", "cyan", "white"];
    for (i, name) in names.iter().enumerate() {
        assert_eq!(Color::parse(name), Some(Color::Dark(BASES[i])));
    }
}

#[test]
fn parse_light_names() {
    assert_eq!(Color::parse("light red"), Some(Color::Light(BaseColor::Red)));
    let names = ["black", "red", "green", "yellow", "blue", "magenta", "cyan", "white"];
    for (i, name) in names.iter().enumerate() {
        let lit = format!("light {}", name);
        assert_eq!(Color::parse(&lit), Some(Color::Light(BASES[i])));
    }
}

#[test]
fn parse_names_are_case_sensitive() {
    assert_eq!(Color::parse("Red"), None);
    assert_eq!(Color::parse("RED"), None);
    assert_eq!(Color::parse("light  red"), None);
}

#[test]
fn parse_low_res_triples() {
    assert_eq!(Color::parse("420"), Some(Color::RgbLowRes(4, 2, 0)));
    assert_eq!(Color::parse("000"), Some(Color::RgbLowRes(0, 0, 0)));
    assert_eq!(Color::parse("555"), Some(Color::RgbLowRes(5, 5, 5)));
}

#[test]
fn parse_low_res_rejects_digits_past_5() {
    assert_eq!(Color::parse("999"), None);
    assert_eq!(Color::parse("006"), None);
    assert_eq!(Color::parse("60a"), None);
}

#[test]
fn parse_rejects_everything_else() {
    assert_eq!(Color::parse(""), None);
    assert_eq!(Color::parse("notacolor"), None);
    assert_eq!(Color::parse("12"), None);
    assert_eq!(Color::parse("1234"), None);
}

#[test]
fn parse_special_directly() {
    assert_eq!(Color::parse_special("#abc"), Some(Color::Rgb(170, 187, 204)));
    assert_eq!(Color::parse_special("123"), Some(Color::RgbLowRes(1, 2, 3)));
    assert_eq!(Color::parse_special("red"), None);
}

#[test]
fn load_hex_reads_hex_digits() {
    assert_eq!(term_theme::load_hex("ff"), 255);
    assert_eq!(term_theme::load_hex("A1"), 161);
    assert_eq!(term_theme::load_hex("0"), 0);
    assert_eq!(term_theme::load_hex(""), 0);
    assert_eq!(term_theme::load_hex("x7"), 7);
}
