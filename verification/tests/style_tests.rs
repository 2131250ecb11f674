use term_theme::{BaseColor, Color, ColorPair, ColorStyle, Theme};

#[test]
fn invert_swaps_front_and_back() {
    let pair = ColorPair { front: Color::Dark(BaseColor::Red), back: Color::Rgb(1, 2, 3) };
    let inverted = pair.invert();
    assert_eq!(
        inverted,
        ColorPair { front: Color::Rgb(1, 2, 3), back: Color::Dark(BaseColor::Red) }
    );
    assert_eq!(inverted.invert(), pair);
}

#[test]
fn pair_from_256colors() {
    assert_eq!(
        ColorPair::from_256colors(1, 9),
        ColorPair { front: Color::Dark(BaseColor::Red), back: Color::Light(BaseColor::Red) }
    );
}

#[test]
fn resolve_follows_the_role_table() {
    let theme = term_theme::load_default();
    let c = &theme.colors;
    let cases = [
        (ColorStyle::Default, Color::Default, Color::Default),
        (ColorStyle::Background, c.view, c.background),
        (ColorStyle::Shadow, c.shadow, c.shadow),
        (ColorStyle::Primary, c.primary, c.view),
        (ColorStyle::Secondary, c.secondary, c.view),
        (ColorStyle::Tertiary, c.tertiary, c.view),
        (ColorStyle::TitlePrimary, c.title_primary, c.view),
        (ColorStyle::TitleSecondary, c.title_secondary, c.view),
        (ColorStyle::Highlight, c.view, c.highlight),
        (ColorStyle::HighlightInactive, c.view, c.highlight_inactive),
    ];
    for (style, front, back) in cases {
        assert_eq!(style.resolve(&theme), ColorPair { front, back });
    }
}

#[test]
fn resolve_primary_pairs_primary_over_view() {
    let mut theme = Theme::default();
    theme.colors.primary = Color::Rgb(10, 20, 30);
    theme.colors.view = Color::RgbLowRes(1, 2, 3);
    assert_eq!(
        ColorStyle::Primary.resolve(&theme),
        ColorPair { front: Color::Rgb(10, 20, 30), back: Color::RgbLowRes(1, 2, 3) }
    );
}

#[test]
fn resolve_custom_bypasses_the_palette() {
    let theme = Theme::default();
    let style = ColorStyle::Custom {
        front: Color::Rgb(9, 9, 9),
        back: Color::Light(BaseColor::Cyan),
    };
    assert_eq!(
        style.resolve(&theme),
        ColorPair { front: Color::Rgb(9, 9, 9), back: Color::Light(BaseColor::Cyan) }
    );
}
