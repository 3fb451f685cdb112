use color_style::BaseColor;
use color_style::Color;
use color_style::ColorStyle;
use color_style::ColorType;
use color_style::PaletteColor;

#[test]
fn new_keeps_both_channels() {
    let s = ColorStyle::new(
        ColorType::Color(Color::Rgb(1, 2, 3)),
        ColorType::Palette(PaletteColor::View),
    );
    assert_eq!(s.front, ColorType::Color(Color::Rgb(1, 2, 3)));
    assert_eq!(s.back, ColorType::Palette(PaletteColor::View));
}

#[test]
fn front_constructor_inherits_back() {
    let s = ColorStyle::front(ColorType::Color(Color::Dark(BaseColor::Cyan)));
    assert_eq!(s.front, ColorType::Color(Color::Dark(BaseColor::Cyan)));
    assert_eq!(s.back, ColorType::InheritParent);
}

#[test]
fn back_constructor_inherits_front() {
    let s = ColorStyle::back(ColorType::Palette(PaletteColor::Shadow));
    assert_eq!(s.front, ColorType::InheritParent);
    assert_eq!(s.back, ColorType::Palette(PaletteColor::Shadow));
}

#[test]
fn inherit_parent_is_transparent_style() {
    let s = ColorStyle::inherit_parent();
    assert_eq!(s.front, ColorType::InheritParent);
    assert_eq!(s.back, ColorType::InheritParent);
}

#[test]
fn defaults_inherit() {
    assert_eq!(ColorType::default(), ColorType::InheritParent);
    assert_eq!(ColorStyle::default(), ColorStyle::inherit_parent());
}

#[test]
fn preset_role_table() {
    let t = ColorStyle::terminal_default();
    assert_eq!(t.front, ColorType::Color(Color::TerminalDefault));
    assert_eq!(t.back, ColorType::Color(Color::TerminalDefault));

    let cases = [
        (
            ColorStyle::background(),
            PaletteColor::Background,
            PaletteColor::Background,
        ),
        (ColorStyle::shadow(), PaletteColor::Shadow, PaletteColor::Shadow),
        (ColorStyle::primary(), PaletteColor::Primary, PaletteColor::View),
        (ColorStyle::secondary(), PaletteColor::Secondary, PaletteColor::View),
        (ColorStyle::tertiary(), PaletteColor::Tertiary, PaletteColor::View),
        (
            ColorStyle::title_primary(),
            PaletteColor::TitlePrimary,
            PaletteColor::View,
        ),
        (
            ColorStyle::title_secondary(),
            PaletteColor::TitleSecondary,
            PaletteColor::View,
        ),
        (
            ColorStyle::highlight(),
            PaletteColor::HighlightText,
            PaletteColor::Highlight,
        ),
        (
            ColorStyle::highlight_inactive(),
            PaletteColor::HighlightText,
            PaletteColor::HighlightInactive,
        ),
    ];
    for (style, front_role, back_role) in cases {
        assert_eq!(style.front, ColorType::Palette(front_role));
        assert_eq!(style.back, ColorType::Palette(back_role));
    }
}

#[test]
fn conversions_into_color_type() {
    let c = Color::Rgb(3, 4, 5);
    assert_eq!(ColorType::from(c), ColorType::Color(c));
    assert_eq!(
        ColorType::from(PaletteColor::Primary),
        ColorType::Palette(PaletteColor::Primary)
    );
}

#[test]
fn conversions_into_color_style() {
    let c = Color::Light(BaseColor::Blue);
    assert_eq!(
        ColorStyle::from(c),
        ColorStyle::front(ColorType::Color(c))
    );
    assert_eq!(
        ColorStyle::from(BaseColor::Red),
        ColorStyle::front(ColorType::Color(Color::Dark(BaseColor::Red)))
    );
    assert_eq!(
        ColorStyle::from(PaletteColor::Highlight),
        ColorStyle::front(ColorType::Palette(PaletteColor::Highlight))
    );
    assert_eq!(
        ColorStyle::from(ColorType::InheritParent),
        ColorStyle::inherit_parent()
    );
    assert_eq!(
        ColorStyle::from((
            ColorType::Color(c),
            ColorType::Palette(PaletteColor::View)
        )),
        ColorStyle::new(ColorType::Color(c), ColorType::Palette(PaletteColor::View))
    );
}
