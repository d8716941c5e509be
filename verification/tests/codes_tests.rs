use fusion_kbd::codes::{parse_color, parse_preset, Color, Preset};

#[test]
fn preset_codes() {
    assert_eq!(Preset::Static.code(), 0x01);
    assert_eq!(Preset::Breathing.code(), 0x02);
    assert_eq!(Preset::Wave.code(), 0x03);
    assert_eq!(Preset::FadeOnKeypress.code(), 0x04);
    assert_eq!(Preset::Marquee.code(), 0x05);
    assert_eq!(Preset::Ripple.code(), 0x06);
    assert_eq!(Preset::FlashOnKeypress.code(), 0x07);
    assert_eq!(Preset::Neon.code(), 0x08);
    assert_eq!(Preset::RainbowMarquee.code(), 0x09);
    assert_eq!(Preset::Raindrop.code(), 0x0a);
    assert_eq!(Preset::CircleMarquee.code(), 0x0b);
    assert_eq!(Preset::Hedge.code(), 0x0c);
    assert_eq!(Preset::Rotate.code(), 0x0d);
}

#[test]
fn color_codes() {
    assert_eq!(Color::Rand.code(), 0x00);
    assert_eq!(Color::Red.code(), 0x01);
    assert_eq!(Color::Green.code(), 0x02);
    assert_eq!(Color::Yellow.code(), 0x03);
    assert_eq!(Color::Blue.code(), 0x04);
    assert_eq!(Color::Orange.code(), 0x05);
    assert_eq!(Color::Purple.code(), 0x06);
    assert_eq!(Color::White.code(), 0x07);
}

#[test]
fn color_cycle_spellings() {
    assert_eq!(parse_color("rand"), Some(Color::Rand));
    assert_eq!(parse_color("rainbow"), Some(Color::Rand));
    assert_eq!(parse_color("cycle"), Some(Color::Rand));
}

#[test]
fn color_parse_names() {
    assert_eq!(parse_color("red"), Some(Color::Red));
    assert_eq!(parse_color("green"), Some(Color::Green));
    assert_eq!(parse_color("yellow"), Some(Color::Yellow));
    assert_eq!(parse_color("blue"), Some(Color::Blue));
    assert_eq!(parse_color("orange"), Some(Color::Orange));
    assert_eq!(parse_color("purple"), Some(Color::Purple));
    assert_eq!(parse_color("white"), Some(Color::White));
    assert_eq!(parse_color("mauve"), None);
    assert_eq!(parse_color(""), None);
}

#[test]
fn preset_parse_names() {
    assert_eq!(parse_preset("static"), Some(Preset::Static));
    assert_eq!(parse_preset("fade_on_keypress"), Some(Preset::FadeOnKeypress));
    assert_eq!(parse_preset("rainbow_marquee"), Some(Preset::RainbowMarquee));
    assert_eq!(parse_preset("rotate"), Some(Preset::Rotate));
    assert_eq!(parse_preset("disco"), None);
}

#[test]
fn names_round_trip_through_parse() {
    let presets = [
        Preset::Static,
        Preset::Breathing,
        Preset::Wave,
        Preset::FadeOnKeypress,
        Preset::Marquee,
        Preset::Ripple,
        Preset::FlashOnKeypress,
        Preset::Neon,
        Preset::RainbowMarquee,
        Preset::Raindrop,
        Preset::CircleMarquee,
        Preset::Hedge,
        Preset::Rotate,
    ];
    for p in presets {
        assert_eq!(parse_preset(&p.name()), Some(p));
    }
    let colors = [
        Color::Rand,
        Color::Red,
        Color::Green,
        Color::Yellow,
        Color::Blue,
        Color::Orange,
        Color::Purple,
        Color::White,
    ];
    for c in colors {
        assert_eq!(parse_color(&c.name()), Some(c));
    }
}
