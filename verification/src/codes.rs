//! The closed enumerations of the protocol: the built-in lighting presets
//! and the predefined colors, with their numeric wire codes and the
//! textual spellings they are parsed from.

use vstd::prelude::*;

verus! {

/// The thirteen built-in lighting presets, wire codes 0x01 through 0x0d.
#[derive(Clone, Copy, PartialEq, Eq, Structural, Debug)]
pub enum Preset {
    Static,
    Breathing,
    Wave,
    FadeOnKeypress,
    Marquee,
    Ripple,
    FlashOnKeypress,
    Neon,
    RainbowMarquee,
    Raindrop,
    CircleMarquee,
    Hedge,
    Rotate,
}

/// The eight predefined colors, wire codes 0x00 through 0x07; code 0 asks
/// the device to cycle colors on its own.
#[derive(Clone, Copy, PartialEq, Eq, Structural, Debug)]
pub enum Color {
    Rand,
    Red,
    Green,
    Yellow,
    Blue,
    Orange,
    Purple,
    White,
}

impl Preset {
    pub open spec fn code_spec(self) -> u8 {
        match self {
            Preset::Static => 0x01,
            Preset::Breathing => 0x02,
            Preset::Wave => 0x03,
            Preset::FadeOnKeypress => 0x04,
            Preset::Marquee => 0x05,
            Preset::Ripple => 0x06,
            Preset::FlashOnKeypress => 0x07,
            Preset::Neon => 0x08,
            Preset::RainbowMarquee => 0x09,
            Preset::Raindrop => 0x0a,
            Preset::CircleMarquee => 0x0b,
            Preset::Hedge => 0x0c,
            Preset::Rotate => 0x0d,
        }
    }

    /// The preset's numeric wire code.
    pub fn code(self) -> (r: u8)
        ensures
            r == self.code_spec(),
    {
        match self {
            Preset::Static => 0x01,
            Preset::Breathing => 0x02,
            Preset::Wave => 0x03,
            Preset::FadeOnKeypress => 0x04,
            Preset::Marquee => 0x05,
            Preset::Ripple => 0x06,
            Preset::FlashOnKeypress => 0x07,
            Preset::Neon => 0x08,
            Preset::RainbowMarquee => 0x09,
            Preset::Raindrop => 0x0a,
            Preset::CircleMarquee => 0x0b,
            Preset::Hedge => 0x0c,
            Preset::Rotate => 0x0d,
        }
    }

    /// The preset's textual name, as accepted by [`parse_preset`].
    pub open spec fn name_spec(self) -> Seq<char> {
        match self {
            Preset::Static => "static"@,
            Preset::Breathing => "breathing"@,
            Preset::Wave => "wave"@,
            Preset::FadeOnKeypress => "fade_on_keypress"@,
            Preset::Marquee => "marquee"@,
            Preset::Ripple => "ripple"@,
            Preset::FlashOnKeypress => "flash_on_keypress"@,
            Preset::Neon => "neon"@,
            Preset::RainbowMarquee => "rainbow_marquee"@,
            Preset::Raindrop => "raindrop"@,
            Preset::CircleMarquee => "circle_marquee"@,
            Preset::Hedge => "hedge"@,
            Preset::Rotate => "rotate"@,
        }
    }

    pub fn name(self) -> (r: String)
        ensures
            r@ == self.name_spec(),
    {
        match self {
            Preset::Static => "static".to_owned(),
            Preset::Breathing => "breathing".to_owned(),
            Preset::Wave => "wave".to_owned(),
            Preset::FadeOnKeypress => "fade_on_keypress".to_owned(),
            Preset::Marquee => "marquee".to_owned(),
            Preset::Ripple => "ripple".to_owned(),
            Preset::FlashOnKeypress => "flash_on_keypress".to_owned(),
            Preset::Neon => "neon".to_owned(),
            Preset::RainbowMarquee => "rainbow_marquee".to_owned(),
            Preset::Raindrop => "raindrop".to_owned(),
            Preset::CircleMarquee => "circle_marquee".to_owned(),
            Preset::Hedge => "hedge".to_owned(),
            Preset::Rotate => "rotate".to_owned(),
        }
    }
}

impl Color {
    pub open spec fn code_spec(self) -> u8 {
        match self {
            Color::Rand => 0x00,
            Color::Red => 0x01,
            Color::Green => 0x02,
            Color::Yellow => 0x03,
            Color::Blue => 0x04,
            Color::Orange => 0x05,
            Color::Purple => 0x06,
            Color::White => 0x07,
        }
    }

    /// The color's numeric wire code.
    pub fn code(self) -> (r: u8)
        ensures
            r == self.code_spec(),
    {
        match self {
            Color::Rand => 0x00,
            Color::Red => 0x01,
            Color::Green => 0x02,
            Color::Yellow => 0x03,
            Color::Blue => 0x04,
            Color::Orange => 0x05,
            Color::Purple => 0x06,
            Color::White => 0x07,
        }
    }

    /// The color's canonical textual name.
    pub open spec fn name_spec(self) -> Seq<char> {
        match self {
            Color::Rand => "rand"@,
            Color::Red => "red"@,
            Color::Green => "green"@,
            Color::Yellow => "yellow"@,
            Color::Blue => "blue"@,
            Color::Orange => "orange"@,
            Color::Purple => "purple"@,
            Color::White => "white"@,
        }
    }

    pub fn name(self) -> (r: String)
        ensures
            r@ == self.name_spec(),
    {
        match self {
            Color::Rand => "rand".to_owned(),
            Color::Red => "red".to_owned(),
            Color::Green => "green".to_owned(),
            Color::Yellow => "yellow".to_owned(),
            Color::Blue => "blue".to_owned(),
            Color::Orange => "orange".to_owned(),
            Color::Purple => "purple".to_owned(),
            Color::White => "white".to_owned(),
        }
    }
}

/// Exact string equality on views.
fn str_eq(a: &str, b: &str) -> (r: bool)
    ensures
        r == (a@ == b@),
{
    let sa: String = a.to_owned();
    let sb: String = b.to_owned();
    sa == sb
}

pub open spec fn parse_preset_spec(s: Seq<char>) -> Option<Preset> {
    if s == "static"@ {
        Some(Preset::Static)
    } else if s == "breathing"@ {
        Some(Preset::Breathing)
    } else if s == "wave"@ {
        Some(Preset::Wave)
    } else if s == "fade_on_keypress"@ {
        Some(Preset::FadeOnKeypress)
    } else if s == "marquee"@ {
        Some(Preset::Marquee)
    } else if s == "ripple"@ {
        Some(Preset::Ripple)
    } else if s == "flash_on_keypress"@ {
        Some(Preset::FlashOnKeypress)
    } else if s == "neon"@ {
        Some(Preset::Neon)
    } else if s == "rainbow_marquee"@ {
        Some(Preset::RainbowMarquee)
    } else if s == "raindrop"@ {
        Some(Preset::Raindrop)
    } else if s == "circle_marquee"@ {
        Some(Preset::CircleMarquee)
    } else if s == "hedge"@ {
        Some(Preset::Hedge)
    } else if s == "rotate"@ {
        Some(Preset::Rotate)
    } else {
        None
    }
}

/// Parses a preset from its snake_case name.
pub fn parse_preset(s: &str) -> (r: Option<Preset>)
    ensures
        r == parse_preset_spec(s@),
{
    if str_eq(s, "static") {
        Some(Preset::Static)
    } else if str_eq(s, "breathing") {
        Some(Preset::Breathing)
    } else if str_eq(s, "wave") {
        Some(Preset::Wave)
    } else if str_eq(s, "fade_on_keypress") {
        Some(Preset::FadeOnKeypress)
    } else if str_eq(s, "marquee") {
        Some(Preset::Marquee)
    } else if str_eq(s, "ripple") {
        Some(Preset::Ripple)
    } else if str_eq(s, "flash_on_keypress") {
        Some(Preset::FlashOnKeypress)
    } else if str_eq(s, "neon") {
        Some(Preset::Neon)
    } else if str_eq(s, "rainbow_marquee") {
        Some(Preset::RainbowMarquee)
    } else if str_eq(s, "raindrop") {
        Some(Preset::Raindrop)
    } else if str_eq(s, "circle_marquee") {
        Some(Preset::CircleMarquee)
    } else if str_eq(s, "hedge") {
        Some(Preset::Hedge)
    } else if str_eq(s, "rotate") {
        Some(Preset::Rotate)
    } else {
        None
    }
}

pub open spec fn parse_color_spec(s: Seq<char>) -> Option<Color> {
    if s == "rand"@ || s == "rainbow"@ || s == "cycle"@ {
        Some(Color::Rand)
    } else if s == "red"@ {
        Some(Color::Red)
    } else if s == "green"@ {
        Some(Color::Green)
    } else if s == "yellow"@ {
        Some(Color::Yellow)
    } else if s == "blue"@ {
        Some(Color::Blue)
    } else if s == "orange"@ {
        Some(Color::Orange)
    } else if s == "purple"@ {
        Some(Color::Purple)
    } else if s == "white"@ {
        Some(Color::White)
    } else {
        None
    }
}

/// Parses a color from its name; "rand", "rainbow" and "cycle" are three
/// spellings of the device-driven color cycle.
pub fn parse_color(s: &str) -> (r: Option<Color>)
    ensures
        r == parse_color_spec(s@),
{
    if str_eq(s, "rand") || str_eq(s, "rainbow") || str_eq(s, "cycle") {
        Some(Color::Rand)
    } else if str_eq(s, "red") {
        Some(Color::Red)
    } else if str_eq(s, "green") {
        Some(Color::Green)
    } else if str_eq(s, "yellow") {
        Some(Color::Yellow)
    } else if str_eq(s, "blue") {
        Some(Color::Blue)
    } else if str_eq(s, "orange") {
        Some(Color::Orange)
    } else if str_eq(s, "purple") {
        Some(Color::Purple)
    } else if str_eq(s, "white") {
        Some(Color::White)
    } else {
        None
    }
}

/// Naming law: every preset's name parses back to that preset, and every
/// color's canonical name parses back to that color.
pub proof fn lemma_name_parses_back(p: Preset, c: Color)
    ensures
        parse_preset_spec(p.name_spec()) == Some(p),
        parse_color_spec(c.name_spec()) == Some(c),
{
    reveal_strlit("static");
    reveal_strlit("breathing");
    reveal_strlit("wave");
    reveal_strlit("fade_on_keypress");
    reveal_strlit("marquee");
    reveal_strlit("ripple");
    reveal_strlit("flash_on_keypress");
    reveal_strlit("neon");
    reveal_strlit("rainbow_marquee");
    reveal_strlit("raindrop");
    reveal_strlit("circle_marquee");
    reveal_strlit("hedge");
    reveal_strlit("rotate");
    reveal_strlit("rand");
    reveal_strlit("rainbow");
    reveal_strlit("cycle");
    reveal_strlit("red");
    reveal_strlit("green");
    reveal_strlit("yellow");
    reveal_strlit("blue");
    reveal_strlit("orange");
    reveal_strlit("purple");
    reveal_strlit("white");
    // Lengths tell most names apart; a first (or second) character settles
    // the few same-length pairs.
    assert("static"@.len() == 6 && "breathing"@.len() == 9 && "wave"@.len() == 4);
    assert("fade_on_keypress"@.len() == 16 && "marquee"@.len() == 7 && "ripple"@.len() == 6);
    assert("flash_on_keypress"@.len() == 17 && "neon"@.len() == 4);
    assert("rainbow_marquee"@.len() == 15 && "raindrop"@.len() == 8);
    assert("circle_marquee"@.len() == 14 && "hedge"@.len() == 5 && "rotate"@.len() == 6);
    assert("rand"@.len() == 4 && "rainbow"@.len() == 7 && "cycle"@.len() == 5);
    assert("red"@.len() == 3 && "green"@.len() == 5 && "yellow"@.len() == 6);
    assert("blue"@.len() == 4 && "orange"@.len() == 6 && "purple"@.len() == 6);
    assert("white"@.len() == 5);
    assert("static"@[0] == 's' && "ripple"@[0] == 'r' && "rotate"@[0] == 'r');
    assert("ripple"@[1] == 'i' && "rotate"@[1] == 'o');
    assert("wave"@[0] == 'w' && "neon"@[0] == 'n');
    assert("cycle"@[0] == 'c' && "green"@[0] == 'g' && "white"@[0] == 'w');
    assert("yellow"@[0] == 'y' && "orange"@[0] == 'o' && "purple"@[0] == 'p');
    assert("rand"@[0] == 'r' && "blue"@[0] == 'b');
    match p {
        Preset::Static => assert(parse_preset_spec(p.name_spec()) == Some(p)),
        Preset::Breathing => assert(parse_preset_spec(p.name_spec()) == Some(p)),
        Preset::Wave => assert(parse_preset_spec(p.name_spec()) == Some(p)),
        Preset::FadeOnKeypress => assert(parse_preset_spec(p.name_spec()) == Some(p)),
        Preset::Marquee => assert(parse_preset_spec(p.name_spec()) == Some(p)),
        Preset::Ripple => assert(parse_preset_spec(p.name_spec()) == Some(p)),
        Preset::FlashOnKeypress => assert(parse_preset_spec(p.name_spec()) == Some(p)),
        Preset::Neon => assert(parse_preset_spec(p.name_spec()) == Some(p)),
        Preset::RainbowMarquee => assert(parse_preset_spec(p.name_spec()) == Some(p)),
        Preset::Raindrop => assert(parse_preset_spec(p.name_spec()) == Some(p)),
        Preset::CircleMarquee => assert(parse_preset_spec(p.name_spec()) == Some(p)),
        Preset::Hedge => assert(parse_preset_spec(p.name_spec()) == Some(p)),
        Preset::Rotate => assert(parse_preset_spec(p.name_spec()) == Some(p)),
    }
    match c {
        Color::Rand => assert(parse_color_spec(c.name_spec()) == Some(c)),
        Color::Red => assert(parse_color_spec(c.name_spec()) == Some(c)),
        Color::Green => assert(parse_color_spec(c.name_spec()) == Some(c)),
        Color::Yellow => assert(parse_color_spec(c.name_spec()) == Some(c)),
        Color::Blue => assert(parse_color_spec(c.name_spec()) == Some(c)),
        Color::Orange => assert(parse_color_spec(c.name_spec()) == Some(c)),
        Color::Purple => assert(parse_color_spec(c.name_spec()) == Some(c)),
        Color::White => assert(parse_color_spec(c.name_spec()) == Some(c)),
    }
}

} // verus!
