use vstd::prelude::*;

verus! {

#[derive(Clone, Copy, Debug, PartialEq, Eq, Structural)]
pub enum Color {
    Navy,
    Green,
    Teal,
    Maroon,
    Purple,
    Brown,
    Gray,
    Dark,
    Blue,
    Lime,
    Aqua,
    Red,
    Pink,
    Yellow,
    White,
}

/// The colors a sprite cycles through: one color, or one of three mixes.
#[derive(Clone, Copy, Debug, PartialEq, Eq, Structural)]
pub enum Palette {
    One(Color),
    Glitch,
    Gold,
    Sapphire,
}

impl Palette {
    /// The first color of the palette.
    pub open spec fn first_spec(self) -> Color {
        match self {
            Palette::One(c) => c,
            Palette::Glitch => Color::Yellow,
            Palette::Gold => Color::Red,
            Palette::Sapphire => Color::Blue,
        }
    }

    pub fn first(self) -> (r: Color)
        ensures
            r == self.first_spec(),
    {
        match self {
            Palette::One(c) => c,
            Palette::Glitch => Color::Yellow,
            Palette::Gold => Color::Red,
            Palette::Sapphire => Color::Blue,
        }
    }

    /// All colors of the palette.
    pub fn colors(self) -> (r: Vec<Color>)
        ensures
            r@.len() >= 1,
            r@[0] == self.first_spec(),
    {
        match self {
            Palette::One(c) => vec![c],
            Palette::Glitch => vec![Color::Yellow, Color::Pink],
            Palette::Gold => vec![Color::Red, Color::Yellow, Color::Brown, Color::White],
            Palette::Sapphire => vec![Color::Blue, Color::Navy, Color::Aqua, Color::Teal],
        }
    }
}

/// A character and its colors.
#[derive(Clone, Copy, Debug, PartialEq, Eq, Structural)]
pub struct Sprite {
    pub character: char,
    pub color: Palette,
}

/// What an unseen cell shows.
pub fn hidden() -> (r: Sprite)
    ensures
        r == (Sprite { character: ' ', color: Palette::One(Color::Dark) }),
{
    Sprite { character: ' ', color: Palette::One(Color::Dark) }
}

/// The color that the top three bits of an appearance byte stand for.
pub open spec fn byte_color(class: u8, bright: bool) -> Color {
    if class == 0 {
        Color::Dark
    } else if class == 1 {
        if bright { Color::Blue } else { Color::Navy }
    } else if class == 2 {
        if bright { Color::Lime } else { Color::Green }
    } else if class == 3 {
        if bright { Color::Aqua } else { Color::Teal }
    } else if class == 4 {
        if bright { Color::Red } else { Color::Maroon }
    } else if class == 5 {
        if bright { Color::Pink } else { Color::Purple }
    } else if class == 6 {
        if bright { Color::Yellow } else { Color::Brown }
    } else {
        if bright { Color::White } else { Color::Gray }
    }
}

/// The sprite that an appearance byte stands for: bits 7 to 5 are the color
/// class, bits 4 to 0 the character's offset from `!`.
pub open spec fn byte_sprite(appearance: u8, bright: bool) -> Sprite {
    Sprite {
        character: (33 + (appearance & 0x1f)) as char,
        color: Palette::One(byte_color(appearance >> 5u8, bright)),
    }
}

impl Sprite {
    pub fn of_byte(appearance: u8, bright: bool) -> (r: Sprite)
        ensures
            r == byte_sprite(appearance, bright),
    {
        let class = appearance >> 5u8;
        let color = if class == 0 {
            Color::Dark
        } else if class == 1 {
            if bright { Color::Blue } else { Color::Navy }
        } else if class == 2 {
            if bright { Color::Lime } else { Color::Green }
        } else if class == 3 {
            if bright { Color::Aqua } else { Color::Teal }
        } else if class == 4 {
            if bright { Color::Red } else { Color::Maroon }
        } else if class == 5 {
            if bright { Color::Pink } else { Color::Purple }
        } else if class == 6 {
            if bright { Color::Yellow } else { Color::Brown }
        } else {
            if bright { Color::White } else { Color::Gray }
        };
        let offset = appearance & 0x1f;
        assert(offset <= 31) by (bit_vector)
            requires
                offset == appearance & 0x1f,
        ;
        Sprite { character: (33 + offset) as char, color: Palette::One(color) }
    }

    /// The sprite shown dark when `shade`, unchanged otherwise.
    pub fn darken(self, shade: bool) -> (r: Sprite)
        ensures
            r == (if shade {
                Sprite { character: self.character, color: Palette::One(Color::Dark) }
            } else {
                self
            }),
    {
        if shade {
            Sprite { character: self.character, color: Palette::One(Color::Dark) }
        } else {
            self
        }
    }
}

} // verus!
