use vstd::prelude::*;
use crate::sprite::Color;

verus! {

/// The label of a memory address.
pub open spec fn address_label(address: u8) -> &'static str {
    match address {
        0x00 => "player appearance",
        0x01 => "player name[0]",
        0x02 => "player name[1]",
        0x03 => "player name[2]",
        0x04 => "player name[3]",
        0x05 => "player name[4]",
        0x06 => "player name[5]",
        0x07 => "player name[6]",
        0x08 => "player name[7]",
        0x09 => "player name[8]",
        0x0a => "player name[9]",
        0x0b => "player name[10]",
        0x0c => "player name[11]",
        0x0d => "player name[12]",
        0x0e => "player name[13]",
        0x0f => "player name[14]",
        0x10 => "monster 1 flags",
        0x11 => "monster 1 position",
        0x12 => "monster 1 hp",
        0x13 => "monster 2 flags",
        0x14 => "monster 2 position",
        0x15 => "monster 2 hp",
        0x16 => "monster 3 flags",
        0x17 => "monster 3 position",
        0x18 => "monster 3 hp",
        0x19 => "monster 4 flags",
        0x1a => "monster 4 position",
        0x1b => "monster 4 hp",
        0x1c => "monster 5 flags",
        0x1d => "monster 5 position",
        0x1e => "monster 5 hp",
        0x1f => "spell memory",
        0x20 => "identification[0]",
        0x21 => "identification[1]",
        0x22 => "identification[2]",
        0x23 => "identification[3]",
        0x24 => "poison",
        0x25 => "haste",
        0x26 => "charge",
        0x27 => "protect",
        0x28 => "inventory[0]",
        0x29 => "inventory[1]",
        0x2a => "inventory[2]",
        0x2b => "inventory[3]",
        0x2c => "inventory[4]",
        0x2d => "inventory[5]",
        0x2e => "inventory[6]",
        0x2f => "inventory[7]",
        0x30 => "door appearance",
        0x31 => "wall appearance",
        0x32 => "floor color",
        0x33 => "stairs delta",
        0x34 => "timer delta",
        0x35 => "damage offset",
        0x36 => "0x36",
        0x37 => "0x37",
        0x38 => "0x38",
        0x39 => "player hp",
        0x3a => "player tp",
        0x3b => "player xl/def",
        0x3c => "player position",
        0x3d => "player depth",
        0x3e => "player metal/acid",
        0x3f => "player fire/elec",
        _ => "invalid address",
    }
}
/// The label of a memory address, shown beside the memory view.
pub fn address_name(address: u8) -> (r: &'static str)
    ensures
        r == address_label(address),
{
    match address {
        0x00 => "player appearance",
        0x01 => "player name[0]",
        0x02 => "player name[1]",
        0x03 => "player name[2]",
        0x04 => "player name[3]",
        0x05 => "player name[4]",
        0x06 => "player name[5]",
        0x07 => "player name[6]",
        0x08 => "player name[7]",
        0x09 => "player name[8]",
        0x0a => "player name[9]",
        0x0b => "player name[10]",
        0x0c => "player name[11]",
        0x0d => "player name[12]",
        0x0e => "player name[13]",
        0x0f => "player name[14]",
        0x10 => "monster 1 flags",
        0x11 => "monster 1 position",
        0x12 => "monster 1 hp",
        0x13 => "monster 2 flags",
        0x14 => "monster 2 position",
        0x15 => "monster 2 hp",
        0x16 => "monster 3 flags",
        0x17 => "monster 3 position",
        0x18 => "monster 3 hp",
        0x19 => "monster 4 flags",
        0x1a => "monster 4 position",
        0x1b => "monster 4 hp",
        0x1c => "monster 5 flags",
        0x1d => "monster 5 position",
        0x1e => "monster 5 hp",
        0x1f => "spell memory",
        0x20 => "identification[0]",
        0x21 => "identification[1]",
        0x22 => "identification[2]",
        0x23 => "identification[3]",
        0x24 => "poison",
        0x25 => "haste",
        0x26 => "charge",
        0x27 => "protect",
        0x28 => "inventory[0]",
        0x29 => "inventory[1]",
        0x2a => "inventory[2]",
        0x2b => "inventory[3]",
        0x2c => "inventory[4]",
        0x2d => "inventory[5]",
        0x2e => "inventory[6]",
        0x2f => "inventory[7]",
        0x30 => "door appearance",
        0x31 => "wall appearance",
        0x32 => "floor color",
        0x33 => "stairs delta",
        0x34 => "timer delta",
        0x35 => "damage offset",
        0x36 => "0x36",
        0x37 => "0x37",
        0x38 => "0x38",
        0x39 => "player hp",
        0x3a => "player tp",
        0x3b => "player xl/def",
        0x3c => "player position",
        0x3d => "player depth",
        0x3e => "player metal/acid",
        0x3f => "player fire/elec",
        _ => "invalid address",
    }
}
/// The name of a color.
pub open spec fn color_label(color: Color) -> &'static str {
    match color {
        Color::Navy => "navy",
        Color::Green => "green",
        Color::Teal => "teal",
        Color::Maroon => "maroon",
        Color::Purple => "purple",
        Color::Brown => "brown",
        Color::Gray => "gray",
        Color::Dark => "dark gray",
        Color::Blue => "blue",
        Color::Lime => "lime",
        Color::Aqua => "cyan",
        Color::Red => "red",
        Color::Pink => "pink",
        Color::Yellow => "yellow",
        Color::White => "white",
    }
}
/// The name of a color.
pub fn color_name(color: Color) -> (r: &'static str)
    ensures
        r == color_label(color),
{
    match color {
        Color::Navy => "navy",
        Color::Green => "green",
        Color::Teal => "teal",
        Color::Maroon => "maroon",
        Color::Purple => "purple",
        Color::Brown => "brown",
        Color::Gray => "gray",
        Color::Dark => "dark gray",
        Color::Blue => "blue",
        Color::Lime => "lime",
        Color::Aqua => "cyan",
        Color::Red => "red",
        Color::Pink => "pink",
        Color::Yellow => "yellow",
        Color::White => "white",
    }
}
/// The name of a character of the player's appearance.
pub open spec fn punctuation_label(c: char) -> &'static str {
    match c {
        '!' => "exclamation mark",
        '"' => "quotation mark",
        '#' => "number sign",
        '$' => "dollar sign",
        '%' => "percent sign",
        '\'' => "apostrophe",
        '(' => "left parenthesis",
        ')' => "right parenthesis",
        '*' => "asterisk",
        '+' => "plus sign",
        ',' => "comma",
        '-' => "hyphen",
        '.' => "period",
        '/' => "slash",
        '0' => "zero",
        '1' => "one",
        '2' => "two",
        '3' => "three",
        '4' => "four",
        '5' => "five",
        '6' => "six",
        '7' => "seven",
        '8' => "eight",
        '9' => "nine",
        ':' => "colon",
        ';' => "semicolon",
        '<' => "less-than sign",
        '=' => "equals sign",
        '>' => "greater-than sign",
        '?' => "question mark",
        '@' => "at sign",
        _ => "strange character",
    }
}
/// The name of a character of the player's appearance.
pub fn punctuation_name(c: char) -> (r: &'static str)
    ensures
        r == punctuation_label(c),
{
    match c {
        '!' => "exclamation mark",
        '"' => "quotation mark",
        '#' => "number sign",
        '$' => "dollar sign",
        '%' => "percent sign",
        '\'' => "apostrophe",
        '(' => "left parenthesis",
        ')' => "right parenthesis",
        '*' => "asterisk",
        '+' => "plus sign",
        ',' => "comma",
        '-' => "hyphen",
        '.' => "period",
        '/' => "slash",
        '0' => "zero",
        '1' => "one",
        '2' => "two",
        '3' => "three",
        '4' => "four",
        '5' => "five",
        '6' => "six",
        '7' => "seven",
        '8' => "eight",
        '9' => "nine",
        ':' => "colon",
        ';' => "semicolon",
        '<' => "less-than sign",
        '=' => "equals sign",
        '>' => "greater-than sign",
        '?' => "question mark",
        '@' => "at sign",
        _ => "strange character",
    }
}
pub open spec fn is_vowel(c: char) -> bool {
    c == 'a' || c == 'e' || c == 'i' || c == 'o' || c == 'u' || c == 'A' || c == 'E' || c == 'I'
        || c == 'O' || c == 'U'
}

/// `s` with its indefinite article: "an" before a vowel (but "a one"), "a"
/// otherwise; nothing for the empty string.
pub open spec fn with_article(s: Seq<char>) -> Seq<char> {
    if s.len() == 0 {
        Seq::empty()
    } else if is_vowel(s[0]) && s != seq!['o', 'n', 'e'] {
        seq!['a', 'n', ' '] + s
    } else {
        seq!['a', ' '] + s
    }
}

pub fn a_or_an(s: &str) -> (r: String)
    ensures
        r@ == with_article(s@),
{
    let n = s.unicode_len();
    if n == 0 {
        return String::new();
    }
    let c = s.get_char(0);
    let vowel = c == 'a' || c == 'e' || c == 'i' || c == 'o' || c == 'u' || c == 'A' || c == 'E'
        || c == 'I' || c == 'O' || c == 'U';
    let one = n == 3 && s.get_char(0) == 'o' && s.get_char(1) == 'n' && s.get_char(2) == 'e';
    proof {
        if one {
            assert(s@ =~= seq!['o', 'n', 'e']);
        }
        if n == 3 && s@ == seq!['o', 'n', 'e'] {
            assert(s@[1] == 'n' && s@[2] == 'e');
        }
    }
    let mut r = if vowel && !one {
        String::from_str("an ")
    } else {
        String::from_str("a ")
    };
    proof {
        reveal_strlit("an ");
        reveal_strlit("a ");
    }
    r.append(s);
    proof {
        if vowel && !one {
            assert(r@ =~= seq!['a', 'n', ' '] + s@);
        } else {
            assert(r@ =~= seq!['a', ' '] + s@);
        }
    }
    r
}

/// `a`, `b` and `c` one after the other.
pub fn join3(a: &str, b: &str, c: &str) -> (r: String)
    ensures
        r@ == a@ + b@ + c@,
{
    let mut r = String::from_str(a);
    r.append(b);
    r.append(c);
    r
}

pub open spec fn digit_char(d: nat) -> char {
    ((48 + d) as u8) as char
}

/// The decimal digits of `n`.
pub open spec fn decimal(n: nat) -> Seq<char>
    decreases n,
{
    if n < 10 {
        seq![digit_char(n)]
    } else {
        decimal(n / 10) + seq![digit_char(n % 10)]
    }
}

fn digit_str(d: u32) -> (r: &'static str)
    requires
        d < 10,
    ensures
        r@ == seq![digit_char(d as nat)],
{
    proof {
        reveal_strlit("0");
        reveal_strlit("1");
        reveal_strlit("2");
        reveal_strlit("3");
        reveal_strlit("4");
        reveal_strlit("5");
        reveal_strlit("6");
        reveal_strlit("7");
        reveal_strlit("8");
        reveal_strlit("9");
    }
    let r = match d {
        0 => "0",
        1 => "1",
        2 => "2",
        3 => "3",
        4 => "4",
        5 => "5",
        6 => "6",
        7 => "7",
        8 => "8",
        _ => "9",
    };
    assert(r@ =~= seq![digit_char(d as nat)]);
    r
}

/// `n` written in decimal.
pub fn decimal_string(n: u32) -> (r: String)
    ensures
        r@ == decimal(n as nat),
{
    let mut q = n / 10;
    let mut s = String::from_str(digit_str(n % 10));
    while q > 0
        invariant
            q <= n,
            q > 0 ==> decimal(n as nat) == decimal(q as nat) + s@,
            q == 0 ==> decimal(n as nat) == s@,
        decreases q,
    {
        let t = String::from_str(digit_str(q % 10));
        proof {
            if q >= 10 {
                assert(decimal(q as nat) == decimal((q / 10) as nat) + seq![digit_char((q % 10) as nat)]);
            }
        }
        s = t.concat(s.as_str());
        q = q / 10;
        proof {
            if q > 0 {
                assert(decimal(n as nat) =~= decimal(q as nat) + s@);
            } else {
                assert(decimal(n as nat) =~= s@);
            }
        }
    }
    s
}

/// The suffix of an ordinal number: "st", "nd", "rd" or "th".
pub open spec fn ordinal_suffix(n: nat) -> Seq<char> {
    let i = if 10 <= n <= 19 {
        0
    } else {
        n % 10
    };
    if i == 1 {
        seq!['s', 't']
    } else if i == 2 {
        seq!['n', 'd']
    } else if i == 3 {
        seq!['r', 'd']
    } else {
        seq!['t', 'h']
    }
}

/// `n` as an ordinal: "1st", "12th", "22nd".
pub fn ordinal(n: u32) -> (r: String)
    ensures
        r@ == decimal(n as nat) + ordinal_suffix(n as nat),
{
    let i = if 10 <= n && n <= 19 {
        0
    } else {
        n % 10
    };
    let suffix = if i == 1 {
        "st"
    } else if i == 2 {
        "nd"
    } else if i == 3 {
        "rd"
    } else {
        "th"
    };
    proof {
        reveal_strlit("st");
        reveal_strlit("nd");
        reveal_strlit("rd");
        reveal_strlit("th");
    }
    let s = decimal_string(n);
    let r = s.concat(suffix);
    assert(r@ =~= decimal(n as nat) + ordinal_suffix(n as nat));
    r
}

} // verus!
