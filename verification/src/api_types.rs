use vstd::prelude::*;

verus! {

// Plain data shapes exchanged with the control surface, and the hex
// color strings it uses.

pub use crate::viz::Visualization;

/// Value of a hexadecimal digit character, or -1 for any other
/// character.
pub open spec fn spec_hex_val(c: char) -> int {
    let code = c as u32;
    if 48 <= code <= 57 {
        code - 48
    } else if 65 <= code <= 70 {
        code - 55
    } else if 97 <= code <= 102 {
        code - 87
    } else {
        -1
    }
}

/// Whether the character is a hexadecimal digit.
pub open spec fn is_hex_digit(c: char) -> bool {
    spec_hex_val(c) >= 0
}

/// The byte encoded by two hexadecimal digit characters.
pub open spec fn spec_hex_byte(hi: char, lo: char) -> int {
    spec_hex_val(hi) * 16 + spec_hex_val(lo)
}

/// Uppercase hexadecimal digit character of a value below sixteen.
pub open spec fn spec_hex_char(d: int) -> char {
    if d == 0 {
        '0'
    } else if d == 1 {
        '1'
    } else if d == 2 {
        '2'
    } else if d == 3 {
        '3'
    } else if d == 4 {
        '4'
    } else if d == 5 {
        '5'
    } else if d == 6 {
        '6'
    } else if d == 7 {
        '7'
    } else if d == 8 {
        '8'
    } else if d == 9 {
        '9'
    } else if d == 10 {
        'A'
    } else if d == 11 {
        'B'
    } else if d == 12 {
        'C'
    } else if d == 13 {
        'D'
    } else if d == 14 {
        'E'
    } else {
        'F'
    }
}

/// The two uppercase hexadecimal digits of a byte.
pub open spec fn spec_hex_pair(v: int) -> Seq<char> {
    seq![spec_hex_char(v / 16), spec_hex_char(v % 16)]
}

/// Value of a hexadecimal digit character.
fn hex_val(c: char) -> (v: u8)
    requires
        is_hex_digit(c),
    ensures
        v == spec_hex_val(c),
{
    let code = c as u32;
    if 48 <= code && code <= 57 {
        (code - 48) as u8
    } else if 65 <= code && code <= 70 {
        (code - 55) as u8
    } else {
        (code - 87) as u8
    }
}

/// Uppercase hexadecimal digit character of a value below sixteen.
fn hex_str(d: u8) -> (s: &'static str)
    requires
        d < 16,
    ensures
        s@ =~= seq![spec_hex_char(d as int)],
{
    proof {
        reveal_strlit("0");
        reveal_strlit("1");
        reveal_strlit("2");
        reveal_strlit("3");
        reveal_strlit("4");
        reveal_strlit("5");
        reveal_strlit("6");
        reveal_strlit("7");
        reveal_strlit("8");
        reveal_strlit("9");
        reveal_strlit("A");
        reveal_strlit("B");
        reveal_strlit("C");
        reveal_strlit("D");
        reveal_strlit("E");
        reveal_strlit("F");
    }
    if d == 0 {
        "0"
    } else if d == 1 {
        "1"
    } else if d == 2 {
        "2"
    } else if d == 3 {
        "3"
    } else if d == 4 {
        "4"
    } else if d == 5 {
        "5"
    } else if d == 6 {
        "6"
    } else if d == 7 {
        "7"
    } else if d == 8 {
        "8"
    } else if d == 9 {
        "9"
    } else if d == 10 {
        "A"
    } else if d == 11 {
        "B"
    } else if d == 12 {
        "C"
    } else if d == 13 {
        "D"
    } else if d == 14 {
        "E"
    } else {
        "F"
    }
}

/// An RGB color as the control surface sees it.
#[derive(Clone, Copy, Debug, PartialEq, Eq, Structural)]
pub struct Color {
    /// Red
    pub r: u8,
    /// Green
    pub g: u8,
    /// Blue
    pub b: u8,
}

impl Color {
    /// Reads a color from a `#RRGGBB` hex string.
    pub fn from_hex(color: &str) -> (parsed: Color)
        requires
            color@.len() == 7,
            is_hex_digit(color@[1]),
            is_hex_digit(color@[2]),
            is_hex_digit(color@[3]),
            is_hex_digit(color@[4]),
            is_hex_digit(color@[5]),
            is_hex_digit(color@[6]),
        ensures
            parsed.r == spec_hex_byte(color@[1], color@[2]),
            parsed.g == spec_hex_byte(color@[3], color@[4]),
            parsed.b == spec_hex_byte(color@[5], color@[6]),
    {
        let r = hex_val(color.get_char(1)) * 16 + hex_val(color.get_char(2));
        let g = hex_val(color.get_char(3)) * 16 + hex_val(color.get_char(4));
        let b = hex_val(color.get_char(5)) * 16 + hex_val(color.get_char(6));
        Color { r, g, b }
    }

    /// Renders the color as a `#RRGGBB` hex string with uppercase
    /// digits.
    pub fn to_hex(&self) -> (hex: String)
        ensures
            hex@ == seq!['#'] + spec_hex_pair(self.r as int) + spec_hex_pair(self.g as int)
                + spec_hex_pair(self.b as int),
    {
        proof {
            reveal_strlit("#");
        }
        let mut hex = String::from_str("#");
        hex.append(hex_str(self.r / 16));
        hex.append(hex_str(self.r % 16));
        hex.append(hex_str(self.g / 16));
        hex.append(hex_str(self.g % 16));
        hex.append(hex_str(self.b / 16));
        hex.append(hex_str(self.b % 16));
        proof {
            assert(hex@ =~= seq!['#'] + spec_hex_pair(self.r as int) + spec_hex_pair(self.g as int)
                + spec_hex_pair(self.b as int));
        }
        hex
    }
}

/// A theme as the control surface sees it.
#[derive(Clone, Debug)]
pub struct Theme {
    /// Unique theme identifier.
    pub name: String,
    /// Colors the theme consists of.
    pub colors: Vec<Color>,
}

/// The current and available visualizations.
#[derive(Clone, Debug)]
pub struct Visualizations {
    /// Unique identifier of the visualization currently in use.
    pub current: String,
    /// All available visualizations.
    pub visualizations: Vec<Visualization>,
}

/// The current and available themes.
#[derive(Clone, Debug)]
pub struct Themes {
    /// Unique identifier of the theme currently in use.
    pub current: String,
    /// All available themes.
    pub themes: Vec<Theme>,
}

/// Request to change the active visualization.
#[derive(Clone, Debug)]
pub struct ChangeVisualization {
    /// Identifier of the visualization to change to.
    pub visualization: String,
}

/// Request to change the active theme.
#[derive(Clone, Debug)]
pub struct ChangeTheme {
    /// Identifier of the theme to change to.
    pub theme: String,
}

/// Whether the visualization output is stopped.
#[derive(Clone, Copy, Debug, PartialEq, Eq, Structural)]
pub struct Status {
    /// Whether the visualization processing is stopped.
    pub is_stopped: bool,
}

} // verus!
