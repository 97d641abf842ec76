//! Foreground colors: 30–37 normal, 90–97 bright, 38 for a palette index.
use crate::escape::{decimal, push_decimal};
use crate::traits::Coded;
use vstd::prelude::*;

verus! {

/// ANSI escape codes for the text foreground color.
///
/// Two values are equal when their codes are: every palette-indexed color
/// has code 38, whatever its index.
#[derive(Debug)]
pub enum ANSIForegroundColor {
    Black,
    Red,
    Green,
    Yellow,
    Blue,
    Magenta,
    Cyan,
    White,
    BrightBlack,
    BrightRed,
    BrightGreen,
    BrightYellow,
    BrightBlue,
    BrightMagenta,
    BrightCyan,
    BrightWhite,
    ANSI256(u8),
}

/// Whether `code` names a foreground color: 30–37 or 90–97.
pub open spec fn is_named_foreground_code(code: u8) -> bool {
    (30 <= code <= 37) || (90 <= code <= 97)
}

impl Coded for ANSIForegroundColor {
    open spec fn spec_code(&self) -> u8 {
        match self {
            ANSIForegroundColor::Black => 30,
            ANSIForegroundColor::Red => 31,
            ANSIForegroundColor::Green => 32,
            ANSIForegroundColor::Yellow => 33,
            ANSIForegroundColor::Blue => 34,
            ANSIForegroundColor::Magenta => 35,
            ANSIForegroundColor::Cyan => 36,
            ANSIForegroundColor::White => 37,
            ANSIForegroundColor::BrightBlack => 90,
            ANSIForegroundColor::BrightRed => 91,
            ANSIForegroundColor::BrightGreen => 92,
            ANSIForegroundColor::BrightYellow => 93,
            ANSIForegroundColor::BrightBlue => 94,
            ANSIForegroundColor::BrightMagenta => 95,
            ANSIForegroundColor::BrightCyan => 96,
            ANSIForegroundColor::BrightWhite => 97,
            ANSIForegroundColor::ANSI256(_) => 38,
        }
    }

    /// The primary ANSI escape code.
    fn code(&self) -> (r: u8) {
        match self {
            ANSIForegroundColor::Black => 30,
            ANSIForegroundColor::Red => 31,
            ANSIForegroundColor::Green => 32,
            ANSIForegroundColor::Yellow => 33,
            ANSIForegroundColor::Blue => 34,
            ANSIForegroundColor::Magenta => 35,
            ANSIForegroundColor::Cyan => 36,
            ANSIForegroundColor::White => 37,
            ANSIForegroundColor::BrightBlack => 90,
            ANSIForegroundColor::BrightRed => 91,
            ANSIForegroundColor::BrightGreen => 92,
            ANSIForegroundColor::BrightYellow => 93,
            ANSIForegroundColor::BrightBlue => 94,
            ANSIForegroundColor::BrightMagenta => 95,
            ANSIForegroundColor::BrightCyan => 96,
            ANSIForegroundColor::BrightWhite => 97,
            ANSIForegroundColor::ANSI256(_) => 38,
        }
    }
}

impl ANSIForegroundColor {
    /// The named color with primary code `code`, if there is one.
    pub open spec fn spec_from(code: u8) -> Option<Self> {
        match code {
            30 => Some(ANSIForegroundColor::Black),
            31 => Some(ANSIForegroundColor::Red),
            32 => Some(ANSIForegroundColor::Green),
            33 => Some(ANSIForegroundColor::Yellow),
            34 => Some(ANSIForegroundColor::Blue),
            35 => Some(ANSIForegroundColor::Magenta),
            36 => Some(ANSIForegroundColor::Cyan),
            37 => Some(ANSIForegroundColor::White),
            90 => Some(ANSIForegroundColor::BrightBlack),
            91 => Some(ANSIForegroundColor::BrightRed),
            92 => Some(ANSIForegroundColor::BrightGreen),
            93 => Some(ANSIForegroundColor::BrightYellow),
            94 => Some(ANSIForegroundColor::BrightBlue),
            95 => Some(ANSIForegroundColor::BrightMagenta),
            96 => Some(ANSIForegroundColor::BrightCyan),
            97 => Some(ANSIForegroundColor::BrightWhite),
            _ => None,
        }
    }

    /// The human-readable name of the color.
    pub open spec fn spec_description(&self) -> Seq<char> {
        match self {
            ANSIForegroundColor::Black => "Black"@,
            ANSIForegroundColor::Red => "Red"@,
            ANSIForegroundColor::Green => "Green"@,
            ANSIForegroundColor::Yellow => "Yellow"@,
            ANSIForegroundColor::Blue => "Blue"@,
            ANSIForegroundColor::Magenta => "Magenta"@,
            ANSIForegroundColor::Cyan => "Cyan"@,
            ANSIForegroundColor::White => "White"@,
            ANSIForegroundColor::BrightBlack => "Bright Black"@,
            ANSIForegroundColor::BrightRed => "Bright Red"@,
            ANSIForegroundColor::BrightGreen => "Bright Green"@,
            ANSIForegroundColor::BrightYellow => "Bright Yellow"@,
            ANSIForegroundColor::BrightBlue => "Bright Blue"@,
            ANSIForegroundColor::BrightMagenta => "Bright Magenta"@,
            ANSIForegroundColor::BrightCyan => "Bright Cyan"@,
            ANSIForegroundColor::BrightWhite => "Bright White"@,
            ANSIForegroundColor::ANSI256(custom) => "ANSI 256-color ("@ + decimal(
                *custom as nat,
            ) + ")"@,
        }
    }

    /// The codes that follow the primary code: `(5, index)` for a palette
    /// color, none for a named one.
    pub open spec fn spec_additional_codes(&self) -> Option<(u8, u8)> {
        match self {
            ANSIForegroundColor::ANSI256(index) => Some((5u8, *index)),
            _ => None,
        }
    }

    /// Makes the named color whose primary ANSI code is `code`; `None` when
    /// `code` names no foreground color.
    pub fn from(code: u8) -> (r: Option<Self>)
        ensures
            r == Self::spec_from(code),
            r is None <==> !is_named_foreground_code(code),
            match r {
                Some(color) => color.spec_code() == code && !(color is ANSI256),
                None => true,
            },
    {
        match code {
            30 => Some(ANSIForegroundColor::Black),
            31 => Some(ANSIForegroundColor::Red),
            32 => Some(ANSIForegroundColor::Green),
            33 => Some(ANSIForegroundColor::Yellow),
            34 => Some(ANSIForegroundColor::Blue),
            35 => Some(ANSIForegroundColor::Magenta),
            36 => Some(ANSIForegroundColor::Cyan),
            37 => Some(ANSIForegroundColor::White),
            90 => Some(ANSIForegroundColor::BrightBlack),
            91 => Some(ANSIForegroundColor::BrightRed),
            92 => Some(ANSIForegroundColor::BrightGreen),
            93 => Some(ANSIForegroundColor::BrightYellow),
            94 => Some(ANSIForegroundColor::BrightBlue),
            95 => Some(ANSIForegroundColor::BrightMagenta),
            96 => Some(ANSIForegroundColor::BrightCyan),
            97 => Some(ANSIForegroundColor::BrightWhite),
            _ => None,
        }
    }

    /// Makes a color from a primary code that may announce a palette index:
    /// with code 38 the result is the palette color `ansi_256`; any other
    /// code ignores `ansi_256` and is looked up as by [`Self::from`].
    pub fn from_256(code: u8, ansi_256: u8) -> (r: Option<Self>)
        ensures
            r == (if code == 38 {
                Some(ANSIForegroundColor::ANSI256(ansi_256))
            } else {
                Self::spec_from(code)
            }),
    {
        match code {
            38 => Some(ANSIForegroundColor::ANSI256(ansi_256)),
            _ => Self::from(code),
        }
    }

    /// A human-readable name, such as `Bright Red` or `ANSI 256-color (183)`.
    pub fn description(&self) -> (r: String)
        ensures
            r@ == self.spec_description(),
    {
        match self {
            ANSIForegroundColor::Black => String::from_str("Black"),
            ANSIForegroundColor::Red => String::from_str("Red"),
            ANSIForegroundColor::Green => String::from_str("Green"),
            ANSIForegroundColor::Yellow => String::from_str("Yellow"),
            ANSIForegroundColor::Blue => String::from_str("Blue"),
            ANSIForegroundColor::Magenta => String::from_str("Magenta"),
            ANSIForegroundColor::Cyan => String::from_str("Cyan"),
            ANSIForegroundColor::White => String::from_str("White"),
            ANSIForegroundColor::BrightBlack => String::from_str("Bright Black"),
            ANSIForegroundColor::BrightRed => String::from_str("Bright Red"),
            ANSIForegroundColor::BrightGreen => String::from_str("Bright Green"),
            ANSIForegroundColor::BrightYellow => String::from_str("Bright Yellow"),
            ANSIForegroundColor::BrightBlue => String::from_str("Bright Blue"),
            ANSIForegroundColor::BrightMagenta => String::from_str("Bright Magenta"),
            ANSIForegroundColor::BrightCyan => String::from_str("Bright Cyan"),
            ANSIForegroundColor::BrightWhite => String::from_str("Bright White"),
            ANSIForegroundColor::ANSI256(custom) => {
                let mut s = String::from_str("ANSI 256-color (");
                push_decimal(&mut s, *custom);
                s.append(")");
                s
            },
        }
    }

    /// The codes that follow the primary one: `Some((5, index))` for a
    /// palette color, `None` for every named color.
    pub fn additional_codes(&self) -> (r: Option<(u8, u8)>)
        ensures
            r == self.spec_additional_codes(),
    {
        match self {
            ANSIForegroundColor::ANSI256(ansi_code) => Some((5, *ansi_code)),
            _ => None,
        }
    }
}

impl PartialEq for ANSIForegroundColor {
    fn eq(&self, other: &Self) -> (r: bool) {
        self.code() == other.code()
    }
}

impl vstd::std_specs::cmp::PartialEqSpecImpl for ANSIForegroundColor {
    open spec fn obeys_eq_spec() -> bool {
        true
    }

    open spec fn eq_spec(&self, other: &Self) -> bool {
        self.spec_code() == other.spec_code()
    }
}

impl Eq for ANSIForegroundColor {

}

} // verus!
