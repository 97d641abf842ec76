//! Background colors: 40–47 normal, 100–107 bright, 48 for a palette index.
use crate::escape::{decimal, push_decimal};
use crate::traits::Coded;
use vstd::prelude::*;

verus! {

/// ANSI escape codes for the text background color.
///
/// Two values are equal when their codes are: every palette-indexed color
/// has code 48, whatever its index.
#[derive(Debug)]
pub enum ANSIBackgroundColor {
    Black,
    Red,
    Green,
    Yellow,
    Blue,
    Magenta,
    Cyan,
    White,
    BrightBlack,
    BrightRed,
    BrightGreen,
    BrightYellow,
    BrightBlue,
    BrightMagenta,
    BrightCyan,
    BrightWhite,
    ANSI256(u8),
}

/// Whether `code` names a background color: 40–47 or 100–107.
pub open spec fn is_named_background_code(code: u8) -> bool {
    (40 <= code <= 47) || (100 <= code <= 107)
}

impl Coded for ANSIBackgroundColor {
    open spec fn spec_code(&self) -> u8 {
        match self {
            ANSIBackgroundColor::Black => 40,
            ANSIBackgroundColor::Red => 41,
            ANSIBackgroundColor::Green => 42,
            ANSIBackgroundColor::Yellow => 43,
            ANSIBackgroundColor::Blue => 44,
            ANSIBackgroundColor::Magenta => 45,
            ANSIBackgroundColor::Cyan => 46,
            ANSIBackgroundColor::White => 47,
            ANSIBackgroundColor::BrightBlack => 100,
            ANSIBackgroundColor::BrightRed => 101,
            ANSIBackgroundColor::BrightGreen => 102,
            ANSIBackgroundColor::BrightYellow => 103,
            ANSIBackgroundColor::BrightBlue => 104,
            ANSIBackgroundColor::BrightMagenta => 105,
            ANSIBackgroundColor::BrightCyan => 106,
            ANSIBackgroundColor::BrightWhite => 107,
            ANSIBackgroundColor::ANSI256(_) => 48,
        }
    }

    /// The primary ANSI escape code.
    fn code(&self) -> (r: u8) {
        match self {
            ANSIBackgroundColor::Black => 40,
            ANSIBackgroundColor::Red => 41,
            ANSIBackgroundColor::Green => 42,
            ANSIBackgroundColor::Yellow => 43,
            ANSIBackgroundColor::Blue => 44,
            ANSIBackgroundColor::Magenta => 45,
            ANSIBackgroundColor::Cyan => 46,
            ANSIBackgroundColor::White => 47,
            ANSIBackgroundColor::BrightBlack => 100,
            ANSIBackgroundColor::BrightRed => 101,
            ANSIBackgroundColor::BrightGreen => 102,
            ANSIBackgroundColor::BrightYellow => 103,
            ANSIBackgroundColor::BrightBlue => 104,
            ANSIBackgroundColor::BrightMagenta => 105,
            ANSIBackgroundColor::BrightCyan => 106,
            ANSIBackgroundColor::BrightWhite => 107,
            ANSIBackgroundColor::ANSI256(_) => 48,
        }
    }
}

impl ANSIBackgroundColor {
    /// The named color with primary code `code`, if there is one.
    pub open spec fn spec_from(code: u8) -> Option<Self> {
        match code {
            40 => Some(ANSIBackgroundColor::Black),
            41 => Some(ANSIBackgroundColor::Red),
            42 => Some(ANSIBackgroundColor::Green),
            43 => Some(ANSIBackgroundColor::Yellow),
            44 => Some(ANSIBackgroundColor::Blue),
            45 => Some(ANSIBackgroundColor::Magenta),
            46 => Some(ANSIBackgroundColor::Cyan),
            47 => Some(ANSIBackgroundColor::White),
            100 => Some(ANSIBackgroundColor::BrightBlack),
            101 => Some(ANSIBackgroundColor::BrightRed),
            102 => Some(ANSIBackgroundColor::BrightGreen),
            103 => Some(ANSIBackgroundColor::BrightYellow),
            104 => Some(ANSIBackgroundColor::BrightBlue),
            105 => Some(ANSIBackgroundColor::BrightMagenta),
            106 => Some(ANSIBackgroundColor::BrightCyan),
            107 => Some(ANSIBackgroundColor::BrightWhite),
            _ => None,
        }
    }

    /// The human-readable name of the color.
    pub open spec fn spec_description(&self) -> Seq<char> {
        match self {
            ANSIBackgroundColor::Black => "Black"@,
            ANSIBackgroundColor::Red => "Red"@,
            ANSIBackgroundColor::Green => "Green"@,
            ANSIBackgroundColor::Yellow => "Yellow"@,
            ANSIBackgroundColor::Blue => "Blue"@,
            ANSIBackgroundColor::Magenta => "Magenta"@,
            ANSIBackgroundColor::Cyan => "Cyan"@,
            ANSIBackgroundColor::White => "White"@,
            ANSIBackgroundColor::BrightBlack => "Bright Black"@,
            ANSIBackgroundColor::BrightRed => "Bright Red"@,
            ANSIBackgroundColor::BrightGreen => "Bright Green"@,
            ANSIBackgroundColor::BrightYellow => "Bright Yellow"@,
            ANSIBackgroundColor::BrightBlue => "Bright Blue"@,
            ANSIBackgroundColor::BrightMagenta => "Bright Magenta"@,
            ANSIBackgroundColor::BrightCyan => "Bright Cyan"@,
            ANSIBackgroundColor::BrightWhite => "Bright White"@,
            ANSIBackgroundColor::ANSI256(custom) => "ANSI 256-color ("@ + decimal(
                *custom as nat,
            ) + ")"@,
        }
    }

    /// The codes that follow the primary code: `(5, index)` for a palette
    /// color, none for a named one.
    pub open spec fn spec_additional_codes(&self) -> Option<(u8, u8)> {
        match self {
            ANSIBackgroundColor::ANSI256(index) => Some((5u8, *index)),
            _ => None,
        }
    }

    /// Makes the named color whose primary ANSI code is `code`; `None` when
    /// `code` names no background color.
    pub fn from(code: u8) -> (r: Option<Self>)
        ensures
            r == Self::spec_from(code),
            r is None <==> !is_named_background_code(code),
            match r {
                Some(color) => color.spec_code() == code && !(color is ANSI256),
                None => true,
            },
    {
        match code {
            40 => Some(ANSIBackgroundColor::Black),
            41 => Some(ANSIBackgroundColor::Red),
            42 => Some(ANSIBackgroundColor::Green),
            43 => Some(ANSIBackgroundColor::Yellow),
            44 => Some(ANSIBackgroundColor::Blue),
            45 => Some(ANSIBackgroundColor::Magenta),
            46 => Some(ANSIBackgroundColor::Cyan),
            47 => Some(ANSIBackgroundColor::White),
            100 => Some(ANSIBackgroundColor::BrightBlack),
            101 => Some(ANSIBackgroundColor::BrightRed),
            102 => Some(ANSIBackgroundColor::BrightGreen),
            103 => Some(ANSIBackgroundColor::BrightYellow),
            104 => Some(ANSIBackgroundColor::BrightBlue),
            105 => Some(ANSIBackgroundColor::BrightMagenta),
            106 => Some(ANSIBackgroundColor::BrightCyan),
            107 => Some(ANSIBackgroundColor::BrightWhite),
            _ => None,
        }
    }

    /// Makes a color from a primary code that may announce a palette index:
    /// with code 48 the result is the palette color `ansi_256`; any other
    /// code ignores `ansi_256` and is looked up as by [`Self::from`].
    pub fn from_256(code: u8, ansi_256: u8) -> (r: Option<Self>)
        ensures
            r == (if code == 48 {
                Some(ANSIBackgroundColor::ANSI256(ansi_256))
            } else {
                Self::spec_from(code)
            }),
    {
        match code {
            48 => Some(ANSIBackgroundColor::ANSI256(ansi_256)),
            _ => Self::from(code),
        }
    }

    /// A human-readable name, such as `Bright Red` or `ANSI 256-color (183)`.
    pub fn description(&self) -> (r: String)
        ensures
            r@ == self.spec_description(),
    {
        match self {
            ANSIBackgroundColor::Black => String::from_str("Black"),
            ANSIBackgroundColor::Red => String::from_str("Red"),
            ANSIBackgroundColor::Green => String::from_str("Green"),
            ANSIBackgroundColor::Yellow => String::from_str("Yellow"),
            ANSIBackgroundColor::Blue => String::from_str("Blue"),
            ANSIBackgroundColor::Magenta => String::from_str("Magenta"),
            ANSIBackgroundColor::Cyan => String::from_str("Cyan"),
            ANSIBackgroundColor::White => String::from_str("White"),
            ANSIBackgroundColor::BrightBlack => String::from_str("Bright Black"),
            ANSIBackgroundColor::BrightRed => String::from_str("Bright Red"),
            ANSIBackgroundColor::BrightGreen => String::from_str("Bright Green"),
            ANSIBackgroundColor::BrightYellow => String::from_str("Bright Yellow"),
            ANSIBackgroundColor::BrightBlue => String::from_str("Bright Blue"),
            ANSIBackgroundColor::BrightMagenta => String::from_str("Bright Magenta"),
            ANSIBackgroundColor::BrightCyan => String::from_str("Bright Cyan"),
            ANSIBackgroundColor::BrightWhite => String::from_str("Bright White"),
            ANSIBackgroundColor::ANSI256(custom) => {
                let mut s = String::from_str("ANSI 256-color (");
                push_decimal(&mut s, *custom);
                s.append(")");
                s
            },
        }
    }

    /// The codes that follow the primary one: `Some((5, index))` for a
    /// palette color, `None` for every named color.
    pub fn additional_codes(&self) -> (r: Option<(u8, u8)>)
        ensures
            r == self.spec_additional_codes(),
    {
        match self {
            ANSIBackgroundColor::ANSI256(ansi_code) => Some((5, *ansi_code)),
            _ => None,
        }
    }
}

impl PartialEq for ANSIBackgroundColor {
    fn eq(&self, other: &Self) -> (r: bool) {
        self.code() == other.code()
    }
}

impl vstd::std_specs::cmp::PartialEqSpecImpl for ANSIBackgroundColor {
    open spec fn obeys_eq_spec() -> bool {
        true
    }

    open spec fn eq_spec(&self, other: &Self) -> bool {
        self.spec_code() == other.spec_code()
    }
}

impl Eq for ANSIBackgroundColor {

}

} // verus!
