//! Display effects (SGR, Select Graphic Rendition): the named ones, and any
//! other code carried as it is.
use crate::escape::{decimal, push_decimal};
use crate::traits::Coded;
use vstd::prelude::*;

verus! {

/// SGR (Select Graphic Rendition) display attributes.
///
/// `ByCode` carries a code that no named effect has. Two values are equal
/// when their codes are, so `ByCode(1)` equals `Bold`.
#[derive(Debug)]
pub enum SGREffect {
    Normal,
    Bold,
    Faint,
    Italic,
    Underline,
    SlowBlink,
    RapidBlink,
    CrossedOut,
    ByCode(u8),
}

/// Whether `code` names an effect: 0 to 6, or 9.
pub open spec fn is_named_effect_code(code: u8) -> bool {
    code <= 6 || code == 9
}

impl Coded for SGREffect {
    open spec fn spec_code(&self) -> u8 {
        match self {
            SGREffect::Normal => 0,
            SGREffect::Bold => 1,
            SGREffect::Faint => 2,
            SGREffect::Italic => 3,
            SGREffect::Underline => 4,
            SGREffect::SlowBlink => 5,
            SGREffect::RapidBlink => 6,
            SGREffect::CrossedOut => 9,
            SGREffect::ByCode(code) => *code,
        }
    }

    /// The ANSI escape code.
    fn code(&self) -> (r: u8) {
        match self {
            SGREffect::Normal => 0,
            SGREffect::Bold => 1,
            SGREffect::Faint => 2,
            SGREffect::Italic => 3,
            SGREffect::Underline => 4,
            SGREffect::SlowBlink => 5,
            SGREffect::RapidBlink => 6,
            SGREffect::CrossedOut => 9,
            SGREffect::ByCode(code) => *code,
        }
    }
}

impl SGREffect {
    /// The effect that `code` decodes to: the named one where there is one,
    /// else `ByCode(code)`.
    pub open spec fn spec_from(code: u8) -> Self {
        match code {
            0 => SGREffect::Normal,
            1 => SGREffect::Bold,
            2 => SGREffect::Faint,
            3 => SGREffect::Italic,
            4 => SGREffect::Underline,
            5 => SGREffect::SlowBlink,
            6 => SGREffect::RapidBlink,
            9 => SGREffect::CrossedOut,
            _ => SGREffect::ByCode(code),
        }
    }

    /// The human-readable name of the effect.
    pub open spec fn spec_description(&self) -> Seq<char> {
        match self {
            SGREffect::Normal => "normal/reset"@,
            SGREffect::Bold => "bold"@,
            SGREffect::Faint => "faint"@,
            SGREffect::Italic => "italic"@,
            SGREffect::Underline => "underline"@,
            SGREffect::SlowBlink => "slow blink"@,
            SGREffect::RapidBlink => "rapid blink"@,
            SGREffect::CrossedOut => "crossed-out"@,
            SGREffect::ByCode(code) => "SGR Code "@ + decimal(*code as nat),
        }
    }

    /// Makes the effect for an ANSI escape code. Every code decodes, and to
    /// an effect with that very code; a code that no effect is named for
    /// becomes `ByCode`.
    pub fn from(code: &u8) -> (r: Self)
        ensures
            r == Self::spec_from(*code),
            r.spec_code() == *code,
            r is ByCode <==> !is_named_effect_code(*code),
    {
        match code {
            0 => Self::Normal,
            1 => Self::Bold,
            2 => Self::Faint,
            3 => Self::Italic,
            4 => Self::Underline,
            5 => Self::SlowBlink,
            6 => Self::RapidBlink,
            9 => Self::CrossedOut,
            _ => Self::ByCode(*code),
        }
    }

    /// A human-readable name, such as `slow blink` or `SGR Code 93`.
    pub fn description(&self) -> (r: String)
        ensures
            r@ == self.spec_description(),
    {
        match self {
            SGREffect::Normal => String::from_str("normal/reset"),
            SGREffect::Bold => String::from_str("bold"),
            SGREffect::Faint => String::from_str("faint"),
            SGREffect::Italic => String::from_str("italic"),
            SGREffect::Underline => String::from_str("underline"),
            SGREffect::SlowBlink => String::from_str("slow blink"),
            SGREffect::RapidBlink => String::from_str("rapid blink"),
            SGREffect::CrossedOut => String::from_str("crossed-out"),
            SGREffect::ByCode(code) => {
                let mut s = String::from_str("SGR Code ");
                push_decimal(&mut s, *code);
                s
            },
        }
    }
}

impl PartialEq for SGREffect {
    fn eq(&self, other: &Self) -> (r: bool) {
        self.code() == other.code()
    }
}

impl vstd::std_specs::cmp::PartialEqSpecImpl for SGREffect {
    open spec fn obeys_eq_spec() -> bool {
        true
    }

    open spec fn eq_spec(&self, other: &Self) -> bool {
        self.spec_code() == other.spec_code()
    }
}

impl Eq for SGREffect {

}

} // verus!
