//! A terminal style: an ordered list of SGR codes and the escape sequence
//! that it renders to.
use crate::enums::ansi_background::{is_named_background_code, ANSIBackgroundColor};
use crate::enums::ansi_foreground::{is_named_foreground_code, ANSIForegroundColor};
use crate::enums::srg_effect::SGREffect;
use crate::escape::{
    csi, decimal, is_reset_codes, join_codes, lemma_render_injective, push_decimal, render_codes,
    reset_sequence, wrapped,
};
use crate::traits::Coded;
use vstd::prelude::*;
use vstd::std_specs::cmp::PartialEqSpec;

verus! {

/// The codes of the effects, in their order.
pub open spec fn effect_codes(effects: Seq<SGREffect>) -> Seq<u8> {
    effects.map_values(|e: SGREffect| e.spec_code())
}

/// The codes that a foreground color adds to a style: its code, followed by
/// `5` and the index for a palette color.
pub open spec fn foreground_codes(foreground: Option<ANSIForegroundColor>) -> Seq<u8> {
    match foreground {
        None => Seq::empty(),
        Some(ANSIForegroundColor::ANSI256(index)) => seq![38u8, 5u8, index],
        Some(color) => seq![color.spec_code()],
    }
}

/// The codes that a background color adds to a style: its code, followed by
/// `5` and the index for a palette color.
pub open spec fn background_codes(background: Option<ANSIBackgroundColor>) -> Seq<u8> {
    match background {
        None => Seq::empty(),
        Some(ANSIBackgroundColor::ANSI256(index)) => seq![48u8, 5u8, index],
        Some(color) => seq![color.spec_code()],
    }
}

/// The codes of a style built from attributes: the effects in their order,
/// then the foreground, then the background.
pub open spec fn build_codes(
    effects: Seq<SGREffect>,
    foreground: Option<ANSIForegroundColor>,
    background: Option<ANSIBackgroundColor>,
) -> Seq<u8> {
    effect_codes(effects) + foreground_codes(foreground) + background_codes(background)
}

/// The foreground color named by the last foreground code in `codes`.
pub open spec fn last_foreground(codes: Seq<u8>) -> Option<ANSIForegroundColor>
    decreases codes.len(),
{
    if codes.len() == 0 {
        None
    } else {
        match ANSIForegroundColor::spec_from(codes.last()) {
            Some(color) => Some(color),
            None => last_foreground(codes.drop_last()),
        }
    }
}

/// The background color named by the last background code in `codes`.
pub open spec fn last_background(codes: Seq<u8>) -> Option<ANSIBackgroundColor>
    decreases codes.len(),
{
    if codes.len() == 0 {
        None
    } else {
        match ANSIBackgroundColor::spec_from(codes.last()) {
            Some(color) => Some(color),
            None => last_background(codes.drop_last()),
        }
    }
}


/// A style for terminal text: the raw SGR codes it was built from, and the
/// escape sequence that switches the terminal to it.
///
/// A style never changes once made. Two styles are equal when their escape
/// sequences are.
#[derive(Debug)]
pub struct TerminalStyle {
    codes: Vec<u8>,
    command: String,
}

impl View for TerminalStyle {
    type V = Seq<u8>;

    closed spec fn view(&self) -> Seq<u8> {
        self.codes@
    }
}

impl TerminalStyle {
    #[verifier::type_invariant]
    spec fn command_is_rendered(&self) -> bool {
        self.command@ == render_codes(self.codes@)
    }

    /// The raw ANSI SGR codes the style was built from.
    pub fn codes(&self) -> (r: &Vec<u8>)
        ensures
            r@ == self@,
    {
        &self.codes
    }

    /// The escape sequence of the style.
    pub fn command(&self) -> (r: &str)
        ensures
            r@ == render_codes(self@),
    {
        proof {
            use_type_invariant(self);
        }
        self.command.as_str()
    }

    /// Every code of the style decoded as an effect, in order. Color codes
    /// are decoded too, mostly as `ByCode` effects.
    pub fn styles(&self) -> (r: Vec<SGREffect>)
        ensures
            r@ == self@.map_values(|c: u8| SGREffect::spec_from(c)),
    {
        let mut effects: Vec<SGREffect> = Vec::new();
        let mut i: usize = 0;
        while i < self.codes.len()
            invariant
                i <= self.codes@.len(),
                effects@ == self.codes@.take(i as int).map_values(|c: u8| SGREffect::spec_from(c)),
            decreases self.codes@.len() - i,
        {
            effects.push(SGREffect::from(&self.codes[i]));
            i += 1;
            assert(effects@ =~= self.codes@.take(i as int).map_values(
                |c: u8| SGREffect::spec_from(c),
            ));
        }
        assert(self.codes@.take(i as int) =~= self.codes@);
        effects
    }

    /// The foreground color of the last code that names one; `None` when no
    /// code does. Palette colors are not looked for.
    pub fn foreground(&self) -> (r: Option<ANSIForegroundColor>)
        ensures
            r == last_foreground(self@),
    {
        let mut possible_foreground: Option<ANSIForegroundColor> = None;
        let mut i: usize = 0;
        while i < self.codes.len()
            invariant
                i <= self.codes@.len(),
                possible_foreground == last_foreground(self.codes@.take(i as int)),
            decreases self.codes@.len() - i,
        {
            if let Some(foreground) = ANSIForegroundColor::from(self.codes[i]) {
                possible_foreground = Some(foreground);
            }
            assert(self.codes@.take(i + 1).drop_last() =~= self.codes@.take(i as int));
            i += 1;
        }
        assert(self.codes@.take(i as int) =~= self.codes@);
        possible_foreground
    }

    /// The background color of the last code that names one; `None` when no
    /// code does. Palette colors are not looked for.
    pub fn background(&self) -> (r: Option<ANSIBackgroundColor>)
        ensures
            r == last_background(self@),
    {
        let mut possible_background: Option<ANSIBackgroundColor> = None;
        let mut i: usize = 0;
        while i < self.codes.len()
            invariant
                i <= self.codes@.len(),
                possible_background == last_background(self.codes@.take(i as int)),
            decreases self.codes@.len() - i,
        {
            if let Some(background) = ANSIBackgroundColor::from(self.codes[i]) {
                possible_background = Some(background);
            }
            assert(self.codes@.take(i + 1).drop_last() =~= self.codes@.take(i as int));
            i += 1;
        }
        assert(self.codes@.take(i as int) =~= self.codes@);
        possible_background
    }

    /// Makes a style from raw escape codes, taken as they are.
    pub fn from(codes: Vec<u8>) -> (r: Self)
        ensures
            r@ == codes@,
    {
        let command = Self::make_command(&codes);
        TerminalStyle { codes, command }
    }

    /// The style with no color: the single code `0`.
    pub fn new_empty() -> (r: Self)
        ensures
            r@ == seq![0u8],
    {
        let r = Self::new(vec![SGREffect::Normal], None, None);
        assert(r@ =~= seq![0u8]);
        r
    }

    /// Makes a style from effects and colors: the codes of the effects in
    /// their order, then the foreground's, then the background's.
    pub fn new(
        effects: Vec<SGREffect>,
        foreground: Option<ANSIForegroundColor>,
        background: Option<ANSIBackgroundColor>,
    ) -> (r: Self)
        ensures
            r@ == build_codes(effects@, foreground, background),
    {
        let mut codes: Vec<u8> = Vec::new();
        let mut i: usize = 0;
        while i < effects.len()
            invariant
                i <= effects@.len(),
                codes@ == effect_codes(effects@.take(i as int)),
            decreases effects@.len() - i,
        {
            codes.push(effects[i].code());
            i += 1;
            assert(codes@ =~= effect_codes(effects@.take(i as int)));
        }
        assert(effects@.take(i as int) =~= effects@);
        let ghost effect_part = codes@;
        if let Some(foreground) = foreground {
            codes.push(foreground.code());
            match foreground {
                ANSIForegroundColor::ANSI256(ansi256) => {
                    codes.push(5);
                    codes.push(ansi256);
                },
                _ => (),
            }
        }
        assert(codes@ =~= effect_part + foreground_codes(foreground));
        let ghost color_part = codes@;
        if let Some(background) = background {
            codes.push(background.code());
            match background {
                ANSIBackgroundColor::ANSI256(ansi256) => {
                    codes.push(5);
                    codes.push(ansi256);
                },
                _ => (),
            }
        }
        assert(codes@ =~= color_part + background_codes(background));
        Self::from(codes)
    }

    /// Wraps `text` in the style: the style's escape sequence, the text, and
    /// then the reset sequence, so that what follows is printed plainly.
    pub fn wrap(&self, text: &str) -> (r: String)
        ensures
            r@ == wrapped(self@, text@),
            r@.subrange(0, render_codes(self@).len() as int) == render_codes(self@),
            r@.subrange(r@.len() - reset_sequence().len(), r@.len() as int) == reset_sequence(),
    {
        let empty = TerminalStyle::new_empty();
        proof {
            crate::escape::lemma_reset_forms_render_alike();
        }
        let mut wrapped = String::from_str(self.command());
        wrapped.append(text);
        wrapped.append(empty.command());
        assert(wrapped@.subrange(0, render_codes(self@).len() as int) =~= render_codes(self@));
        assert(wrapped@.subrange(wrapped@.len() - 4, wrapped@.len() as int) =~= reset_sequence());
        wrapped
    }

    /// The escape sequence of the style, as an owned string.
    pub fn to_string(&self) -> (r: String)
        ensures
            r@ == render_codes(self@),
    {
        String::from_str(self.command())
    }

    /// The escape sequence for `codes`: `ESC [`, the codes in decimal joined
    /// by `;`, and `m`; `ESC [ 0 m` for no codes.
    fn make_command(codes: &Vec<u8>) -> (r: String)
        ensures
            r@ == render_codes(codes@),
    {
        proof {
            reveal_strlit("\u{1b}[0m");
            reveal_strlit("\u{1b}[");
            reveal_strlit("m");
        }
        if codes.len() == 0 {
            let r = String::from_str("\u{1b}[0m");
            assert(r@ =~= reset_sequence());
            return r;
        }
        let mut command = String::from_str("\u{1b}[");
        assert(command@ =~= csi());
        push_decimal(&mut command, codes[0]);
        assert(codes@.take(1).drop_last() =~= Seq::<u8>::empty());
        let mut i: usize = 1;
        while i < codes.len()
            invariant
                1 <= i <= codes@.len(),
                command@ == csi() + join_codes(codes@.take(i as int)),
            decreases codes@.len() - i,
        {
            proof {
                reveal_strlit(";");
            }
            command.append(";");
            push_decimal(&mut command, codes[i]);
            let ghost next = codes@.take(i + 1);
            assert(next.drop_last() =~= codes@.take(i as int));
            assert(next.last() == codes@[i as int]);
            assert(join_codes(next) == join_codes(next.drop_last()) + seq![';'] + decimal(
                next.last() as nat,
            ));
            i += 1;
            assert(command@ =~= csi() + join_codes(codes@.take(i as int)));
        }
        command.append("m");
        assert(codes@.take(i as int) =~= codes@);
        command
    }
}

impl Clone for TerminalStyle {
    fn clone(&self) -> (r: Self)
        ensures
            r@ == self@,
    {
        Self::from(self.codes.clone())
    }
}

impl PartialEq for TerminalStyle {
    fn eq(&self, other: &Self) -> (r: bool) {
        proof {
            use_type_invariant(self);
            use_type_invariant(other);
        }
        self.command == other.command
    }
}

impl vstd::std_specs::cmp::PartialEqSpecImpl for TerminalStyle {
    open spec fn obeys_eq_spec() -> bool {
        true
    }

    open spec fn eq_spec(&self, other: &Self) -> bool {
        render_codes(self@) == render_codes(other@)
    }
}

impl Eq for TerminalStyle {

}

impl TerminalStyle {
    /// No color: the single code `0`.
    pub fn no_color() -> (r: Self)
        ensures
            r@ == seq![0u8],
    {
        Self::new_empty()
    }

    /// Back to the terminal's default rendition: the single code `0`.
    pub fn reset() -> (r: Self)
        ensures
            r@ == seq![0u8],
    {
        Self::new_empty()
    }

    /// Black text: codes `0;30`.
    pub fn black() -> (r: Self)
        ensures
            r@ == seq![0u8, 30u8],
    {
        Self::new(vec![SGREffect::Normal], Some(ANSIForegroundColor::Black), None)
    }

    /// Red text: codes `0;31`.
    pub fn red() -> (r: Self)
        ensures
            r@ == seq![0u8, 31u8],
    {
        Self::new(vec![SGREffect::Normal], Some(ANSIForegroundColor::Red), None)
    }

    /// Green text: codes `0;32`.
    pub fn green() -> (r: Self)
        ensures
            r@ == seq![0u8, 32u8],
    {
        Self::new(vec![SGREffect::Normal], Some(ANSIForegroundColor::Green), None)
    }

    /// Yellow text: codes `0;33`.
    pub fn yellow() -> (r: Self)
        ensures
            r@ == seq![0u8, 33u8],
    {
        Self::new(vec![SGREffect::Normal], Some(ANSIForegroundColor::Yellow), None)
    }

    /// Blue text: codes `0;34`.
    pub fn blue() -> (r: Self)
        ensures
            r@ == seq![0u8, 34u8],
    {
        Self::new(vec![SGREffect::Normal], Some(ANSIForegroundColor::Blue), None)
    }

    /// Magenta text: codes `0;35`.
    pub fn magenta() -> (r: Self)
        ensures
            r@ == seq![0u8, 35u8],
    {
        Self::new(vec![SGREffect::Normal], Some(ANSIForegroundColor::Magenta), None)
    }

    /// Cyan text: codes `0;36`.
    pub fn cyan() -> (r: Self)
        ensures
            r@ == seq![0u8, 36u8],
    {
        Self::new(vec![SGREffect::Normal], Some(ANSIForegroundColor::Cyan), None)
    }

    /// White text: codes `0;37`.
    pub fn white() -> (r: Self)
        ensures
            r@ == seq![0u8, 37u8],
    {
        Self::new(vec![SGREffect::Normal], Some(ANSIForegroundColor::White), None)
    }

    /// Bold, bright black text: codes `1;90`.
    pub fn bright_black() -> (r: Self)
        ensures
            r@ == seq![1u8, 90u8],
    {
        Self::new(vec![SGREffect::Bold], Some(ANSIForegroundColor::BrightBlack), None)
    }

    /// Bold, bright red text: codes `1;91`.
    pub fn bright_red() -> (r: Self)
        ensures
            r@ == seq![1u8, 91u8],
    {
        Self::new(vec![SGREffect::Bold], Some(ANSIForegroundColor::BrightRed), None)
    }

    /// Bold, bright green text: codes `1;92`.
    pub fn bright_green() -> (r: Self)
        ensures
            r@ == seq![1u8, 92u8],
    {
        Self::new(vec![SGREffect::Bold], Some(ANSIForegroundColor::BrightGreen), None)
    }

    /// Bold, bright yellow text: codes `1;93`.
    pub fn bright_yellow() -> (r: Self)
        ensures
            r@ == seq![1u8, 93u8],
    {
        Self::new(vec![SGREffect::Bold], Some(ANSIForegroundColor::BrightYellow), None)
    }

    /// Bold, bright blue text: codes `1;94`.
    pub fn bright_blue() -> (r: Self)
        ensures
            r@ == seq![1u8, 94u8],
    {
        Self::new(vec![SGREffect::Bold], Some(ANSIForegroundColor::BrightBlue), None)
    }

    /// Bold, bright magenta text: codes `1;95`.
    pub fn bright_magenta() -> (r: Self)
        ensures
            r@ == seq![1u8, 95u8],
    {
        Self::new(vec![SGREffect::Bold], Some(ANSIForegroundColor::BrightMagenta), None)
    }

    /// Bold, bright cyan text: codes `1;96`.
    pub fn bright_cyan() -> (r: Self)
        ensures
            r@ == seq![1u8, 96u8],
    {
        Self::new(vec![SGREffect::Bold], Some(ANSIForegroundColor::BrightCyan), None)
    }

    /// Bold, bright white text: codes `1;97`.
    pub fn bright_white() -> (r: Self)
        ensures
            r@ == seq![1u8, 97u8],
    {
        Self::new(vec![SGREffect::Bold], Some(ANSIForegroundColor::BrightWhite), None)
    }

    /// Italic black text: codes `3;30`.
    pub fn italic_black() -> (r: Self)
        ensures
            r@ == seq![3u8, 30u8],
    {
        Self::new(vec![SGREffect::Italic], Some(ANSIForegroundColor::Black), None)
    }

    /// Italic red text: codes `3;31`.
    pub fn italic_red() -> (r: Self)
        ensures
            r@ == seq![3u8, 31u8],
    {
        Self::new(vec![SGREffect::Italic], Some(ANSIForegroundColor::Red), None)
    }

    /// Italic green text: codes `3;32`.
    pub fn italic_green() -> (r: Self)
        ensures
            r@ == seq![3u8, 32u8],
    {
        Self::new(vec![SGREffect::Italic], Some(ANSIForegroundColor::Green), None)
    }

    /// Italic yellow text: codes `3;33`.
    pub fn italic_yellow() -> (r: Self)
        ensures
            r@ == seq![3u8, 33u8],
    {
        Self::new(vec![SGREffect::Italic], Some(ANSIForegroundColor::Yellow), None)
    }

    /// Italic blue text: codes `3;34`.
    pub fn italic_blue() -> (r: Self)
        ensures
            r@ == seq![3u8, 34u8],
    {
        Self::new(vec![SGREffect::Italic], Some(ANSIForegroundColor::Blue), None)
    }

    /// Italic magenta text: codes `3;35`.
    pub fn italic_magenta() -> (r: Self)
        ensures
            r@ == seq![3u8, 35u8],
    {
        Self::new(vec![SGREffect::Italic], Some(ANSIForegroundColor::Magenta), None)
    }

    /// Italic cyan text: codes `3;36`.
    pub fn italic_cyan() -> (r: Self)
        ensures
            r@ == seq![3u8, 36u8],
    {
        Self::new(vec![SGREffect::Italic], Some(ANSIForegroundColor::Cyan), None)
    }

    /// Italic white text: codes `3;37`.
    pub fn italic_white() -> (r: Self)
        ensures
            r@ == seq![3u8, 37u8],
    {
        Self::new(vec![SGREffect::Italic], Some(ANSIForegroundColor::White), None)
    }

    /// Bold, bright white text on red: codes `1;97;41`.
    pub fn red_background() -> (r: Self)
        ensures
            r@ == seq![1u8, 97u8, 41u8],
    {
        Self::new(
            vec![SGREffect::Bold],
            Some(ANSIForegroundColor::BrightWhite),
            Some(ANSIBackgroundColor::Red),
        )
    }

    /// Bold, bright white text on blue: codes `1;97;44`.
    pub fn blue_background() -> (r: Self)
        ensures
            r@ == seq![1u8, 97u8, 44u8],
    {
        Self::new(
            vec![SGREffect::Bold],
            Some(ANSIForegroundColor::BrightWhite),
            Some(ANSIBackgroundColor::Blue),
        )
    }

    /// Black text on green: codes `0;30;42`.
    pub fn green_background() -> (r: Self)
        ensures
            r@ == seq![0u8, 30u8, 42u8],
    {
        Self::new(
            vec![SGREffect::Normal],
            Some(ANSIForegroundColor::Black),
            Some(ANSIBackgroundColor::Green),
        )
    }

    /// Black text on bright yellow: codes `0;30;103`.
    pub fn yellow_background() -> (r: Self)
        ensures
            r@ == seq![0u8, 30u8, 103u8],
    {
        Self::new(
            vec![SGREffect::Normal],
            Some(ANSIForegroundColor::Black),
            Some(ANSIBackgroundColor::BrightYellow),
        )
    }

    /// Bright yellow text, not bold: codes `0;93`.
    pub fn normal_bright_yellow() -> (r: Self)
        ensures
            r@ == seq![0u8, 93u8],
    {
        Self::new(vec![SGREffect::Normal], Some(ANSIForegroundColor::BrightYellow), None)
    }

    /// Slowly blinking text: the single code `5`.
    pub fn blink() -> (r: Self)
        ensures
            r@ == seq![5u8],
    {
        Self::new(vec![SGREffect::SlowBlink], None, None)
    }
}

/// Two styles are equal exactly when their escape sequences are; and that
/// happens only for the same codes in the same order, or when both are one
/// of the two reset lists (no code, or the single code `0`).
pub proof fn lemma_style_equality_is_render_equality(a: TerminalStyle, b: TerminalStyle)
    ensures
        a.eq_spec(&b) <==> render_codes(a@) == render_codes(b@),
        a.eq_spec(&b) <==> (a@ == b@ || (is_reset_codes(a@) && is_reset_codes(b@))),
{
    lemma_render_injective(a@, b@);
}

/// Decoding the foreground goes by the last code that names a foreground
/// color: codes after it that name none leave it as it is, and where no
/// code names one there is none.
pub proof fn lemma_last_foreground_code_wins(codes: Seq<u8>)
    ensures
        (forall|j: int| 0 <= j < codes.len() ==> !is_named_foreground_code(#[trigger] codes[j]))
            ==> last_foreground(codes) is None,
        forall|i: int|
            0 <= i < codes.len() && is_named_foreground_code(#[trigger] codes[i]) && (forall|j: int|
                i < j < codes.len() ==> !is_named_foreground_code(#[trigger] codes[j]))
                ==> last_foreground(codes) == ANSIForegroundColor::spec_from(codes[i]),
    decreases codes.len(),
{
    if codes.len() > 0 {
        let rest = codes.drop_last();
        lemma_last_foreground_code_wins(rest);
        assert forall|j: int| 0 <= j < rest.len() implies rest[j] == codes[j] by {}
        if !is_named_foreground_code(codes.last()) {
            assert forall|i: int|
                0 <= i < codes.len() && is_named_foreground_code(#[trigger] codes[i]) && (forall|
                    j: int,
                | i < j < codes.len() ==> !is_named_foreground_code(#[trigger] codes[j]))
                    implies last_foreground(codes) == ANSIForegroundColor::spec_from(codes[i]) by {
                assert(i < rest.len());
                assert(rest[i] == codes[i]);
                assert forall|j: int| i < j < rest.len() implies !is_named_foreground_code(
                    #[trigger] rest[j],
                ) by {
                    assert(rest[j] == codes[j]);
                }
            }
        }
    }
}

/// Decoding the background goes by the last code that names a background
/// color: codes after it that name none leave it as it is, and where no
/// code names one there is none.
pub proof fn lemma_last_background_code_wins(codes: Seq<u8>)
    ensures
        (forall|j: int| 0 <= j < codes.len() ==> !is_named_background_code(#[trigger] codes[j]))
            ==> last_background(codes) is None,
        forall|i: int|
            0 <= i < codes.len() && is_named_background_code(#[trigger] codes[i]) && (forall|j: int|
                i < j < codes.len() ==> !is_named_background_code(#[trigger] codes[j]))
                ==> last_background(codes) == ANSIBackgroundColor::spec_from(codes[i]),
    decreases codes.len(),
{
    if codes.len() > 0 {
        let rest = codes.drop_last();
        lemma_last_background_code_wins(rest);
        assert forall|j: int| 0 <= j < rest.len() implies rest[j] == codes[j] by {}
        if !is_named_background_code(codes.last()) {
            assert forall|i: int|
                0 <= i < codes.len() && is_named_background_code(#[trigger] codes[i]) && (forall|
                    j: int,
                | i < j < codes.len() ==> !is_named_background_code(#[trigger] codes[j]))
                    implies last_background(codes) == ANSIBackgroundColor::spec_from(codes[i]) by {
                assert(i < rest.len());
                assert(rest[i] == codes[i]);
                assert forall|j: int| i < j < rest.len() implies !is_named_background_code(
                    #[trigger] rest[j],
                ) by {
                    assert(rest[j] == codes[j]);
                }
            }
        }
    }
}

} // verus!
