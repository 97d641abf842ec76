//! Text paired with a terminal style, and the styled output kept ready.
use crate::escape::wrapped;
use crate::terminal_style::TerminalStyle;
use vstd::prelude::*;

verus! {

/// Text that prints in a given style on a terminal.
///
/// The output, the text wrapped in the style, is computed whenever the text
/// or the style changes, so it always matches both. Two values are equal
/// when their outputs are.
#[derive(Debug)]
pub struct StyledTerminalText {
    text: String,
    style: TerminalStyle,
    output: String,
}

impl StyledTerminalText {
    #[verifier::type_invariant]
    spec fn output_is_current(&self) -> bool {
        self.output@ == wrapped(self.style@, self.text@)
    }

    /// The text, unstyled.
    pub closed spec fn text_view(&self) -> Seq<char> {
        self.text@
    }

    /// The codes of the style.
    pub closed spec fn style_view(&self) -> Seq<u8> {
        self.style@
    }

    /// The styled output that is kept.
    pub closed spec fn output_view(&self) -> Seq<char> {
        self.output@
    }

    /// The original text, unstyled.
    pub fn text(&self) -> (r: &str)
        ensures
            r@ == self.text_view(),
    {
        self.text.as_str()
    }

    /// The style.
    pub fn style(&self) -> (r: &TerminalStyle)
        ensures
            r@ == self.style_view(),
    {
        &self.style
    }

    /// The text wrapped in the style, ready for the terminal.
    pub fn output(&self) -> (r: &str)
        ensures
            r@ == self.output_view(),
            r@ == wrapped(self.style_view(), self.text_view()),
    {
        proof {
            use_type_invariant(self);
        }
        self.output.as_str()
    }

    /// The output as an owned string.
    pub fn to_string(&self) -> (r: String)
        ensures
            r@ == wrapped(self.style_view(), self.text_view()),
    {
        String::from_str(self.output())
    }

    /// Replaces the text and returns the text it had; the output follows.
    pub fn change_text_to(&mut self, new_text: &str) -> (r: String)
        ensures
            r@ == old(self).text_view(),
            final(self).text_view() == new_text@,
            final(self).style_view() == old(self).style_view(),
            final(self).output_view() == wrapped(old(self).style_view(), new_text@),
    {
        let mut replaced = Self::new(new_text, self.style.clone());
        std::mem::swap(self, &mut replaced);
        replaced.text
    }

    /// Replaces the style and returns the style it had; the output follows.
    pub fn change_style_to(&mut self, new_style: TerminalStyle) -> (r: TerminalStyle)
        ensures
            r@ == old(self).style_view(),
            final(self).style_view() == new_style@,
            final(self).text_view() == old(self).text_view(),
            final(self).output_view() == wrapped(new_style@, old(self).text_view()),
    {
        let mut replaced = Self::new(self.text.as_str(), new_style);
        std::mem::swap(self, &mut replaced);
        replaced.style
    }

    /// Makes styled text from `text` and `style`, with its output.
    pub fn new(text: &str, style: TerminalStyle) -> (r: Self)
        ensures
            r.text_view() == text@,
            r.style_view() == style@,
            r.output_view() == wrapped(style@, text@),
    {
        let output = style.wrap(text);
        StyledTerminalText { text: String::from_str(text), style, output }
    }
}

impl PartialEq for StyledTerminalText {
    fn eq(&self, other: &Self) -> (r: bool) {
        self.output == other.output
    }
}

impl vstd::std_specs::cmp::PartialEqSpecImpl for StyledTerminalText {
    open spec fn obeys_eq_spec() -> bool {
        true
    }

    open spec fn eq_spec(&self, other: &Self) -> bool {
        self.output_view() == other.output_view()
    }
}

impl Eq for StyledTerminalText {

}

} // verus!
