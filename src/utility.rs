//! One-call helpers that highlight text in a preset style.
use crate::escape::wrapped;
use crate::styled_terminal_text::StyledTerminalText;
use crate::terminal_style::TerminalStyle;
use vstd::prelude::*;

verus! {

/// Highlights `text` in `style`, for printing on a terminal.
pub fn highlight(text: &str, style: TerminalStyle) -> (r: StyledTerminalText)
    ensures
        r.text_view() == text@,
        r.style_view() == style@,
        r.output_view() == wrapped(style@, text@),
{
    StyledTerminalText::new(text, style)
}

/// Highlights `text` in black (codes `0;30`).
pub fn highlight_black(text: &str) -> (r: StyledTerminalText)
    ensures
        r.text_view() == text@,
        r.style_view() == seq![0u8, 30u8],
        r.output_view() == wrapped(seq![0u8, 30u8], text@),
{
    StyledTerminalText::new(text, TerminalStyle::black())
}

/// Highlights `text` in red (codes `0;31`).
pub fn highlight_red(text: &str) -> (r: StyledTerminalText)
    ensures
        r.text_view() == text@,
        r.style_view() == seq![0u8, 31u8],
        r.output_view() == wrapped(seq![0u8, 31u8], text@),
{
    StyledTerminalText::new(text, TerminalStyle::red())
}

/// Highlights `text` in green (codes `0;32`).
pub fn highlight_green(text: &str) -> (r: StyledTerminalText)
    ensures
        r.text_view() == text@,
        r.style_view() == seq![0u8, 32u8],
        r.output_view() == wrapped(seq![0u8, 32u8], text@),
{
    StyledTerminalText::new(text, TerminalStyle::green())
}

/// Highlights `text` in yellow (codes `0;33`).
pub fn highlight_yellow(text: &str) -> (r: StyledTerminalText)
    ensures
        r.text_view() == text@,
        r.style_view() == seq![0u8, 33u8],
        r.output_view() == wrapped(seq![0u8, 33u8], text@),
{
    StyledTerminalText::new(text, TerminalStyle::yellow())
}

/// Highlights `text` in blue (codes `0;34`).
pub fn highlight_blue(text: &str) -> (r: StyledTerminalText)
    ensures
        r.text_view() == text@,
        r.style_view() == seq![0u8, 34u8],
        r.output_view() == wrapped(seq![0u8, 34u8], text@),
{
    StyledTerminalText::new(text, TerminalStyle::blue())
}

/// Highlights `text` in magenta (codes `0;35`).
pub fn highlight_magenta(text: &str) -> (r: StyledTerminalText)
    ensures
        r.text_view() == text@,
        r.style_view() == seq![0u8, 35u8],
        r.output_view() == wrapped(seq![0u8, 35u8], text@),
{
    StyledTerminalText::new(text, TerminalStyle::magenta())
}

/// Highlights `text` in cyan (codes `0;36`).
pub fn highlight_cyan(text: &str) -> (r: StyledTerminalText)
    ensures
        r.text_view() == text@,
        r.style_view() == seq![0u8, 36u8],
        r.output_view() == wrapped(seq![0u8, 36u8], text@),
{
    StyledTerminalText::new(text, TerminalStyle::cyan())
}

/// Highlights `text` in white (codes `0;37`).
pub fn highlight_white(text: &str) -> (r: StyledTerminalText)
    ensures
        r.text_view() == text@,
        r.style_view() == seq![0u8, 37u8],
        r.output_view() == wrapped(seq![0u8, 37u8], text@),
{
    StyledTerminalText::new(text, TerminalStyle::white())
}

/// Highlights `text` in bold, bright black (codes `1;90`).
pub fn highlight_bright_black(text: &str) -> (r: StyledTerminalText)
    ensures
        r.text_view() == text@,
        r.style_view() == seq![1u8, 90u8],
        r.output_view() == wrapped(seq![1u8, 90u8], text@),
{
    StyledTerminalText::new(text, TerminalStyle::bright_black())
}

/// Highlights `text` in bold, bright red (codes `1;91`).
pub fn highlight_bright_red(text: &str) -> (r: StyledTerminalText)
    ensures
        r.text_view() == text@,
        r.style_view() == seq![1u8, 91u8],
        r.output_view() == wrapped(seq![1u8, 91u8], text@),
{
    StyledTerminalText::new(text, TerminalStyle::bright_red())
}

/// Highlights `text` in bold, bright green (codes `1;92`).
pub fn highlight_bright_green(text: &str) -> (r: StyledTerminalText)
    ensures
        r.text_view() == text@,
        r.style_view() == seq![1u8, 92u8],
        r.output_view() == wrapped(seq![1u8, 92u8], text@),
{
    StyledTerminalText::new(text, TerminalStyle::bright_green())
}

/// Highlights `text` in bold, bright yellow (codes `1;93`).
pub fn highlight_bright_yellow(text: &str) -> (r: StyledTerminalText)
    ensures
        r.text_view() == text@,
        r.style_view() == seq![1u8, 93u8],
        r.output_view() == wrapped(seq![1u8, 93u8], text@),
{
    StyledTerminalText::new(text, TerminalStyle::bright_yellow())
}

/// Highlights `text` in bold, bright blue (codes `1;94`).
pub fn highlight_bright_blue(text: &str) -> (r: StyledTerminalText)
    ensures
        r.text_view() == text@,
        r.style_view() == seq![1u8, 94u8],
        r.output_view() == wrapped(seq![1u8, 94u8], text@),
{
    StyledTerminalText::new(text, TerminalStyle::bright_blue())
}

/// Highlights `text` in bold, bright magenta (codes `1;95`).
pub fn highlight_bright_magenta(text: &str) -> (r: StyledTerminalText)
    ensures
        r.text_view() == text@,
        r.style_view() == seq![1u8, 95u8],
        r.output_view() == wrapped(seq![1u8, 95u8], text@),
{
    StyledTerminalText::new(text, TerminalStyle::bright_magenta())
}

/// Highlights `text` in bold, bright cyan (codes `1;96`).
pub fn highlight_bright_cyan(text: &str) -> (r: StyledTerminalText)
    ensures
        r.text_view() == text@,
        r.style_view() == seq![1u8, 96u8],
        r.output_view() == wrapped(seq![1u8, 96u8], text@),
{
    StyledTerminalText::new(text, TerminalStyle::bright_cyan())
}

/// Highlights `text` in bold, bright white (codes `1;97`).
pub fn highlight_bright_white(text: &str) -> (r: StyledTerminalText)
    ensures
        r.text_view() == text@,
        r.style_view() == seq![1u8, 97u8],
        r.output_view() == wrapped(seq![1u8, 97u8], text@),
{
    StyledTerminalText::new(text, TerminalStyle::bright_white())
}

} // verus!
