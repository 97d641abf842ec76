//! Styled text for terminals: ANSI SGR escape sequences composed from typed
//! colors and effects, and decoded back from raw codes.
//!
//! The attribute enumerations map to and from their codes, a
//! [`TerminalStyle`] renders a list of codes as one escape sequence, and a
//! [`StyledTerminalText`] keeps text wrapped in a style.
pub mod enums;
pub mod escape;
pub mod styled_terminal_text;
pub mod terminal_style;
pub mod traits;
pub mod utility;

pub use enums::ansi_background::ANSIBackgroundColor;
pub use enums::ansi_foreground::ANSIForegroundColor;
pub use enums::srg_effect::SGREffect;
pub use styled_terminal_text::StyledTerminalText;
pub use terminal_style::TerminalStyle;
pub use traits::Coded;
pub use utility::{
    highlight, highlight_black, highlight_blue, highlight_bright_black, highlight_bright_blue,
    highlight_bright_cyan, highlight_bright_green, highlight_bright_magenta, highlight_bright_red,
    highlight_bright_white, highlight_bright_yellow, highlight_cyan, highlight_green,
    highlight_magenta, highlight_red, highlight_white, highlight_yellow,
};
