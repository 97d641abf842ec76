use terminal_text_styler::{
    ANSIBackgroundColor, ANSIForegroundColor, SGREffect, StyledTerminalText, TerminalStyle,
};

#[test]
fn test_that_code_generates_correctly() {
    let manual = TerminalStyle::from(vec![0, 33, 41]);
    let yellow = TerminalStyle::new(
        vec![SGREffect::Bold],
        Some(ANSIForegroundColor::BrightYellow),
        None,
    );
    let yellow_with_background = TerminalStyle::new(
        vec![SGREffect::Normal],
        Some(ANSIForegroundColor::Yellow),
        Some(ANSIBackgroundColor::Red),
    );
    let multi_style = TerminalStyle::new(
        vec![SGREffect::Bold, SGREffect::Italic, SGREffect::SlowBlink],
        Some(ANSIForegroundColor::Blue),
        None,
    );
    let multi_style_02 = TerminalStyle::new(
        vec![SGREffect::Bold, SGREffect::Italic, SGREffect::SlowBlink],
        None,
        Some(ANSIBackgroundColor::White),
    );
    let multi_style_03 = TerminalStyle::new(
        vec![SGREffect::Bold, SGREffect::Italic, SGREffect::SlowBlink],
        None,
        None,
    );
    let color_256 = TerminalStyle::new(
        vec![SGREffect::Bold],
        Some(ANSIForegroundColor::ANSI256(183)),
        Some(ANSIBackgroundColor::ANSI256(190)),
    );
    let no_color = TerminalStyle::new_empty();
    assert_eq!(manual.command(), "\u{001B}[0;33;41m");
    assert_eq!(yellow.command(), "\u{001B}[1;93m");
    assert_eq!(yellow_with_background.command(), "\u{001B}[0;33;41m");
    assert_eq!(multi_style.command(), "\u{001B}[1;3;5;34m");
    assert_eq!(multi_style_02.command(), "\u{001B}[1;3;5;47m");
    assert_eq!(multi_style_03.command(), "\u{001B}[1;3;5m");
    assert_eq!(color_256.command(), "\u{001B}[1;38;5;183;48;5;190m");
    assert_eq!(no_color.command(), "\u{001B}[0m");
    assert_eq!(manual, yellow_with_background);
    assert_eq!(yellow, TerminalStyle::bright_yellow());
    assert_eq!(no_color, TerminalStyle::no_color());
    assert_eq!(no_color, TerminalStyle::reset());
    assert_eq!(TerminalStyle::no_color(), TerminalStyle::reset());
}

#[test]
fn test_color_lookup() {
    let yellow = TerminalStyle::new(
        vec![SGREffect::Bold],
        Some(ANSIForegroundColor::BrightYellow),
        None,
    );
    let yellow_with_background = TerminalStyle::new(
        vec![SGREffect::Normal],
        Some(ANSIForegroundColor::Yellow),
        Some(ANSIBackgroundColor::Red),
    );
    assert_eq!(yellow.foreground(), Some(ANSIForegroundColor::BrightYellow));
    assert_eq!(yellow.background(), None);
    assert_eq!(yellow_with_background.background(), Some(ANSIBackgroundColor::Red));
}

#[test]
fn test_style_lookup() {
    let yellow = TerminalStyle::new(
        vec![SGREffect::Bold],
        Some(ANSIForegroundColor::BrightYellow),
        None,
    );
    let multi_style = TerminalStyle::new(
        vec![SGREffect::Bold, SGREffect::Italic, SGREffect::SlowBlink],
        Some(ANSIForegroundColor::Blue),
        None,
    );
    let multi_style_03 = TerminalStyle::new(
        vec![SGREffect::Bold, SGREffect::Italic, SGREffect::SlowBlink],
        None,
        None,
    );
    assert_eq!(yellow.styles().len(), 2);
    assert_eq!(yellow.styles()[0], SGREffect::Bold);
    assert_eq!(yellow.styles()[1], SGREffect::ByCode(93));
    assert_eq!(multi_style.styles().len(), 4);
    assert_eq!(multi_style_03.styles().len(), 3);
}

#[test]
fn test_that_content_can_be_wrapped() {
    let yellow = TerminalStyle::new(
        vec![SGREffect::Bold],
        Some(ANSIForegroundColor::BrightYellow),
        None,
    );
    let no_color = TerminalStyle::new_empty();
    let wrapped = yellow.wrap("Hello, World!");
    assert_eq!(&wrapped, "\u{001B}[1;93mHello, World!\u{001B}[0m");
    assert_eq!(
        wrapped,
        format!("{}Hello, World!{}", yellow.to_string(), no_color.to_string())
    );
}

#[test]
fn test_styled_terminal_text() {
    let highlighted = StyledTerminalText::new("Hello, World!", TerminalStyle::bright_yellow());
    assert_eq!(highlighted.output(), "\u{001B}[1;93mHello, World!\u{001B}[0m");
    assert_eq!(
        format!("{}", highlighted.to_string()),
        "\u{001B}[1;93mHello, World!\u{001B}[0m"
    );
}

#[test]
fn test_highlight_function() {
    assert_eq!(
        terminal_text_styler::highlight("Hello, World!", TerminalStyle::bright_yellow()).output(),
        "\u{001B}[1;93mHello, World!\u{001B}[0m"
    );
}
