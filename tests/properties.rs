use terminal_text_styler::{
    highlight_black, highlight_blue, highlight_bright_black, highlight_bright_blue,
    highlight_bright_cyan, highlight_bright_green, highlight_bright_magenta, highlight_bright_red,
    highlight_bright_white, highlight_bright_yellow, highlight_cyan, highlight_green,
    highlight_magenta, highlight_red, highlight_white, highlight_yellow, ANSIBackgroundColor,
    ANSIForegroundColor, Coded, SGREffect, StyledTerminalText, TerminalStyle,
};

fn named_foreground(code: u8) -> bool {
    (30..=37).contains(&code) || (90..=97).contains(&code)
}

fn named_background(code: u8) -> bool {
    (40..=47).contains(&code) || (100..=107).contains(&code)
}

#[test]
fn foreground_named_codes_round_trip() {
    for code in 0..=255u8 {
        match ANSIForegroundColor::from(code) {
            Some(color) => {
                assert!(named_foreground(code));
                assert_eq!(color.code(), code);
                assert_eq!(color.additional_codes(), None);
            }
            None => assert!(!named_foreground(code)),
        }
    }
    assert_eq!(ANSIForegroundColor::from(93), Some(ANSIForegroundColor::BrightYellow));
}

#[test]
fn background_named_codes_round_trip() {
    for code in 0..=255u8 {
        match ANSIBackgroundColor::from(code) {
            Some(color) => {
                assert!(named_background(code));
                assert_eq!(color.code(), code);
                assert_eq!(color.additional_codes(), None);
            }
            None => assert!(!named_background(code)),
        }
    }
    assert_eq!(ANSIBackgroundColor::from(103), Some(ANSIBackgroundColor::BrightYellow));
}

#[test]
fn codes_outside_the_named_ranges_give_none() {
    for code in [0u8, 29, 38, 39, 40, 89, 98, 255] {
        assert_eq!(ANSIForegroundColor::from(code), None);
    }
    for code in [0u8, 30, 39, 48, 49, 99, 108, 255] {
        assert_eq!(ANSIBackgroundColor::from(code), None);
    }
}

#[test]
fn every_effect_code_round_trips() {
    for code in 0..=255u8 {
        let effect = SGREffect::from(&code);
        assert_eq!(effect.code(), code);
        let named = code <= 6 || code == 9;
        assert_eq!(matches!(effect, SGREffect::ByCode(_)), !named);
    }
    assert!(matches!(SGREffect::from(&9), SGREffect::CrossedOut));
    assert!(matches!(SGREffect::from(&7), SGREffect::ByCode(7)));
}

#[test]
fn palette_lookup_takes_the_index_only_after_its_code() {
    let fg = ANSIForegroundColor::from_256(38, 200).unwrap();
    assert_eq!(fg.additional_codes(), Some((5, 200)));
    assert!(matches!(fg, ANSIForegroundColor::ANSI256(200)));
    assert!(matches!(
        ANSIForegroundColor::from_256(31, 200),
        Some(ANSIForegroundColor::Red)
    ));
    assert_eq!(ANSIForegroundColor::from_256(48, 200), None);

    let bg = ANSIBackgroundColor::from_256(48, 7).unwrap();
    assert_eq!(bg.additional_codes(), Some((5, 7)));
    assert!(matches!(
        ANSIBackgroundColor::from_256(101, 7),
        Some(ANSIBackgroundColor::BrightRed)
    ));
    assert_eq!(ANSIBackgroundColor::from_256(38, 7), None);
}

#[test]
fn attributes_are_equal_when_their_codes_are() {
    assert_eq!(ANSIForegroundColor::ANSI256(1), ANSIForegroundColor::ANSI256(2));
    assert_ne!(ANSIForegroundColor::Red, ANSIForegroundColor::BrightRed);
    assert_eq!(ANSIBackgroundColor::ANSI256(1), ANSIBackgroundColor::ANSI256(250));
    assert_eq!(SGREffect::ByCode(1), SGREffect::Bold);
    assert_ne!(SGREffect::ByCode(8), SGREffect::CrossedOut);
}

#[test]
fn descriptions() {
    assert_eq!(ANSIForegroundColor::BrightRed.description(), "Bright Red");
    assert_eq!(ANSIForegroundColor::Black.description(), "Black");
    assert_eq!(ANSIForegroundColor::ANSI256(183).description(), "ANSI 256-color (183)");
    assert_eq!(ANSIBackgroundColor::ANSI256(0).description(), "ANSI 256-color (0)");
    assert_eq!(ANSIBackgroundColor::Cyan.description(), "Cyan");
    assert_eq!(SGREffect::SlowBlink.description(), "slow blink");
    assert_eq!(SGREffect::Normal.description(), "normal/reset");
    assert_eq!(SGREffect::ByCode(93).description(), "SGR Code 93");
}

#[test]
fn empty_and_reset_code_lists_render_alike() {
    let empty = TerminalStyle::from(vec![]);
    let zero = TerminalStyle::from(vec![0]);
    assert_eq!(empty.command(), "\u{1B}[0m");
    assert_eq!(zero.command(), "\u{1B}[0m");
    assert_eq!(empty, zero);
    assert!(empty.codes().is_empty());
    assert_eq!(zero.codes(), &vec![0u8]);
}

#[test]
fn codes_render_in_decimal_without_leading_zeros() {
    let style = TerminalStyle::from(vec![0, 9, 10, 99, 100, 255]);
    assert_eq!(style.command(), "\u{1B}[0;9;10;99;100;255m");
}

#[test]
fn wrap_begins_with_the_style_and_ends_with_reset() {
    let style = TerminalStyle::red_background();
    let wrapped = style.wrap("text");
    assert!(wrapped.starts_with(style.command()));
    assert!(wrapped.ends_with("\u{1B}[0m"));
    assert_eq!(wrapped, "\u{1B}[1;97;41mtext\u{1B}[0m");
    let empty = TerminalStyle::from(vec![4]).wrap("");
    assert_eq!(empty, "\u{1B}[4m\u{1B}[0m");
}

#[test]
fn palette_foreground_renders_its_index() {
    let style = TerminalStyle::new(vec![], Some(ANSIForegroundColor::ANSI256(183)), None);
    assert_eq!(style.command(), "\u{1B}[38;5;183m");
    assert_eq!(style.codes(), &vec![38u8, 5, 183]);
}

#[test]
fn effects_come_first_in_their_order_then_the_foreground() {
    let style = TerminalStyle::new(
        vec![SGREffect::Bold, SGREffect::Italic, SGREffect::SlowBlink],
        Some(ANSIForegroundColor::Blue),
        None,
    );
    assert_eq!(style.command(), "\u{1B}[1;3;5;34m");
    let repeated = TerminalStyle::new(vec![SGREffect::Bold, SGREffect::Bold], None, None);
    assert_eq!(repeated.command(), "\u{1B}[1;1m");
}

#[test]
fn the_last_color_code_wins() {
    let manual = TerminalStyle::from(vec![33, 41]);
    assert_eq!(manual.foreground(), Some(ANSIForegroundColor::Yellow));
    assert_eq!(manual.background(), Some(ANSIBackgroundColor::Red));
    let two = TerminalStyle::from(vec![31, 1, 93, 4]);
    assert!(matches!(two.foreground(), Some(ANSIForegroundColor::BrightYellow)));
    let backgrounds = TerminalStyle::from(vec![44, 33, 107]);
    assert!(matches!(backgrounds.background(), Some(ANSIBackgroundColor::BrightWhite)));
    assert_eq!(TerminalStyle::from(vec![1, 2, 3]).foreground(), None);
    assert_eq!(TerminalStyle::from(vec![]).background(), None);
}

#[test]
fn palette_colors_are_not_decoded() {
    let style = TerminalStyle::new(vec![], Some(ANSIForegroundColor::ANSI256(31)), None);
    assert!(matches!(style.foreground(), Some(ANSIForegroundColor::Red)));
    let style = TerminalStyle::new(vec![], None, Some(ANSIBackgroundColor::ANSI256(200)));
    assert_eq!(style.background(), None);
}

#[test]
fn color_codes_decode_as_effects_too() {
    let style = TerminalStyle::new(vec![SGREffect::Bold], Some(ANSIForegroundColor::ANSI256(183)), None);
    let effects = style.styles();
    assert_eq!(effects.len(), 4);
    assert!(matches!(effects[0], SGREffect::Bold));
    assert!(matches!(effects[1], SGREffect::ByCode(38)));
    assert!(matches!(effects[2], SGREffect::SlowBlink));
    assert!(matches!(effects[3], SGREffect::ByCode(183)));
}

#[test]
fn changing_text_or_style_keeps_the_output_current() {
    let mut styled = StyledTerminalText::new("one", TerminalStyle::red());
    assert_eq!(styled.output(), "\u{1B}[0;31mone\u{1B}[0m");
    let previous = styled.change_text_to("two");
    assert_eq!(previous, "one");
    assert_eq!(styled.text(), "two");
    assert_eq!(styled.output(), TerminalStyle::red().wrap("two"));
    let previous_style = styled.change_style_to(TerminalStyle::blink());
    assert_eq!(previous_style, TerminalStyle::red());
    assert_eq!(styled.style(), &TerminalStyle::blink());
    assert_eq!(styled.output(), "\u{1B}[5mtwo\u{1B}[0m");
    assert_eq!(styled.output(), styled.style().wrap(styled.text()));
    let previous = styled.change_text_to("");
    assert_eq!(previous, "two");
    assert_eq!(styled.output(), "\u{1B}[5m\u{1B}[0m");
}

#[test]
fn styled_texts_are_equal_when_their_outputs_are() {
    let a = StyledTerminalText::new("x", TerminalStyle::from(vec![]));
    let b = StyledTerminalText::new("x", TerminalStyle::no_color());
    assert_eq!(a, b);
    assert_ne!(a, StyledTerminalText::new("y", TerminalStyle::no_color()));
}

#[test]
fn styles_are_equal_only_when_they_render_alike() {
    assert_ne!(TerminalStyle::from(vec![1, 31]), TerminalStyle::from(vec![31, 1]));
    assert_ne!(TerminalStyle::from(vec![1, 1]), TerminalStyle::from(vec![11]));
    assert_eq!(TerminalStyle::from(vec![1, 31]), TerminalStyle::from(vec![1, 31]));
    let style = TerminalStyle::italic_cyan();
    assert_eq!(style.clone(), style);
    assert_eq!(style.clone().codes(), &vec![3u8, 36]);
}

#[test]
fn presets() {
    let cases: Vec<(TerminalStyle, &str)> = vec![
        (TerminalStyle::no_color(), "\u{1B}[0m"),
        (TerminalStyle::reset(), "\u{1B}[0m"),
        (TerminalStyle::black(), "\u{1B}[0;30m"),
        (TerminalStyle::red(), "\u{1B}[0;31m"),
        (TerminalStyle::green(), "\u{1B}[0;32m"),
        (TerminalStyle::yellow(), "\u{1B}[0;33m"),
        (TerminalStyle::blue(), "\u{1B}[0;34m"),
        (TerminalStyle::magenta(), "\u{1B}[0;35m"),
        (TerminalStyle::cyan(), "\u{1B}[0;36m"),
        (TerminalStyle::white(), "\u{1B}[0;37m"),
        (TerminalStyle::bright_black(), "\u{1B}[1;90m"),
        (TerminalStyle::bright_red(), "\u{1B}[1;91m"),
        (TerminalStyle::bright_green(), "\u{1B}[1;92m"),
        (TerminalStyle::bright_yellow(), "\u{1B}[1;93m"),
        (TerminalStyle::bright_blue(), "\u{1B}[1;94m"),
        (TerminalStyle::bright_magenta(), "\u{1B}[1;95m"),
        (TerminalStyle::bright_cyan(), "\u{1B}[1;96m"),
        (TerminalStyle::bright_white(), "\u{1B}[1;97m"),
        (TerminalStyle::italic_black(), "\u{1B}[3;30m"),
        (TerminalStyle::italic_red(), "\u{1B}[3;31m"),
        (TerminalStyle::italic_green(), "\u{1B}[3;32m"),
        (TerminalStyle::italic_yellow(), "\u{1B}[3;33m"),
        (TerminalStyle::italic_blue(), "\u{1B}[3;34m"),
        (TerminalStyle::italic_magenta(), "\u{1B}[3;35m"),
        (TerminalStyle::italic_cyan(), "\u{1B}[3;36m"),
        (TerminalStyle::italic_white(), "\u{1B}[3;37m"),
        (TerminalStyle::red_background(), "\u{1B}[1;97;41m"),
        (TerminalStyle::blue_background(), "\u{1B}[1;97;44m"),
        (TerminalStyle::green_background(), "\u{1B}[0;30;42m"),
        (TerminalStyle::yellow_background(), "\u{1B}[0;30;103m"),
        (TerminalStyle::normal_bright_yellow(), "\u{1B}[0;93m"),
        (TerminalStyle::blink(), "\u{1B}[5m"),
    ];
    for (style, command) in cases {
        assert_eq!(style.command(), command);
    }
}

#[test]
fn highlight_helpers() {
    let cases: Vec<(StyledTerminalText, &str)> = vec![
        (highlight_black("t"), "0;30"),
        (highlight_red("t"), "0;31"),
        (highlight_green("t"), "0;32"),
        (highlight_yellow("t"), "0;33"),
        (highlight_blue("t"), "0;34"),
        (highlight_magenta("t"), "0;35"),
        (highlight_cyan("t"), "0;36"),
        (highlight_white("t"), "0;37"),
        (highlight_bright_black("t"), "1;90"),
        (highlight_bright_red("t"), "1;91"),
        (highlight_bright_green("t"), "1;92"),
        (highlight_bright_yellow("t"), "1;93"),
        (highlight_bright_blue("t"), "1;94"),
        (highlight_bright_magenta("t"), "1;95"),
        (highlight_bright_cyan("t"), "1;96"),
        (highlight_bright_white("t"), "1;97"),
    ];
    for (styled, codes) in cases {
        assert_eq!(styled.output(), format!("\u{1B}[{}mt\u{1B}[0m", codes));
        assert_eq!(styled.text(), "t");
    }
}
