use test_console::ansi::{render_line, render_tokens, Color, Style, StyledSpan, Token};

fn text_of(spans: &Vec<StyledSpan>) -> String {
    let mut text = String::new();
    for span in spans {
        text.push_str(&span.text);
    }
    text
}

fn check(span: &StyledSpan, text: &str, foreground: Option<Color>, bold: bool, background: Option<Color>) {
    assert_eq!(span.text, text);
    assert_eq!(span.foreground, foreground);
    assert_eq!(span.bold, bold);
    assert_eq!(span.background, background);
}

#[test]
fn green_text_followed_by_reset_is_one_green_span() {
    let spans = render_line("\u{1b}[32mok\u{1b}[0m");
    assert_eq!(spans.len(), 1);
    check(&spans[0], "ok", Some(Color::Green), false, None);
}

#[test]
fn plain_line_is_one_plain_span() {
    let spans = render_line("hello world");
    assert_eq!(spans.len(), 1);
    check(&spans[0], "hello world", None, false, None);
}

#[test]
fn empty_line_has_no_span() {
    assert!(render_line("").is_empty());
}

#[test]
fn escape_sequences_alone_give_no_span() {
    assert!(render_line("\u{1b}[1m\u{1b}[31m\u{1b}[0m").is_empty());
}

#[test]
fn span_texts_concatenate_to_the_line_without_its_sequences() {
    let line = "a\u{1b}[1;31mred\u{1b}[0m and \u{1b}[44mblue\u{1b}[m!";
    let spans = render_line(line);
    assert_eq!(text_of(&spans), "ared and blue!");
}

#[test]
fn attributes_build_up_from_left_to_right() {
    let spans = render_line("\u{1b}[1mbold\u{1b}[31mred\u{1b}[42mon green\u{1b}[34mblue");
    assert_eq!(spans.len(), 4);
    check(&spans[0], "bold", None, true, None);
    check(&spans[1], "red", Some(Color::Red), true, None);
    check(&spans[2], "on green", Some(Color::Red), true, Some(Color::Green));
    check(&spans[3], "blue", Some(Color::Blue), true, Some(Color::Green));
}

#[test]
fn reset_clears_every_attribute() {
    let spans = render_line("\u{1b}[1;33;45mx\u{1b}[0my");
    assert_eq!(spans.len(), 2);
    check(&spans[0], "x", Some(Color::Yellow), true, Some(Color::Magenta));
    check(&spans[1], "y", None, false, None);
}

#[test]
fn codes_of_one_sequence_apply_in_order() {
    let spans = render_line("\u{1b}[31;0;1mx");
    assert_eq!(spans.len(), 1);
    check(&spans[0], "x", None, true, None);
}

#[test]
fn unknown_codes_change_nothing() {
    let spans = render_line("\u{1b}[36mx\u{1b}[4my\u{1b}[90mz\u{1b}[38mw");
    assert_eq!(spans.len(), 4);
    for span in &spans {
        assert_eq!(span.foreground, Some(Color::Cyan));
        assert!(!span.bold);
        assert_eq!(span.background, None);
    }
    assert_eq!(text_of(&spans), "xyzw");
}

#[test]
fn other_control_sequences_are_dropped_without_effect() {
    let spans = render_line("\u{1b}[35ma\u{1b}[2Jb\u{1b}[Kc");
    assert_eq!(text_of(&spans), "abc");
    for span in &spans {
        assert_eq!(span.foreground, Some(Color::Magenta));
    }
}

#[test]
fn no_style_is_carried_from_one_line_to_the_next() {
    let first = render_line("\u{1b}[1;31mred");
    check(&first[0], "red", Some(Color::Red), true, None);
    let second = render_line("plain");
    assert_eq!(second.len(), 1);
    check(&second[0], "plain", None, false, None);
}

#[test]
fn sequence_that_the_parser_rejects_stays_in_the_text() {
    let line = "\u{1b}[999mx";
    let spans = render_line(line);
    assert_eq!(text_of(&spans), line);
    check(&spans[0], line, None, false, None);
}

#[test]
fn all_foreground_and_background_colors() {
    let colors = [
        Color::Black,
        Color::Red,
        Color::Green,
        Color::Yellow,
        Color::Blue,
        Color::Magenta,
        Color::Cyan,
        Color::White,
    ];
    for (offset, color) in colors.iter().enumerate() {
        let fg = render_line(&format!("\u{1b}[{}mx", 30 + offset));
        check(&fg[0], "x", Some(*color), false, None);
        let bg = render_line(&format!("\u{1b}[{}mx", 40 + offset));
        check(&bg[0], "x", None, false, Some(*color));
        assert_eq!(Color::from_offset(offset as u8), Some(*color));
    }
    assert_eq!(Color::from_offset(8), None);
    assert_eq!(Color::from_offset(255), None);
}

#[test]
fn style_apply_follows_the_code_table() {
    let plain = Style::plain();
    assert_eq!(plain, Style { foreground: None, bold: false, background: None });
    let bold = plain.apply(1);
    assert_eq!(bold, Style { foreground: None, bold: true, background: None });
    let red = bold.apply(31);
    assert_eq!(red, Style { foreground: Some(Color::Red), bold: true, background: None });
    let on_white = red.apply(47);
    assert_eq!(
        on_white,
        Style { foreground: Some(Color::Red), bold: true, background: Some(Color::White) }
    );
    assert_eq!(on_white.apply(29), on_white);
    assert_eq!(on_white.apply(38), on_white);
    assert_eq!(on_white.apply(48), on_white);
    assert_eq!(on_white.apply(0), plain);
    assert_eq!(plain.apply_all(&vec![1, 31, 47]), on_white);
    assert_eq!(on_white.apply_all(&vec![]), on_white);
    assert_eq!(on_white.apply_all(&vec![0, 32]), Style {
        foreground: Some(Color::Green),
        bold: false,
        background: None,
    });
}

#[test]
fn tokens_render_to_one_span_for_each_text() {
    let tokens = vec![
        Token::Text("a".to_string()),
        Token::Control,
        Token::Graphics(vec![32]),
        Token::Text("ok".to_string()),
        Token::Graphics(vec![0]),
        Token::Graphics(vec![]),
        Token::Text("".to_string()),
    ];
    let spans = render_tokens(&tokens);
    assert_eq!(spans.len(), 3);
    check(&spans[0], "a", None, false, None);
    check(&spans[1], "ok", Some(Color::Green), false, None);
    check(&spans[2], "", None, false, None);
    assert!(render_tokens(&vec![]).is_empty());
}
