use std::borrow::Cow;
use tui::style::{Color, Modifier, Style};
use tui::text::{Line, Span, Text};

fn bold() -> Style {
    Style::default().modifier(Modifier::Bold)
}

#[test]
fn raw_span_has_the_text_and_no_style() {
    let span = Span::raw("abc");
    assert_eq!(span.content, "abc");
    assert_eq!(span.text(), "abc");
    assert_eq!(span.style, Style::default());
}

#[test]
fn raw_span_borrows_a_slice() {
    let source = String::from("borrowed");
    let span = Span::raw(source.as_str());
    assert!(matches!(span.content, Cow::Borrowed("borrowed")));
}

#[test]
fn raw_span_owns_a_string() {
    let span = Span::raw(String::from("owned"));
    assert!(matches!(span.content, Cow::Owned(_)));
    assert_eq!(span.content, "owned");
}

#[test]
fn borrowed_and_owned_spans_are_the_same_value() {
    assert_eq!(Span::raw("same"), Span::raw(String::from("same")));
    assert_eq!(Span::raw("same").width(), Span::raw(String::from("same")).width());
}

#[test]
fn styled_span_keeps_text_and_style() {
    let style = Style::default().fg(Color::Cyan).modifier(Modifier::Bold);
    let span = Span::styled("X Axis", style);
    assert_eq!(span.content, "X Axis");
    assert_eq!(span.style, style);
    assert_ne!(span.style, Style::default());
}

#[test]
fn span_is_not_trimmed() {
    let span = Span::raw("  padded \n");
    assert_eq!(span.text(), "  padded \n");
}

#[test]
fn span_from_str_and_from_string() {
    let borrowed: Span = Span::from("text");
    let owned: Span = Span::from(String::from("text"));
    assert_eq!(borrowed, Span::raw("text"));
    assert_eq!(owned, Span::raw("text"));
    assert!(matches!(borrowed.content, Cow::Borrowed(_)));
    assert!(matches!(owned.content, Cow::Owned(_)));
}

#[test]
fn span_clone_is_equal() {
    let borrowed = Span::styled("abc", bold());
    let owned = Span::styled(String::from("abc"), bold());
    assert_eq!(borrowed.clone(), borrowed);
    assert_eq!(owned.clone(), owned);
    assert!(matches!(borrowed.clone().content, Cow::Borrowed(_)));
    assert!(matches!(owned.clone().content, Cow::Owned(_)));
}

#[test]
fn span_width_of_ascii_is_its_length() {
    assert_eq!(Span::raw("abc").width(), 3);
}

#[test]
fn span_width_of_a_wide_glyph_is_two() {
    assert_eq!(Span::raw("日").width(), 2);
    assert_eq!(Span::raw("Ｈｅｌｌｏ").width(), 10);
}

#[test]
fn span_width_ignores_zero_width_characters() {
    assert_eq!(Span::raw("\u{200d}").width(), 0);
    assert_eq!(Span::raw("a\u{200d}b").width(), 2);
    assert_eq!(Span::raw("e\u{301}").width(), 1);
}

#[test]
fn span_width_ignores_control_characters() {
    assert_eq!(Span::raw("\t").width(), 0);
    assert_eq!(Span::raw("a\nb").width(), 2);
}

#[test]
fn span_width_of_nothing_is_zero() {
    assert_eq!(Span::raw("").width(), 0);
}

#[test]
fn span_width_does_not_depend_on_style() {
    assert_eq!(Span::styled("日本語", bold()).width(), Span::raw("日本語").width());
}

#[test]
fn default_line_is_empty() {
    let line = Line::default();
    assert!(line.spans.is_empty());
    assert_eq!(line.width(), 0);
    assert_eq!(line.checked_width(), Some(0));
    assert_eq!(String::from(line), "");
}

#[test]
fn line_of_two_runs() {
    let line = Line::with_spans(vec![Span::raw("ab"), Span::styled("c", bold())]);
    assert_eq!(line.width(), 3);
    assert_eq!(String::from(line), "abc");
}

#[test]
fn line_width_is_the_sum_of_its_spans() {
    let line = Line::with_spans(vec![
        Span::raw("hello"),
        Span::styled("日本語", bold()),
        Span::raw(""),
        Span::raw("é"),
    ]);
    assert_eq!(line.span_widths(), vec![5, 6, 0, 1]);
    assert_eq!(line.width(), 12);
    assert_eq!(line.checked_width(), Some(12));
    let sum: usize = line.spans.iter().map(|span| span.width()).sum();
    assert_eq!(line.width(), sum);
}

#[test]
fn with_spans_keeps_order_and_does_not_merge() {
    let spans = vec![Span::raw("a"), Span::raw("b"), Span::styled("c", bold()), Span::raw("d")];
    let line = Line::with_spans(spans.clone());
    assert_eq!(line.spans, spans);
    assert_eq!(line.spans.len(), 4);
}

#[test]
fn line_from_spans_is_with_spans() {
    let spans = vec![Span::raw("ab"), Span::styled("c", bold())];
    assert_eq!(Line::from(spans.clone()), Line::with_spans(spans));
}

#[test]
fn line_from_span_holds_that_span() {
    let span = Span::styled("only", bold());
    let line = Line::from(span.clone());
    assert_eq!(line.spans, vec![span]);
}

#[test]
fn line_from_str_is_one_unstyled_span() {
    let line = Line::from("hello");
    assert_eq!(line.spans, vec![Span::raw("hello")]);
    assert!(matches!(line.spans[0].content, Cow::Borrowed(_)));
    assert_eq!(line.spans[0].style, Style::default());
}

#[test]
fn line_from_string_is_one_unstyled_span() {
    let line = Line::from(String::from("hello"));
    assert_eq!(line.spans, vec![Span::raw("hello")]);
    assert!(matches!(line.spans[0].content, Cow::Owned(_)));
}

#[test]
fn line_from_text_is_not_split_at_line_breaks() {
    let line = Line::from("first\nsecond\r\nthird");
    assert_eq!(line.spans.len(), 1);
    assert_eq!(line.spans[0].content, "first\nsecond\r\nthird");
}

#[test]
fn plain_text_round_trip() {
    for text in ["", "hello", "héllo", "日本語", "two\nlines", "  spaces  ", "a\u{200d}b"] {
        assert_eq!(String::from(Line::from(text)), text);
        assert_eq!(String::from(Line::from(String::from(text))), text);
    }
}

#[test]
fn plain_text_drops_styles_and_keeps_order() {
    let line = Line::with_spans(vec![
        Span::styled("one ", bold()),
        Span::raw("two "),
        Span::styled("three", Style::default().fg(Color::Red)),
    ]);
    assert_eq!(String::from(line), "one two three");
}

#[test]
fn default_text_is_empty() {
    let text = Text::default();
    assert!(text.lines().is_empty());
    assert_eq!(text.width(), 0);
    assert_eq!(text.checked_width(), Some(0));
}

#[test]
fn text_without_lines_has_no_width() {
    let text = Text::with_lines(Vec::new());
    assert_eq!(text.width(), 0);
    assert_eq!(text, Text::default());
}

#[test]
fn text_width_is_that_of_its_widest_line() {
    let text = Text::with_lines(vec![
        Line::from("hello"),
        Line::from("héllo"),
        Line::from("日本語"),
    ]);
    let widths: Vec<usize> = text.lines().iter().map(|line| line.width()).collect();
    assert_eq!(widths, vec![5, 5, 6]);
    assert_eq!(text.width(), 6);
    assert_eq!(text.checked_width(), Some(6));
}

#[test]
fn text_width_when_the_widest_line_is_not_the_last() {
    let text = Text::with_lines(vec![
        Line::from("a"),
        Line::with_spans(vec![Span::raw("wide "), Span::styled("line", bold())]),
        Line::default(),
        Line::from("mid"),
    ]);
    assert_eq!(text.width(), 9);
}

#[test]
fn text_of_empty_lines_has_no_width() {
    let text = Text::with_lines(vec![Line::default(), Line::from("")]);
    assert_eq!(text.lines().len(), 2);
    assert_eq!(text.width(), 0);
}

#[test]
fn with_lines_keeps_the_lines_in_order() {
    let lines = vec![Line::from("one"), Line::from(Span::styled("two", bold())), Line::default()];
    let text = Text::with_lines(lines.clone());
    assert_eq!(text.lines(), &lines);
}

#[test]
fn with_lines_takes_an_array() {
    let text = Text::with_lines([Line::from("ab"), Line::from("abcd")]);
    assert_eq!(text.lines().len(), 2);
    assert_eq!(text.width(), 4);
}

#[test]
fn text_from_lines_is_with_lines() {
    let lines = vec![Line::from("one"), Line::from("three")];
    assert_eq!(Text::from(lines.clone()), Text::with_lines(lines));
}

#[test]
fn wrapped_span_is_read_back_unchanged() {
    let style = Style::default().fg(Color::Yellow).bg(Color::Blue).modifier(Modifier::Italic);
    let span = Span::styled("kept", style);
    let text = Text::from(vec![Line::from(span.clone())]);
    assert_eq!(text.lines().len(), 1);
    assert_eq!(text.lines()[0].spans.len(), 1);
    assert_eq!(text.lines()[0].spans[0], span);
    assert_eq!(text.lines()[0].spans[0].content, "kept");
    assert_eq!(text.lines()[0].spans[0].style, style);
}

#[test]
fn text_clone_is_equal() {
    let text = Text::with_lines(vec![Line::from("a"), Line::from(String::from("b"))]);
    assert_eq!(text.clone(), text);
}
