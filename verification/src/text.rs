//! Runs, lines and blocks of styled text.
//!
//! A [`Span`] is a piece of text with one style. A [`Line`] is a row of spans,
//! drawn from left to right with nothing between them. A [`Text`] is a column
//! of lines. None of them stores a width: each computes it from its content.

use crate::style::Style;
use crate::width::{
    columns, display_width, lemma_widest_is_maximum, max_width, measure, total, total_width, widest,
};
use std::borrow::Cow;
use vstd::prelude::*;

verus! {

/// `Cow::from` on a string slice: std documents that it gives the `Borrowed`
/// variant around the same slice, and copies nothing.
pub assume_specification<'a>[ <Cow<'a, str> as From<&'a str>>::from ](s: &'a str) -> (cow: Cow<
    'a,
    str,
>)
    ensures
        cow == Cow::<str>::Borrowed(s),
;

/// `Cow::from` on a `String`: std documents that it gives the `Owned` variant
/// around the same string.
pub assume_specification<'a>[ <Cow<'a, str> as From<String>>::from ](s: String) -> (cow: Cow<
    'a,
    str,
>)
    ensures
        cow == Cow::<str>::Owned(s),
;

/// `From<T> for T`: std documents that it returns the argument unchanged.
pub assume_specification<U>[ <U as From<U>>::from ](value: U) -> (same: U)
    ensures
        same == value,
;

/// What a span is, whoever owns its text: the characters and the style.
pub struct SpanView {
    pub content: Seq<char>,
    pub style: Style,
}

impl SpanView {
    /// The span that unstyled `text` makes.
    pub open spec fn raw(text: Seq<char>) -> SpanView {
        SpanView { content: text, style: Style::plain() }
    }

    /// The number of terminal columns that the span takes.
    pub open spec fn width(self) -> nat {
        display_width(self.content)
    }
}

/// A piece of text with one style. The text is borrowed or owned; nothing
/// that reads a span can tell the difference.
#[derive(Debug, PartialEq)]
pub struct Span<'a> {
    pub content: Cow<'a, str>,
    pub style: Style,
}

impl<'a> View for Span<'a> {
    type V = SpanView;

    open spec fn view(&self) -> SpanView {
        SpanView { content: self.content@, style: self.style }
    }
}

impl<'a> Clone for Span<'a> {
    fn clone(&self) -> (copy: Span<'a>)
        ensures
            copy == *self,
    {
        let content = match &self.content {
            Cow::Borrowed(text) => Cow::Borrowed(*text),
            Cow::Owned(text) => Cow::Owned(text.clone()),
        };
        Span { content, style: self.style }
    }
}

impl<'a> Span<'a> {
    /// A span of `content` with no styling. `content` is converted as its
    /// `Into` says and then kept as it is: not split, not trimmed.
    pub fn raw<T>(content: T) -> (span: Span<'a>) where T: Into<Cow<'a, str>>
        ensures
            call_ensures(T::into, (content,), span.content),
            span.style == Style::plain(),
    {
        Span { content: content.into(), style: Style::default() }
    }

    /// A span of `content` in `style`.
    pub fn styled<T>(content: T, style: Style) -> (span: Span<'a>) where T: Into<Cow<'a, str>>
        ensures
            call_ensures(T::into, (content,), span.content),
            span.style == style,
    {
        Span { content: content.into(), style }
    }

    /// The text of the span.
    pub fn text(&self) -> (text: &str)
        ensures
            text@ == self@.content,
    {
        match &self.content {
            Cow::Borrowed(text) => text,
            Cow::Owned(text) => text.as_str(),
        }
    }

    /// The number of terminal columns that the span takes.
    pub fn width(&self) -> (w: usize)
        ensures
            w == self@.width(),
    {
        measure(self.text())
    }
}

impl<'a> vstd::std_specs::convert::FromSpecImpl<String> for Span<'a> {
    open spec fn obeys_from_spec() -> bool {
        true
    }

    open spec fn from_spec(s: String) -> Span<'a> {
        Span { content: Cow::Owned(s), style: Style::plain() }
    }
}

impl<'a> From<String> for Span<'a> {
    /// The unstyled span that owns `s`.
    fn from(s: String) -> (span: Span<'a>)
        ensures
            span@ == SpanView::raw(s@),
    {
        Span::raw(s)
    }
}

impl<'a> vstd::std_specs::convert::FromSpecImpl<&'a str> for Span<'a> {
    open spec fn obeys_from_spec() -> bool {
        true
    }

    open spec fn from_spec(s: &'a str) -> Span<'a> {
        Span { content: Cow::Borrowed(s), style: Style::plain() }
    }
}

impl<'a> From<&'a str> for Span<'a> {
    /// The unstyled span that borrows `s`.
    fn from(s: &'a str) -> (span: Span<'a>)
        ensures
            span@ == SpanView::raw(s@),
    {
        Span::raw(s)
    }
}

/// What a line is: its spans, from left to right.
pub struct LineView {
    pub spans: Seq<SpanView>,
}

impl LineView {
    /// The line that holds `span` and nothing else.
    pub open spec fn from_span(span: SpanView) -> LineView {
        LineView { spans: seq![span] }
    }

    /// The line that unstyled `text` makes: one span with all of `text`,
    /// line breaks included.
    pub open spec fn raw(text: Seq<char>) -> LineView {
        LineView::from_span(SpanView::raw(text))
    }

    /// The width of each span, in order.
    pub open spec fn span_widths(self) -> Seq<nat> {
        self.spans.map_values(|span: SpanView| span.width())
    }

    /// The number of terminal columns that the line takes: the sum of the
    /// widths of its spans.
    pub open spec fn width(self) -> nat {
        total(self.span_widths())
    }

    /// The characters of the line: those of its spans, one span after the
    /// other, with nothing between them.
    pub open spec fn plain_text(self) -> Seq<char> {
        self.spans.map_values(|span: SpanView| span.content).flatten()
    }
}

/// A row of spans, drawn from left to right.
#[derive(Debug, PartialEq)]
pub struct Line<'a> {
    pub spans: Vec<Span<'a>>,
}

impl<'a> Clone for Line<'a> {
    fn clone(&self) -> (copy: Line<'a>)
        ensures
            copy.spans@ == self.spans@,
            copy@ == self@,
    {
        let copy = Line { spans: self.spans.clone() };
        assert(copy.spans@ =~= self.spans@);
        copy
    }
}

impl<'a> View for Line<'a> {
    type V = LineView;

    open spec fn view(&self) -> LineView {
        LineView { spans: self.spans@.map_values(|span: Span<'a>| span@) }
    }
}

impl<'a> Default for Line<'a> {
    /// The line without spans. It takes no column.
    fn default() -> (line: Line<'a>)
        ensures
            line.spans@.len() == 0,
            line@.width() == 0,
    {
        Line { spans: Vec::new() }
    }
}

impl<'a> Line<'a> {
    /// The line of `spans`, in their order. Neighbours of one style stay
    /// apart.
    pub fn with_spans(spans: Vec<Span<'a>>) -> (line: Line<'a>)
        ensures
            line.spans == spans,
    {
        Line { spans }
    }

    /// The width of each span, in order.
    pub fn span_widths(&self) -> (widths: Vec<usize>)
        ensures
            columns(widths@) == self@.span_widths(),
    {
        let mut widths: Vec<usize> = Vec::new();
        let mut i: usize = 0;
        while i < self.spans.len()
            invariant
                i <= self.spans.len(),
                widths@.len() == i,
                forall|j: int| 0 <= j < i ==> widths@[j] == (#[trigger] self.spans@[j])@.width(),
            decreases self.spans.len() - i,
        {
            widths.push(self.spans[i].width());
            i += 1;
        }
        assert(columns(widths@) =~= self@.span_widths());
        widths
    }

    /// The number of terminal columns that the line takes.
    pub fn width(&self) -> (w: usize)
        requires
            self@.width() <= usize::MAX,
        ensures
            w == self@.width(),
    {
        let widths = self.span_widths();
        total_width(widths.as_slice()).unwrap()
    }

    /// The number of terminal columns that the line takes, or `None` when
    /// that number does not fit a `usize`.
    pub fn checked_width(&self) -> (w: Option<usize>)
        ensures
            match w {
                Some(n) => n == self@.width(),
                None => self@.width() > usize::MAX,
            },
    {
        let widths = self.span_widths();
        if total_width(widths.as_slice()).is_some() {
            Some(self.width())
        } else {
            None
        }
    }
}

impl<'a> vstd::std_specs::convert::FromSpecImpl<Vec<Span<'a>>> for Line<'a> {
    open spec fn obeys_from_spec() -> bool {
        true
    }

    open spec fn from_spec(spans: Vec<Span<'a>>) -> Line<'a> {
        Line { spans }
    }
}

impl<'a> From<Vec<Span<'a>>> for Line<'a> {
    /// The line of `spans`, in their order.
    fn from(spans: Vec<Span<'a>>) -> (line: Line<'a>)
        ensures
            line.spans == spans,
    {
        Line { spans }
    }
}

impl<'a> vstd::std_specs::convert::FromSpecImpl<Span<'a>> for Line<'a> {
    /// A line holds a `Vec`, and ghost code cannot build one: what `from`
    /// returns is stated by its own `ensures`.
    open spec fn obeys_from_spec() -> bool {
        false
    }

    open spec fn from_spec(span: Span<'a>) -> Line<'a> {
        choose|line: Line<'a>| line.spans@ == seq![span]
    }
}

impl<'a> From<Span<'a>> for Line<'a> {
    /// The line that holds `span` and nothing else.
    fn from(span: Span<'a>) -> (line: Line<'a>)
        ensures
            line.spans@ == seq![span],
            line@ == LineView::from_span(span@),
    {
        let mut spans: Vec<Span<'a>> = Vec::new();
        spans.push(span);
        let line = Line { spans };
        assert(line@.spans =~= seq![span@]);
        line
    }
}

impl<'a> vstd::std_specs::convert::FromSpecImpl<String> for Line<'a> {
    /// A line holds a `Vec`, and ghost code cannot build one: what `from`
    /// returns is stated by its own `ensures`.
    open spec fn obeys_from_spec() -> bool {
        false
    }

    open spec fn from_spec(s: String) -> Line<'a> {
        choose|line: Line<'a>| line@ == LineView::raw(s@)
    }
}

impl<'a> From<String> for Line<'a> {
    /// The line of one unstyled span that owns all of `s`. `s` is not split
    /// at line breaks.
    fn from(s: String) -> (line: Line<'a>)
        ensures
            line@ == LineView::raw(s@),
    {
        Line::from(Span::from(s))
    }
}

impl<'a> vstd::std_specs::convert::FromSpecImpl<&'a str> for Line<'a> {
    /// A line holds a `Vec`, and ghost code cannot build one: what `from`
    /// returns is stated by its own `ensures`.
    open spec fn obeys_from_spec() -> bool {
        false
    }

    open spec fn from_spec(s: &'a str) -> Line<'a> {
        choose|line: Line<'a>| line@ == LineView::raw(s@)
    }
}

impl<'a> From<&'a str> for Line<'a> {
    /// The line of one unstyled span that borrows all of `s`. `s` is not
    /// split at line breaks.
    fn from(s: &'a str) -> (line: Line<'a>)
        ensures
            line@ == LineView::raw(s@),
    {
        Line::from(Span::from(s))
    }
}

impl<'a> vstd::std_specs::convert::FromSpecImpl<Line<'a>> for String {
    /// Ghost code cannot build a `String`: what `from` returns is stated by
    /// its own `ensures`.
    open spec fn obeys_from_spec() -> bool {
        false
    }

    open spec fn from_spec(line: Line<'a>) -> String {
        choose|text: String| text@ == line@.plain_text()
    }
}

impl<'a> From<Line<'a>> for String {
    /// The characters of `line` without its styles: the text of each span,
    /// in order, with nothing between them.
    fn from(line: Line<'a>) -> (text: String)
        ensures
            text@ == line@.plain_text(),
    {
        let ghost contents = line@.spans.map_values(|span: SpanView| span.content);
        let mut text = String::new();
        let mut i: usize = 0;
        while i < line.spans.len()
            invariant
                i <= line.spans.len(),
                contents == line@.spans.map_values(|span: SpanView| span.content),
                text@ == contents.take(i as int).flatten(),
            decreases line.spans.len() - i,
        {
            proof {
                assert(contents.take(i + 1) =~= contents.take(i as int).push(contents[i as int]));
                contents.take(i as int).lemma_flatten_push(contents[i as int]);
            }
            text.append(line.spans[i].text());
            i += 1;
        }
        assert(contents.take(i as int) =~= contents);
        text
    }
}

/// What a block of text is: its lines, from top to bottom.
pub struct TextView {
    pub lines: Seq<LineView>,
}

impl TextView {
    /// The block of `lines`, in their order.
    pub open spec fn from_lines(lines: Seq<LineView>) -> TextView {
        TextView { lines }
    }

    /// The width of each line, in order.
    pub open spec fn line_widths(self) -> Seq<nat> {
        self.lines.map_values(|line: LineView| line.width())
    }

    /// The number of terminal columns that the block takes: the width of its
    /// widest line, 0 without lines.
    pub open spec fn width(self) -> nat {
        widest(self.line_widths())
    }

    /// Whether the width of every line fits a `usize`.
    pub open spec fn measurable(self) -> bool {
        forall|i: int| 0 <= i < self.lines.len() ==> (#[trigger] self.lines[i]).width() <= usize::MAX
    }
}

/// A column of lines, drawn from top to bottom.
#[derive(Debug, PartialEq)]
pub struct Text<'a> {
    lines: Vec<Line<'a>>,
}

impl<'a> Clone for Text<'a> {
    fn clone(&self) -> (copy: Text<'a>)
        ensures
            copy@ == self@,
    {
        let copy = Text { lines: self.lines.clone() };
        assert(copy@.lines =~= self@.lines);
        copy
    }
}

impl<'a> View for Text<'a> {
    type V = TextView;

    open spec fn view(&self) -> TextView {
        TextView::from_lines(self.lines()@.map_values(|line: Line<'a>| line@))
    }
}

impl<'a> Default for Text<'a> {
    /// The block without lines. It takes no column.
    fn default() -> (text: Text<'a>)
        ensures
            text@.lines.len() == 0,
            text@.width() == 0,
    {
        Text { lines: Vec::new() }
    }
}

impl<'a> Text<'a> {
    /// The lines, from top to bottom.
    pub closed spec fn spec_lines(&self) -> &Vec<Line<'a>> {
        &self.lines
    }

    /// The lines, from top to bottom.
    #[verifier::when_used_as_spec(spec_lines)]
    pub fn lines(&self) -> (lines: &Vec<Line<'a>>)
        ensures
            lines == self.spec_lines(),
    {
        &self.lines
    }

    /// The block of `lines`, in their order. `lines` is converted as its
    /// `Into` says and then kept as it is.
    pub fn with_lines<T>(lines: T) -> (text: Text<'a>) where T: Into<Vec<Line<'a>>>
        ensures
            call_ensures(T::into, (lines,), *text.lines()),
    {
        Text { lines: lines.into() }
    }

    /// The width of each line, in order.
    fn line_widths(&self) -> (widths: Vec<usize>)
        requires
            self@.measurable(),
        ensures
            columns(widths@) == self@.line_widths(),
    {
        let mut widths: Vec<usize> = Vec::new();
        let mut i: usize = 0;
        while i < self.lines.len()
            invariant
                i <= self.lines.len(),
                self@.measurable(),
                widths@.len() == i,
                forall|j: int| 0 <= j < i ==> widths@[j] == (#[trigger] self@.lines[j]).width(),
            decreases self.lines.len() - i,
        {
            assert(self@.lines[i as int] == self.lines@[i as int]@);
            widths.push(self.lines[i].width());
            i += 1;
        }
        assert(columns(widths@) =~= self@.line_widths());
        widths
    }

    /// Whether the width of every line fits a `usize`.
    fn is_measurable(&self) -> (yes: bool)
        ensures
            yes == self@.measurable(),
    {
        let mut i: usize = 0;
        while i < self.lines.len()
            invariant
                i <= self.lines.len(),
                forall|j: int| 0 <= j < i ==> (#[trigger] self@.lines[j]).width() <= usize::MAX,
            decreases self.lines.len() - i,
        {
            assert(self@.lines[i as int] == self.lines@[i as int]@);
            if self.lines[i].checked_width().is_none() {
                return false;
            }
            i += 1;
        }
        true
    }

    /// The number of terminal columns that the block takes.
    pub fn width(&self) -> (w: usize)
        requires
            self@.measurable(),
        ensures
            w == self@.width(),
    {
        let widths = self.line_widths();
        max_width(widths.as_slice())
    }

    /// The number of terminal columns that the block takes, or `None` when
    /// the width of one of its lines does not fit a `usize`.
    pub fn checked_width(&self) -> (w: Option<usize>)
        ensures
            match w {
                Some(n) => self@.measurable() && n == self@.width(),
                None => !self@.measurable(),
            },
    {
        if self.is_measurable() {
            Some(self.width())
        } else {
            None
        }
    }
}

impl<'a> vstd::std_specs::convert::FromSpecImpl<Vec<Line<'a>>> for Text<'a> {
    open spec fn obeys_from_spec() -> bool {
        true
    }

    closed spec fn from_spec(lines: Vec<Line<'a>>) -> Text<'a> {
        Text { lines }
    }
}

impl<'a> From<Vec<Line<'a>>> for Text<'a> {
    /// The block of `lines`, in their order.
    fn from(lines: Vec<Line<'a>>) -> (text: Text<'a>)
        ensures
            *text.lines() == lines,
            text@ == TextView::from_lines(lines@.map_values(|line: Line<'a>| line@)),
    {
        Text::with_lines(lines)
    }
}

/// The plain text of a line of one span is the content of that span, whatever
/// its style.
pub proof fn lemma_plain_text_of_one_span(span: SpanView)
    ensures
        LineView::from_span(span).plain_text() == span.content,
{
    let contents = LineView::from_span(span).spans.map_values(|span: SpanView| span.content);
    assert(contents =~= seq![span.content]);
    contents.lemma_flatten_singleton();
}

/// Plain text that is made a line and read back is the same text: nothing
/// is added, dropped or reordered.
pub proof fn lemma_plain_text_round_trip(text: Seq<char>)
    ensures
        LineView::raw(text).plain_text() == text,
{
    lemma_plain_text_of_one_span(SpanView::raw(text));
}

/// A span that is wrapped into a line, and the line into a block, is read
/// back as it was: the same content in the same style.
pub proof fn lemma_wrapped_span_is_kept(span: SpanView)
    ensures
        TextView::from_lines(seq![LineView::from_span(span)]).lines.len() == 1,
        TextView::from_lines(seq![LineView::from_span(span)]).lines[0].spans.len() == 1,
        TextView::from_lines(seq![LineView::from_span(span)]).lines[0].spans[0] == span,
{
}

/// The width of a block is the greatest width among its lines: no line is
/// wider, and some line is that wide unless there is none, when it is 0.
pub proof fn lemma_text_width_is_maximum(text: TextView)
    ensures
        forall|i: int| 0 <= i < text.lines.len() ==> (#[trigger] text.lines[i]).width() <= text.width(),
        text.lines.len() == 0 ==> text.width() == 0,
        text.lines.len() > 0 ==> exists|i: int|
            0 <= i < text.lines.len() && (#[trigger] text.lines[i]).width() == text.width(),
{
    let widths = text.line_widths();
    lemma_widest_is_maximum(widths);
    assert forall|i: int| 0 <= i < text.lines.len() implies (#[trigger] text.lines[i]).width()
        <= text.width() by {
        assert(widths[i] == text.lines[i].width());
    }
    if text.lines.len() > 0 {
        let i = choose|i: int| 0 <= i < widths.len() && widths[i] == widest(widths);
        assert(text.lines[i].width() == text.width());
    }
}

} // verus!
