//! What goes to the two output streams: lines made of styled spans, and
//! their rendering into painted text.

use crate::paint::{is_painted, paint, Style};
use vstd::prelude::*;

verus! {

/// A stretch of text in one style.
#[derive(Clone, Debug, PartialEq, Eq)]
pub struct Span {
    pub text: String,
    pub style: Style,
}

/// The mathematical value of a [`Span`].
pub struct SpanView {
    pub text: Seq<char>,
    pub style: Style,
}

impl View for Span {
    type V = SpanView;

    open spec fn view(&self) -> SpanView {
        SpanView { text: self.text@, style: self.style }
    }
}

impl DeepView for Span {
    type V = SpanView;

    open spec fn deep_view(&self) -> SpanView {
        self@
    }
}

/// A span of plain text.
pub open spec fn plain(text: Seq<char>) -> SpanView {
    SpanView { text, style: Style::Plain }
}

/// A span of text in a style.
pub open spec fn styled(text: Seq<char>, style: Style) -> SpanView {
    SpanView { text, style }
}

/// The pieces of text put one behind the other.
pub open spec fn joined(pieces: Seq<Seq<char>>) -> Seq<char>
    decreases pieces.len(),
{
    if pieces.len() == 0 {
        Seq::empty()
    } else {
        joined(pieces.drop_last()) + pieces.last()
    }
}

/// The text of a line with its styles left out.
pub open spec fn plain_text(line: Seq<SpanView>) -> Seq<char> {
    joined(line.map_values(|span: SpanView| span.text))
}

/// Each piece is the span of the line at its place, painted.
pub open spec fn paints(pieces: Seq<Seq<char>>, line: Seq<SpanView>) -> bool {
    &&& pieces.len() == line.len()
    &&& forall|i: int|
        0 <= i < line.len() ==> is_painted(#[trigger] pieces[i], line[i].text, line[i].style)
}

/// `out` is the line with each of its spans painted.
pub open spec fn is_rendering(out: Seq<char>, line: Seq<SpanView>) -> bool {
    exists|pieces: Seq<Seq<char>>| #[trigger] paints(pieces, line) && out == joined(pieces)
}

/// Each text is the rendering of the line at its place.
pub open spec fn are_renderings(out: Seq<Seq<char>>, lines: Seq<Seq<SpanView>>) -> bool {
    &&& out.len() == lines.len()
    &&& forall|i: int| 0 <= i < lines.len() ==> is_rendering(#[trigger] out[i], lines[i])
}

/// The lines for the two output streams, before they are painted. Each
/// entry of a stream is written with a line break after it; the art of a
/// banner is a single entry that runs over several lines.
#[derive(Clone, Debug, PartialEq, Eq)]
pub struct Screen {
    pub error_stream: Vec<Vec<Span>>,
    pub standard_stream: Vec<Vec<Span>>,
}

/// The mathematical value of a [`Screen`].
pub struct ScreenView {
    pub error_stream: Seq<Seq<SpanView>>,
    pub standard_stream: Seq<Seq<SpanView>>,
}

impl View for Screen {
    type V = ScreenView;

    open spec fn view(&self) -> ScreenView {
        ScreenView {
            error_stream: self.error_stream.deep_view(),
            standard_stream: self.standard_stream.deep_view(),
        }
    }
}

/// The painted lines for the two output streams.
#[derive(Clone, Debug, PartialEq, Eq)]
pub struct Output {
    pub error_stream: Vec<String>,
    pub standard_stream: Vec<String>,
}

/// The mathematical value of an [`Output`].
pub struct OutputView {
    pub error_stream: Seq<Seq<char>>,
    pub standard_stream: Seq<Seq<char>>,
}

impl View for Output {
    type V = OutputView;

    open spec fn view(&self) -> OutputView {
        OutputView {
            error_stream: self.error_stream.deep_view(),
            standard_stream: self.standard_stream.deep_view(),
        }
    }
}

/// `output` is `screen` with every line of both streams rendered.
pub open spec fn is_rendered(output: OutputView, screen: ScreenView) -> bool {
    &&& are_renderings(output.error_stream, screen.error_stream)
    &&& are_renderings(output.standard_stream, screen.standard_stream)
}

/// With colours switched off a line is rendered as its plain text: the
/// plain text of a line is always one of its renderings, and the only one
/// of a line whose spans are all plain.
pub proof fn lemma_plain_text_is_rendering(line: Seq<SpanView>)
    ensures
        is_rendering(plain_text(line), line),
        forall|out: Seq<char>|
            (forall|i: int| 0 <= i < line.len() ==> (#[trigger] line[i]).style == Style::Plain)
                && is_rendering(out, line) ==> out == plain_text(line),
{
    let texts = line.map_values(|span: SpanView| span.text);
    assert(paints(texts, line));
    assert forall|out: Seq<char>|
        (forall|i: int| 0 <= i < line.len() ==> (#[trigger] line[i]).style == Style::Plain)
            && is_rendering(out, line) implies out == plain_text(line) by {
        let pieces = choose|pieces: Seq<Seq<char>>| #[trigger]
            paints(pieces, line) && out == joined(pieces);
        assert forall|i: int| 0 <= i < line.len() implies pieces[i] == texts[i] by {}
        assert(pieces =~= texts);
    }
}

/// Puts pieces of text one behind the other.
pub fn join(pieces: &Vec<String>) -> (out: String)
    ensures
        out@ == joined(pieces.deep_view()),
{
    let mut out = String::new();
    let mut i: usize = 0;
    while i < pieces.len()
        invariant
            0 <= i <= pieces.len(),
            out@ == joined(pieces.deep_view().take(i as int)),
        decreases pieces.len() - i,
    {
        assert(pieces.deep_view().take(i + 1).drop_last() =~= pieces.deep_view().take(i as int));
        out.append(pieces[i].as_str());
        i = i + 1;
    }
    assert(pieces.deep_view().take(i as int) =~= pieces.deep_view());
    out
}

/// Paints every span of a line.
pub fn paint_line(line: &Vec<Span>) -> (pieces: Vec<String>)
    ensures
        paints(pieces.deep_view(), line.deep_view()),
{
    let mut pieces: Vec<String> = Vec::new();
    let mut i: usize = 0;
    while i < line.len()
        invariant
            0 <= i <= line.len(),
            pieces.len() == i,
            forall|j: int|
                0 <= j < i ==> is_painted(#[trigger] pieces[j]@, line[j].text@, line[j].style),
        decreases line.len() - i,
    {
        let piece = paint(line[i].text.as_str(), line[i].style);
        pieces.push(piece);
        i = i + 1;
    }
    pieces
}

/// Renders a line: paints its spans and joins them.
pub fn render_line(line: &Vec<Span>) -> (out: String)
    ensures
        is_rendering(out@, line.deep_view()),
{
    let pieces = paint_line(line);
    join(&pieces)
}

/// Renders every line of a stream.
pub fn render_lines(lines: &Vec<Vec<Span>>) -> (out: Vec<String>)
    ensures
        are_renderings(out.deep_view(), lines.deep_view()),
{
    let mut out: Vec<String> = Vec::new();
    let mut i: usize = 0;
    while i < lines.len()
        invariant
            0 <= i <= lines.len(),
            out.len() == i,
            forall|j: int| 0 <= j < i ==> is_rendering(#[trigger] out[j]@, lines[j].deep_view()),
        decreases lines.len() - i,
    {
        let text = render_line(&lines[i]);
        out.push(text);
        i = i + 1;
    }
    out
}

/// Renders a screen: every line of both streams.
pub fn render(screen: &Screen) -> (output: Output)
    ensures
        is_rendered(output@, screen@),
{
    Output {
        error_stream: render_lines(&screen.error_stream),
        standard_stream: render_lines(&screen.standard_stream),
    }
}

} // verus!
