//! Styled text as the library hands it to the terminal: lines of spans, each
//! with an optional foreground colour, or lines that carry their own ANSI
//! colouring as `jj` printed it.
use vstd::prelude::*;

verus! {

/// The foreground colours the library gives its own text.
#[derive(Debug, Clone, Copy, PartialEq, Eq, Structural)]
pub enum TextColor {
    Yellow,
    Blue,
    Green,
    Red,
    LightRed,
}

/// A run of text in one colour, or in the terminal's default colour.
#[derive(Debug)]
pub struct StyledSpan {
    pub content: String,
    pub color: Option<TextColor>,
}

/// The plain-value view of a span.
pub struct SpanView {
    pub content: Seq<char>,
    pub color: Option<TextColor>,
}

impl View for StyledSpan {
    type V = SpanView;

    open spec fn view(&self) -> SpanView {
        SpanView { content: self.content@, color: self.color }
    }
}

impl StyledSpan {
    /// A span in the default colour.
    pub fn raw(content: String) -> (s: Self)
        ensures
            s@ == (SpanView { content: content@, color: None }),
    {
        StyledSpan { content, color: None }
    }

    /// A span in `color`.
    pub fn styled(content: String, color: TextColor) -> (s: Self)
        ensures
            s@ == (SpanView { content: content@, color: Some(color) }),
    {
        StyledSpan { content, color: Some(color) }
    }

    /// A copy of this span.
    pub fn duplicate(&self) -> (s: Self)
        ensures
            s@ == self@,
    {
        StyledSpan { content: self.content.clone(), color: self.color }
    }
}

/// One line of the text the library shows.
#[derive(Debug)]
pub enum StyledLine {
    /// A line of spans.
    Spans(Vec<StyledSpan>),
    /// A line as `jj` printed it, coloured by ANSI escape sequences.
    Ansi(String),
}

/// The plain-value view of a line.
pub enum LineView {
    Spans(Seq<SpanView>),
    Ansi(Seq<char>),
}

/// The views of `spans`.
pub open spec fn spans_view(spans: Seq<StyledSpan>) -> Seq<SpanView> {
    spans.map_values(|s: StyledSpan| s@)
}

impl View for StyledLine {
    type V = LineView;

    open spec fn view(&self) -> LineView {
        match self {
            StyledLine::Spans(spans) => LineView::Spans(spans_view(spans@)),
            StyledLine::Ansi(text) => LineView::Ansi(text@),
        }
    }
}

/// The views of `lines`.
pub open spec fn lines_view(lines: Seq<StyledLine>) -> Seq<LineView> {
    lines.map_values(|l: StyledLine| l@)
}

/// A copy of `spans`.
pub fn duplicate_spans(spans: &Vec<StyledSpan>) -> (r: Vec<StyledSpan>)
    ensures
        spans_view(r@) == spans_view(spans@),
{
    let mut r: Vec<StyledSpan> = Vec::new();
    for i in 0..spans.len()
        invariant
            r.len() == i,
            spans_view(r@) == spans_view(spans@.take(i as int)),
    {
        let ghost before = r@;
        r.push(spans[i].duplicate());
        assert forall|k: int| 0 <= k < i implies #[trigger] r@[k]@ == spans@[k]@ by {
            assert(before[k] == r@[k]);
            assert(spans_view(before)[k] == spans_view(spans@.take(i as int))[k]);
        }
        assert(spans_view(r@) =~= spans_view(spans@.take(i + 1)));
    }
    assert(spans@.take(spans.len() as int) =~= spans@);
    r
}

impl StyledLine {
    /// A line of no spans.
    pub fn empty() -> (l: Self)
        ensures
            l@ == LineView::Spans(seq![]),
    {
        let spans: Vec<StyledSpan> = Vec::new();
        assert(spans_view(spans@) =~= seq![]);
        StyledLine::Spans(spans)
    }

    /// A line of one unstyled span.
    pub fn raw(content: String) -> (l: Self)
        ensures
            l@ == LineView::Spans(seq![SpanView { content: content@, color: None }]),
    {
        let mut spans: Vec<StyledSpan> = Vec::new();
        spans.push(StyledSpan::raw(content));
        assert(spans_view(spans@) =~= seq![SpanView { content: content@, color: None }]);
        StyledLine::Spans(spans)
    }

    /// A copy of this line.
    pub fn duplicate(&self) -> (l: Self)
        ensures
            l@ == self@,
    {
        match self {
            StyledLine::Spans(spans) => StyledLine::Spans(duplicate_spans(spans)),
            StyledLine::Ansi(text) => StyledLine::Ansi(text.clone()),
        }
    }
}

/// A copy of `lines`.
pub fn duplicate_lines(lines: &Vec<StyledLine>) -> (r: Vec<StyledLine>)
    ensures
        lines_view(r@) == lines_view(lines@),
{
    let mut r: Vec<StyledLine> = Vec::new();
    for i in 0..lines.len()
        invariant
            r.len() == i,
            lines_view(r@) == lines_view(lines@.take(i as int)),
    {
        let ghost before = r@;
        r.push(lines[i].duplicate());
        assert forall|k: int| 0 <= k < i implies #[trigger] r@[k]@ == lines@[k]@ by {
            assert(before[k] == r@[k]);
            assert(lines_view(before)[k] == lines_view(lines@.take(i as int))[k]);
        }
        assert(lines_view(r@) =~= lines_view(lines@.take(i + 1)));
    }
    assert(lines@.take(lines.len() as int) =~= lines@);
    r
}

/// Appends `more` to `lines`.
pub fn extend_lines(lines: &mut Vec<StyledLine>, more: Vec<StyledLine>)
    ensures
        lines_view(final(lines)@) == lines_view(old(lines)@) + lines_view(more@),
{
    let mut more = more;
    let ghost added = more@;
    lines.append(&mut more);
    assert(lines_view(lines@) =~= lines_view(old(lines)@) + lines_view(added));
}


/// Lines that keep the colouring `jj` printed, one per line of `text`.
pub open spec fn ansi_lines(text: Seq<char>) -> Seq<LineView> {
    crate::text::lines(text).map_values(|l: Seq<char>| LineView::Ansi(l))
}

/// The lines of `text`, each keeping the colouring `jj` printed in it.
pub fn text_lines(text: &str) -> (r: Vec<StyledLine>)
    ensures
        lines_view(r@) == ansi_lines(text@),
{
    let parts = crate::text::split_lines(text);
    let mut r: Vec<StyledLine> = Vec::new();
    for i in 0..parts.len()
        invariant
            parts.deep_view() == crate::text::lines(text@),
            lines_view(r@) == parts.deep_view().take(i as int).map_values(|l: Seq<char>| LineView::Ansi(l)),
    {
        let ghost before = r@;
        let line = parts[i].clone();
        r.push(StyledLine::Ansi(line));
        assert(r@ =~= before.push(StyledLine::Ansi(line)));
        assert(lines_view(r@) =~= lines_view(before).push(LineView::Ansi(parts@[i as int]@)));
        assert(parts.deep_view().take(i + 1) =~= parts.deep_view().take(i as int).push(parts@[i as int]@));
        assert(lines_view(r@) =~= parts.deep_view().take(i + 1).map_values(|l: Seq<char>| LineView::Ansi(l)));
    }
    assert(parts.deep_view().take(parts.len() as int) =~= parts.deep_view());
    r
}

} // verus!
