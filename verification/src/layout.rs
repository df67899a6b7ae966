//! What the screen shows besides the log: the header line, the height of the
//! area below the log, and which matches of the finder are in view.
use crate::command_tree::utf8_len;
use crate::model::{Model, State};
use crate::prompt::fuzzy_of;
use crate::styled::{SpanView, StyledSpan, TextColor, spans_view};
use vstd::prelude::*;
use vstd::utf8::{encode_scalar, encode_utf8};

verus! {

broadcast use vstd::string::group_string_axioms;

/// The spans of the header: the repository and the revset, and a warning
/// where immutable revisions may be rewritten.
pub open spec fn header_view(m: Model) -> Seq<SpanView> {
    seq![
        SpanView { content: "repository: "@, color: Some(TextColor::Blue) },
        SpanView { content: m.display_repository@, color: Some(TextColor::Green) },
        SpanView { content: "  "@, color: None },
        SpanView { content: "revset: "@, color: Some(TextColor::Blue) },
        SpanView { content: m.revset@, color: Some(TextColor::Green) },
    ] + if m.global_args.ignore_immutable {
        seq![SpanView { content: "  --ignore-immutable"@, color: Some(TextColor::LightRed) }]
    } else {
        Seq::empty()
    }
}

/// The spans of the header line.
pub fn render_header(model: &Model) -> (spans: Vec<StyledSpan>)
    ensures
        spans_view(spans@) == header_view(*model),
{
    let mut spans: Vec<StyledSpan> = Vec::new();
    spans.push(StyledSpan::styled(String::from_str("repository: "), TextColor::Blue));
    spans.push(StyledSpan::styled(model.display_repository.clone(), TextColor::Green));
    spans.push(StyledSpan::raw(String::from_str("  ")));
    spans.push(StyledSpan::styled(String::from_str("revset: "), TextColor::Blue));
    spans.push(StyledSpan::styled(model.revset.clone(), TextColor::Green));
    if model.global_args.ignore_immutable {
        spans.push(StyledSpan::styled(String::from_str("  --ignore-immutable"), TextColor::LightRed));
    }
    assert(spans_view(spans@) =~= header_view(*model));
    spans
}

/// A count as a `u16` holds it: its value modulo 2^16.
pub open spec fn as_u16(n: int) -> int {
    n % 65536
}

/// The height of the area below the log, in a terminal `area_height` rows
/// high: for a prompt, three rows, one more per match and one for a divider
/// where there are matches, at most half the terminal; for the info area,
/// its lines and two; else none. The counts are `u16` sums that wrap.
pub open spec fn bottom_height(m: Model, area_height: int) -> int {
    if m.state == State::EnteringText {
        let matches = match fuzzy_of(m) {
            Some(f) => as_u16(f.filtered.len() as int),
            None => 0,
        };
        let divider = if matches > 0 {
            1int
        } else {
            0
        };
        let base = as_u16(3 + matches + divider);
        if base < area_height / 2 {
            base
        } else {
            area_height / 2
        }
    } else {
        match m.info_list {
            Some(lines) => as_u16(as_u16(lines.len() as int) + 2),
            None => 0,
        }
    }
}

/// A `usize` count as a `u16`.
fn count_as_u16(n: usize) -> (r: u16)
    ensures
        r == as_u16(n as int),
{
    let r = (n % 65536) as u16;
    r
}

/// The height of the area below the log, as [`bottom_height`] says.
pub fn render_bottom_height(model: &Model, area_height: u16) -> (h: u16)
    ensures
        h == bottom_height(*model, area_height as int),
{
    if model.state == State::EnteringText {
        let matches: u16 = match &model.text_input {
            Some(s) => match &s.fuzzy {
                Some(f) => count_as_u16(f.filtered.len()),
                None => 0,
            },
            None => 0,
        };
        let divider: u16 = if matches > 0 {
            1
        } else {
            0
        };
        let base = count_as_u16(3 + matches as usize + divider as usize);
        let half = area_height / 2;
        if base < half {
            base
        } else {
            half
        }
    } else {
        match &model.info_list {
            Some(lines) => count_as_u16(count_as_u16(lines.len()) as usize + 2),
            None => 0,
        }
    }
}

/// The matches in view, from `start` to before `end`, of `total` matches in
/// `visible` rows with match `selected` selected: the last ones, or from the
/// selected one where it is above them.
pub open spec fn fuzzy_window(selected: int, total: int, visible: int) -> (int, int) {
    let default_start = if total > visible {
        total - visible
    } else {
        0
    };
    let start = if selected < default_start {
        selected
    } else {
        default_start
    };
    (start, if start + visible < total { start + visible } else { total })
}

/// The matches in view, as [`fuzzy_window`] says.
pub fn fuzzy_window_range(selected: usize, total: usize, visible: usize) -> (r: (usize, usize))
    ensures
        (r.0 as int, r.1 as int) == fuzzy_window(selected as int, total as int, visible as int),
        selected <= total ==> r.0 <= r.1 <= total,
{
    let default_start = total.saturating_sub(visible);
    let start = if selected < default_start {
        selected
    } else {
        default_start
    };
    let end = if visible < total - start {
        start + visible
    } else {
        total
    };
    (start, end)
}


/// A piece of a finder match's text, and whether the query matched it.
#[derive(Debug)]
pub struct Segment {
    pub text: String,
    pub matched: bool,
}

/// The plain-value view of a segment.
pub struct SegmentView {
    pub text: Seq<char>,
    pub matched: bool,
}

impl View for Segment {
    type V = SegmentView;

    open spec fn view(&self) -> SegmentView {
        SegmentView { text: self.text@, matched: self.matched }
    }
}

/// The segments of `text` up to the first `k` matched positions, and where
/// the last matched character ends: each position past the text is
/// skipped; the text since the last match, where there is any, is an
/// unmatched segment, and the character at the position a matched one.
pub open spec fn segments_upto(text: Seq<char>, positions: Seq<usize>, k: int) -> (Seq<SegmentView>, int)
    decreases k,
{
    if k <= 0 {
        (Seq::empty(), 0)
    } else {
        let (segs, last_end) = segments_upto(text, positions, k - 1);
        let pos = positions[k - 1] as int;
        if pos >= text.len() {
            (segs, last_end)
        } else {
            let before = if pos > last_end {
                segs.push(SegmentView { text: text.subrange(last_end, pos), matched: false })
            } else {
                segs
            };
            (before.push(SegmentView { text: text.subrange(pos, pos + 1), matched: true }), pos + 1)
        }
    }
}

/// The segments of `text` with the characters at `positions` matched, the
/// rest of the text after the last match unmatched.
pub open spec fn highlight_view(text: Seq<char>, positions: Seq<usize>) -> Seq<SegmentView> {
    let (segs, last_end) = segments_upto(text, positions, positions.len() as int);
    if last_end < text.len() {
        segs.push(SegmentView { text: text.subrange(last_end, text.len() as int), matched: false })
    } else {
        segs
    }
}

/// Where the last matched character ends lies within the text.
proof fn lemma_segments_end_in_text(text: Seq<char>, positions: Seq<usize>, k: int)
    requires
        0 <= k <= positions.len(),
    ensures
        0 <= segments_upto(text, positions, k).1 <= text.len(),
    decreases k,
{
    if k > 0 {
        lemma_segments_end_in_text(text, positions, k - 1);
    }
}

/// The text cut at the characters at `positions`, character indices: those
/// characters are matched segments, the text between them unmatched ones.
fn highlight_char_segments(text: &str, positions: &Vec<usize>) -> (r: Vec<Segment>)
    ensures
        r@.map_values(|s: Segment| s@) == highlight_view(text@, positions@),
{
    let len = text.unicode_len();
    let mut r: Vec<Segment> = Vec::new();
    let mut last_end: usize = 0;
    for k in 0..positions.len()
        invariant
            len == text@.len(),
            (r@.map_values(|s: Segment| s@), last_end as int) == segments_upto(text@, positions@, k as int),
            last_end <= len,
    {
        proof {
            lemma_segments_end_in_text(text@, positions@, k as int);
        }
        let pos = positions[k];
        let ghost before = r@.map_values(|s: Segment| s@);
        if pos < len {
            if pos > last_end {
                let piece = text.substring_char(last_end, pos);
                r.push(Segment { text: String::from_str(piece), matched: false });
            }
            let ghost middle = r@.map_values(|s: Segment| s@);
            let ch = text.substring_char(pos, pos + 1);
            r.push(Segment { text: String::from_str(ch), matched: true });
            assert(r@.map_values(|s: Segment| s@) =~= middle.push(
                SegmentView { text: text@.subrange(pos as int, pos + 1), matched: true },
            ));
            last_end = pos + 1;
        }
        assert(r@.map_values(|s: Segment| s@) =~= segments_upto(text@, positions@, k + 1).0);
    }
    if last_end < len {
        let rest = text.substring_char(last_end, len);
        r.push(Segment { text: String::from_str(rest), matched: false });
    }
    assert(r@.map_values(|s: Segment| s@) =~= highlight_view(text@, positions@));
    r
}


/// The bytes that the first `i` characters of `t` take in UTF-8.
pub open spec fn byte_offset(t: Seq<char>, i: int) -> int {
    encode_utf8(t.take(i)).len() as int
}

/// A character of `t` starts at byte `b`, or `b` is where `t` ends.
pub open spec fn is_char_start(t: Seq<char>, b: int) -> bool {
    exists|i: int| 0 <= i <= t.len() && byte_offset(t, i) == b
}

/// The index of the character of `t` that starts at byte `b`; the number of
/// characters where none does.
pub open spec fn char_index_at(t: Seq<char>, b: int) -> int {
    if is_char_start(t, b) {
        choose|i: int| 0 <= i <= t.len() && byte_offset(t, i) == b
    } else {
        t.len() as int
    }
}

/// Byte positions in `t`, each as the index of the character that starts
/// there.
pub open spec fn char_positions(t: Seq<char>, positions: Seq<usize>) -> Seq<usize> {
    positions.map_values(|b: usize| char_index_at(t, b as int) as usize)
}

/// The encoding of two sequences of characters, one after the other, is the
/// encoding of the first followed by that of the second.
proof fn lemma_encode_concat(a: Seq<char>, b: Seq<char>)
    ensures
        encode_utf8(a + b) == encode_utf8(a) + encode_utf8(b),
    decreases a.len(),
{
    if a.len() == 0 {
        assert(a + b =~= b);
        assert(encode_utf8(a) + encode_utf8(b) =~= encode_utf8(b));
    } else {
        lemma_encode_concat(a.drop_first(), b);
        assert((a + b).drop_first() =~= a.drop_first() + b);
        assert((a + b)[0] == a[0]);
        assert(encode_utf8(a + b) =~= encode_scalar(a[0] as u32) + (encode_utf8(a.drop_first()) + encode_utf8(b)));
    }
}

/// A character takes one to four bytes past the ones before it.
proof fn lemma_byte_offset_step(t: Seq<char>, i: int)
    requires
        0 <= i < t.len(),
    ensures
        byte_offset(t, i + 1) == byte_offset(t, i) + encode_scalar(t[i] as u32).len(),
        1 <= encode_scalar(t[i] as u32).len() <= 4,
{
    assert(t.take(i + 1) =~= t.take(i) + seq![t[i]]);
    lemma_encode_concat(t.take(i), seq![t[i]]);
    let one = seq![t[i]];
    assert(one[0] == t[i]);
    assert(one.drop_first() =~= Seq::<char>::empty());
    assert(encode_utf8(one.drop_first()).len() == 0);
    assert(encode_utf8(one) =~= encode_scalar(t[i] as u32));
}

/// Later characters start at later bytes.
proof fn lemma_byte_offset_increases(t: Seq<char>, i: int, j: int)
    requires
        0 <= i < j <= t.len(),
    ensures
        byte_offset(t, i) < byte_offset(t, j),
    decreases j - i,
{
    lemma_byte_offset_step(t, j - 1);
    if i < j - 1 {
        lemma_byte_offset_increases(t, i, j - 1);
    }
}

/// The bytes that `c` takes in UTF-8.
fn utf8_width(c: char) -> (n: usize)
    ensures
        n == encode_scalar(c as u32).len(),
{
    proof {
        vstd::utf8::char_is_scalar(c);
    }
    let v = c as u32;
    if v <= 0x7F {
        1
    } else if v <= 0x7FF {
        2
    } else if v <= 0xFFFF {
        3
    } else {
        4
    }
}

/// The byte at which each character of `text` starts, and the end.
fn char_starts(text: &str) -> (starts: Vec<usize>)
    ensures
        starts.len() == text@.len() + 1,
        forall|i: int| 0 <= i <= text@.len() ==> starts[i] == byte_offset(text@, i),
{
    let n = text.unicode_len();
    let total = utf8_len(text);
    proof {
        assert(text@.take(n as int) =~= text@);
    }
    let mut starts: Vec<usize> = Vec::new();
    let mut offset: usize = 0;
    starts.push(0);
    assert(text@.take(0) =~= Seq::<char>::empty());
    for i in 0..n
        invariant
            n == text@.len(),
            total == byte_offset(text@, n as int),
            starts.len() == i + 1,
            offset == byte_offset(text@, i as int),
            forall|j: int| 0 <= j <= i ==> starts[j] == byte_offset(text@, j),
    {
        let c = text.get_char(i);
        proof {
            lemma_byte_offset_step(text@, i as int);
            if i + 1 < n {
                lemma_byte_offset_increases(text@, i + 1, n as int);
            }
        }
        offset = offset + utf8_width(c);
        starts.push(offset);
    }
    starts
}

/// The index of the character of `t` that starts at byte `b`, with `starts`
/// the bytes at which its characters start and its end.
fn char_index_of_byte(starts: &Vec<usize>, b: usize, Ghost(t): Ghost<Seq<char>>) -> (i: usize)
    requires
        starts.len() == t.len() + 1,
        forall|j: int| 0 <= j <= t.len() ==> starts[j] == byte_offset(t, j),
    ensures
        i == char_index_at(t, b as int),
{
    let n = starts.len() - 1;
    for j in 0..starts.len()
        invariant
            n == t.len(),
            starts.len() == t.len() + 1,
            forall|k: int| 0 <= k <= t.len() ==> starts[k] == byte_offset(t, k),
            forall|k: int| 0 <= k < j ==> byte_offset(t, k) != b,
    {
        if starts[j] == b {
            proof {
                assert(byte_offset(t, j as int) == b);
                assert(is_char_start(t, b as int));
                let c = choose|c: int| 0 <= c <= t.len() && byte_offset(t, c) == b;
                if c < j {
                    lemma_byte_offset_increases(t, c, j as int);
                } else if c > j {
                    lemma_byte_offset_increases(t, j as int, c);
                }
            }
            return j;
        }
    }
    proof {
        assert(!is_char_start(t, b as int));
    }
    n
}

/// The text of a finder match cut where the query matched it: the
/// characters that start at the byte `positions` are matched segments, the
/// text between them unmatched ones. A position past the text is passed over;
/// one inside it is where a character starts.
pub fn highlight_segments(text: &str, positions: &[usize]) -> (r: Vec<Segment>)
    requires
        forall|k: int|
            0 <= k < positions.len() && positions[k] < encode_utf8(text@).len() ==> is_char_start(
                text@,
                positions[k] as int,
            ),
    ensures
        r@.map_values(|s: Segment| s@) == highlight_view(text@, char_positions(text@, positions@)),
{
    let starts = char_starts(text);
    let mut chars: Vec<usize> = Vec::new();
    for k in 0..positions.len()
        invariant
            starts.len() == text@.len() + 1,
            forall|j: int| 0 <= j <= text@.len() ==> starts[j] == byte_offset(text@, j),
            chars@ == char_positions(text@, positions@.take(k as int)),
    {
        let i = char_index_of_byte(&starts, positions[k], Ghost(text@));
        chars.push(i);
        assert(char_positions(text@, positions@.take(k + 1)) =~= char_positions(text@, positions@.take(k as int)).push(i));
    }
    assert(positions@.take(positions.len() as int) =~= positions@);
    highlight_char_segments(text, &chars)
}

/// The text of segments, one after another.
pub open spec fn segments_text(segs: Seq<SegmentView>) -> Seq<char>
    decreases segs.len(),
{
    if segs.len() == 0 {
        Seq::empty()
    } else {
        segments_text(segs.drop_last()) + segs.last().text
    }
}

/// The segments up to the `k`th position spell the text up to where the
/// last of them ends, where the positions increase and lie in the text.
proof fn lemma_segments_upto_spell(text: Seq<char>, positions: Seq<usize>, k: int)
    requires
        0 <= k <= positions.len(),
        forall|i: int, j: int| 0 <= i < j < positions.len() ==> positions[i] < positions[j],
        forall|i: int| 0 <= i < positions.len() ==> positions[i] < text.len(),
    ensures
        segments_text(segments_upto(text, positions, k).0) == text.take(segments_upto(text, positions, k).1),
        k > 0 ==> segments_upto(text, positions, k).1 == positions[k - 1] + 1,
    decreases k,
{
    if k > 0 {
        lemma_segments_upto_spell(text, positions, k - 1);
        lemma_segments_end_in_text(text, positions, k - 1);
        let (segs, last_end) = segments_upto(text, positions, k - 1);
        let pos = positions[k - 1] as int;
        if k > 1 {
            assert(positions[k - 2] < positions[k - 1]);
        }
        assert(pos >= last_end);
        let before = if pos > last_end {
            segs.push(SegmentView { text: text.subrange(last_end, pos), matched: false })
        } else {
            segs
        };
        assert(segments_text(before) == text.take(pos)) by {
            if pos > last_end {
                assert(before.drop_last() =~= segs);
                assert(text.take(last_end) + text.subrange(last_end, pos) =~= text.take(pos));
            } else {
                assert(text.take(last_end) =~= text.take(pos));
            }
        }
        let after = before.push(SegmentView { text: text.subrange(pos, pos + 1), matched: true });
        assert(after.drop_last() =~= before);
        assert(text.take(pos) + text.subrange(pos, pos + 1) =~= text.take(pos + 1));
    }
}

/// A highlighted match shows its whole text, cut into segments, where the
/// matched positions increase and lie in the text.
pub proof fn lemma_highlight_spells_text(text: Seq<char>, positions: Seq<usize>)
    requires
        forall|i: int, j: int| 0 <= i < j < positions.len() ==> positions[i] < positions[j],
        forall|i: int| 0 <= i < positions.len() ==> positions[i] < text.len(),
    ensures
        segments_text(highlight_view(text, positions)) == text,
{
    let k = positions.len() as int;
    lemma_segments_upto_spell(text, positions, k);
    lemma_segments_end_in_text(text, positions, k);
    let (segs, last_end) = segments_upto(text, positions, k);
    if last_end < text.len() {
        let all = segs.push(SegmentView { text: text.subrange(last_end, text.len() as int), matched: false });
        assert(all.drop_last() =~= segs);
        assert(text.take(last_end) + text.subrange(last_end, text.len() as int) =~= text);
    } else {
        assert(text.take(last_end) =~= text);
    }
}

/// How a span of a finder's row is shown.
#[derive(Debug, Clone, Copy, PartialEq, Eq, Structural)]
pub enum SpanRole {
    /// The selection indicator: the highlight colour, bold.
    Indicator,
    /// Unstyled.
    Plain,
    /// Text that the query matched: the highlight colour, bold, on the row's
    /// style.
    Matched,
    /// The rest of the text, in the row's style.
    Base,
}

/// A span of a finder's row: its text and how it is shown.
#[derive(Debug)]
pub struct RowSpan {
    pub text: String,
    pub role: SpanRole,
}

/// The plain-value view of a row span.
pub struct RowSpanView {
    pub text: Seq<char>,
    pub role: SpanRole,
}

impl View for RowSpan {
    type V = RowSpanView;

    open spec fn view(&self) -> RowSpanView {
        RowSpanView { text: self.text@, role: self.role }
    }
}

/// The span that a segment of the text becomes.
pub open spec fn segment_span(s: SegmentView) -> RowSpanView {
    RowSpanView { text: s.text, role: if s.matched { SpanRole::Matched } else { SpanRole::Base } }
}

/// The spans of a finder's row for a candidate shown as `text`, matched at
/// the byte `positions`: first `> ` as the indicator where the row is
/// selected, else two unstyled spaces; then the segments of the text, matched
/// or in the row's style.
pub open spec fn highlighted_row_view(text: Seq<char>, positions: Seq<usize>, is_selected: bool) -> Seq<
    RowSpanView,
> {
    seq![
        if is_selected {
            RowSpanView { text: "> "@, role: SpanRole::Indicator }
        } else {
            RowSpanView { text: "  "@, role: SpanRole::Plain }
        },
    ] + highlight_view(text, char_positions(text, positions)).map_values(|s: SegmentView| segment_span(s))
}

/// The spans of a finder's row for a candidate shown as `text`, matched at
/// the byte `positions`, selected where `is_selected` says.
pub fn highlighted_row(text: &str, positions: &[usize], is_selected: bool) -> (r: Vec<RowSpan>)
    requires
        forall|k: int|
            0 <= k < positions.len() && positions[k] < encode_utf8(text@).len() ==> is_char_start(
                text@,
                positions[k] as int,
            ),
    ensures
        r@.map_values(|s: RowSpan| s@) == highlighted_row_view(text@, positions@, is_selected),
{
    let mut r: Vec<RowSpan> = Vec::new();
    if is_selected {
        r.push(RowSpan { text: String::from_str("> "), role: SpanRole::Indicator });
    } else {
        r.push(RowSpan { text: String::from_str("  "), role: SpanRole::Plain });
    }
    let segments = highlight_segments(text, positions);
    let ghost segs = segments@.map_values(|s: Segment| s@);
    let ghost first = r@.map_values(|s: RowSpan| s@);
    let mut k: usize = 0;
    let n = segments.len();
    for s in it: segments.into_iter()
        invariant
            n == segs.len(),
            k == it.index(),
            it.seq().map_values(|s: Segment| s@) == segs,
            r@.map_values(|s: RowSpan| s@) == first + segs.take(k as int).map_values(|s: SegmentView| segment_span(s)),
    {
        let ghost before = r@.map_values(|s: RowSpan| s@);
        let ghost sv = s@;
        assert(sv == segs[k as int]);
        let role = if s.matched { SpanRole::Matched } else { SpanRole::Base };
        r.push(RowSpan { text: s.text, role });
        assert(r@.map_values(|s: RowSpan| s@) =~= before.push(segment_span(sv)));
        assert(segs.take(k + 1).map_values(|s: SegmentView| segment_span(s)) =~= segs.take(k as int).map_values(
            |s: SegmentView| segment_span(s),
        ).push(segment_span(sv)));
        assert(r@.map_values(|s: RowSpan| s@) =~= first + segs.take(k + 1).map_values(|s: SegmentView| segment_span(s)));
        k = k + 1;
    }
    assert(segs.take(n as int) =~= segs);
    r
}

/// The text of row spans, one after another.
pub open spec fn row_text(spans: Seq<RowSpanView>) -> Seq<char>
    decreases spans.len(),
{
    if spans.len() == 0 {
        Seq::empty()
    } else {
        row_text(spans.drop_last()) + spans.last().text
    }
}

/// The spans of segments spell what the segments spell.
proof fn lemma_row_text_of_segments(segs: Seq<SegmentView>)
    ensures
        row_text(segs.map_values(|s: SegmentView| segment_span(s))) == segments_text(segs),
    decreases segs.len(),
{
    if segs.len() > 0 {
        lemma_row_text_of_segments(segs.drop_last());
        assert(segs.map_values(|s: SegmentView| segment_span(s)).drop_last() =~= segs.drop_last().map_values(
            |s: SegmentView| segment_span(s),
        ));
    }
}

/// No segment up to the `k`th position is empty.
proof fn lemma_segments_upto_nonempty(text: Seq<char>, positions: Seq<usize>, k: int)
    requires
        0 <= k <= positions.len(),
    ensures
        forall|i: int|
            0 <= i < segments_upto(text, positions, k).0.len() ==> (#[trigger] segments_upto(
                text,
                positions,
                k,
            ).0[i]).text.len() > 0,
    decreases k,
{
    if k > 0 {
        lemma_segments_upto_nonempty(text, positions, k - 1);
        lemma_segments_end_in_text(text, positions, k - 1);
        let (segs, last_end) = segments_upto(text, positions, k - 1);
        let pos = positions[k - 1] as int;
        if pos < text.len() {
            let before = if pos > last_end {
                segs.push(SegmentView { text: text.subrange(last_end, pos), matched: false })
            } else {
                segs
            };
            assert forall|i: int| 0 <= i < before.len() implies (#[trigger] before[i]).text.len() > 0 by {
                if i < segs.len() {
                    assert(before[i] == segs[i]);
                }
            }
            let after = before.push(SegmentView { text: text.subrange(pos, pos + 1), matched: true });
            assert forall|i: int| 0 <= i < after.len() implies (#[trigger] after[i]).text.len() > 0 by {
                if i < before.len() {
                    assert(after[i] == before[i]);
                }
            }
        }
    }
}

/// Byte positions that increase and start characters within `t` give
/// character indices that increase and lie within `t`.
proof fn lemma_char_positions_increase(t: Seq<char>, positions: Seq<usize>)
    requires
        t.len() <= usize::MAX,
        forall|i: int, j: int| 0 <= i < j < positions.len() ==> positions[i] < positions[j],
        forall|k: int|
            0 <= k < positions.len() ==> positions[k] < encode_utf8(t).len() && is_char_start(
                t,
                #[trigger] positions[k] as int,
            ),
    ensures
        forall|i: int, j: int|
            0 <= i < j < positions.len() ==> char_positions(t, positions)[i] < char_positions(t, positions)[j],
        forall|k: int| 0 <= k < positions.len() ==> char_positions(t, positions)[k] < t.len(),
{
    assert(t.take(t.len() as int) =~= t);
    assert forall|k: int| 0 <= k < positions.len() implies char_positions(t, positions)[k] < t.len() && byte_offset(
        t,
        char_positions(t, positions)[k] as int,
    ) == positions[k] by {
        assert(is_char_start(t, positions[k] as int));
        let c = char_index_at(t, positions[k] as int);
        assert(0 <= c <= t.len() && byte_offset(t, c) == positions[k]);
        assert(byte_offset(t, t.len() as int) == encode_utf8(t).len());
        assert(c < t.len());
        assert(char_positions(t, positions)[k] == c as usize);
    }
    assert forall|i: int, j: int|
        0 <= i < j < positions.len() implies char_positions(t, positions)[i] < char_positions(t, positions)[j] by {
        let a = char_positions(t, positions)[i] as int;
        let b = char_positions(t, positions)[j] as int;
        assert(byte_offset(t, a) == positions[i]);
        assert(byte_offset(t, b) == positions[j]);
        if b < a {
            lemma_byte_offset_increases(t, b, a);
        }
    }
}

/// A finder's row starts with the indicator where it is selected, else with
/// unstyled spaces; its other spans, none of them empty, spell the
/// candidate's text, where the matched byte positions increase and each
/// starts a character of the text.
pub proof fn lemma_highlighted_row_spells_text(text: Seq<char>, positions: Seq<usize>, is_selected: bool)
    requires
        text.len() <= usize::MAX,
        forall|i: int, j: int| 0 <= i < j < positions.len() ==> positions[i] < positions[j],
        forall|k: int|
            0 <= k < positions.len() ==> positions[k] < encode_utf8(text).len() && is_char_start(
                text,
                #[trigger] positions[k] as int,
            ),
    ensures
        highlighted_row_view(text, positions, is_selected)[0].role == (if is_selected {
            SpanRole::Indicator
        } else {
            SpanRole::Plain
        }),
        row_text(highlighted_row_view(text, positions, is_selected).drop_first()) == text,
        forall|i: int|
            1 <= i < highlighted_row_view(text, positions, is_selected).len() ==> (
            #[trigger] highlighted_row_view(text, positions, is_selected)[i]).text.len() > 0,
{
    let cps = char_positions(text, positions);
    lemma_char_positions_increase(text, positions);
    lemma_highlight_spells_text(text, cps);
    let segs = highlight_view(text, cps);
    let spans = segs.map_values(|s: SegmentView| segment_span(s));
    lemma_row_text_of_segments(segs);
    let r = highlighted_row_view(text, positions, is_selected);
    assert(r.drop_first() =~= spans);
    let k = cps.len() as int;
    lemma_segments_upto_nonempty(text, cps, k);
    lemma_segments_end_in_text(text, cps, k);
    assert forall|i: int| 1 <= i < r.len() implies (#[trigger] r[i]).text.len() > 0 by {
        assert(r[i] == spans[i - 1]);
        let (su, last_end) = segments_upto(text, cps, k);
        if i - 1 < su.len() {
            assert(segs[i - 1] == su[i - 1]);
        }
    }
}

} // verus!
