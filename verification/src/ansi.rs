//! The ANSI escape sequences in what a command printed on the terminal that
//! do more than set styles: control sequences other than "select graphic
//! rendition" (cursor movement, erasure), operating system commands and
//! device control strings. Colour and style sequences stay.
use crate::keys::push_char;
use crate::text::chars_of;
use vstd::prelude::*;

verus! {

/// A parameter character of a control sequence: a digit, `;` or `?`.
pub open spec fn is_csi_param(c: char) -> bool {
    ('0' <= c && c <= '9') || c == ';' || c == '?'
}

/// An intermediate character of a control sequence: space through `/`.
pub open spec fn is_csi_intermediate(c: char) -> bool {
    ' ' <= c && c <= '/'
}

/// A final character of a control sequence that does more than set styles:
/// `@` through `~`, but for `m`.
pub open spec fn is_non_style_final(c: char) -> bool {
    '@' <= c && c <= '~' && c != 'm'
}

/// Where the run of parameter characters of `t` that starts at `i` ends.
pub open spec fn params_end(t: Seq<char>, i: int) -> int
    decreases t.len() - i,
{
    if 0 <= i < t.len() && is_csi_param(t[i]) {
        params_end(t, i + 1)
    } else {
        i
    }
}

/// Where the run of intermediate characters of `t` that starts at `i` ends.
pub open spec fn intermediates_end(t: Seq<char>, i: int) -> int
    decreases t.len() - i,
{
    if 0 <= i < t.len() && is_csi_intermediate(t[i]) {
        intermediates_end(t, i + 1)
    } else {
        i
    }
}

/// Where a string of `t` whose text starts at `i` ends: just past the first
/// string terminator `ESC \`, or the first BEL where `bel` allows one. There
/// is no end where a line break or the end of `t` comes first.
pub open spec fn string_end(t: Seq<char>, i: int, bel: bool) -> Option<int>
    decreases t.len() - i,
{
    if i < 0 || i >= t.len() {
        None
    } else if bel && t[i] == '\u{7}' {
        Some(i + 1)
    } else if t[i] == '\u{1b}' && i + 1 < t.len() && t[i + 1] == '\\' {
        Some(i + 2)
    } else if t[i] == '\n' {
        None
    } else {
        string_end(t, i + 1, bel)
    }
}

/// Where the escape sequence at `i` of `t` that does more than set styles
/// ends, where one starts there:
/// - `ESC [`, parameters, intermediates, and a final character other than
///   `m`;
/// - `ESC ]` up to the first BEL or `ESC \`;
/// - `ESC P` up to the first `ESC \`;
/// the last two within a line.
pub open spec fn non_style_escape_end(t: Seq<char>, i: int) -> Option<int> {
    if 0 <= i && i + 1 < t.len() && t[i] == '\u{1b}' {
        if t[i + 1] == '[' {
            let f = intermediates_end(t, params_end(t, i + 2));
            if f < t.len() && is_non_style_final(t[f]) {
                Some(f + 1)
            } else {
                None
            }
        } else if t[i + 1] == ']' {
            string_end(t, i + 2, true)
        } else if t[i + 1] == 'P' {
            string_end(t, i + 2, false)
        } else {
            None
        }
    } else {
        None
    }
}

/// The runs of parameters and intermediates end at or after where they start.
proof fn lemma_runs_end_after(t: Seq<char>, i: int)
    ensures
        params_end(t, i) >= i,
        intermediates_end(t, i) >= i,
    decreases t.len() - i,
{
    if 0 <= i < t.len() {
        lemma_runs_end_after(t, i + 1);
    }
}

/// A string ends past where its text starts, within `t`.
proof fn lemma_string_end_after(t: Seq<char>, i: int, bel: bool)
    ensures
        string_end(t, i, bel) matches Some(e) ==> i < e <= t.len(),
    decreases t.len() - i,
{
    if 0 <= i < t.len() {
        lemma_string_end_after(t, i + 1, bel);
    }
}

/// An escape sequence ends past where it starts, within `t`.
pub proof fn lemma_escape_end_after(t: Seq<char>, i: int)
    ensures
        non_style_escape_end(t, i) matches Some(e) ==> i < e <= t.len(),
{
    lemma_runs_end_after(t, i + 2);
    lemma_runs_end_after(t, params_end(t, i + 2));
    lemma_string_end_after(t, i + 2, true);
    lemma_string_end_after(t, i + 2, false);
}

/// `t` from `i` on, without the escape sequences that do more than set
/// styles: each is taken out where it starts, and the search goes on after
/// it.
pub open spec fn stripped_from(t: Seq<char>, i: int) -> Seq<char>
    decreases t.len() - i,
{
    if i < 0 || i >= t.len() {
        Seq::empty()
    } else {
        match non_style_escape_end(t, i) {
            Some(e) => {
                proof {
                    lemma_escape_end_after(t, i);
                }
                stripped_from(t, e)
            },
            None => seq![t[i]] + stripped_from(t, i + 1),
        }
    }
}

/// `t` without the escape sequences that do more than set styles.
pub open spec fn stripped(t: Seq<char>) -> Seq<char> {
    stripped_from(t, 0)
}

/// Whether `c` is a parameter character of a control sequence.
fn char_is_csi_param(c: char) -> (b: bool)
    ensures
        b == is_csi_param(c),
{
    ('0' <= c && c <= '9') || c == ';' || c == '?'
}

/// Whether `c` is an intermediate character of a control sequence.
fn char_is_csi_intermediate(c: char) -> (b: bool)
    ensures
        b == is_csi_intermediate(c),
{
    ' ' <= c && c <= '/'
}

/// Where the run of parameter characters of `t` from `i` ends.
fn find_params_end(t: &Vec<char>, i: usize) -> (j: usize)
    requires
        i <= t.len(),
    ensures
        j == params_end(t@, i as int),
        i <= j <= t.len(),
{
    let mut j = i;
    while j < t.len() && char_is_csi_param(t[j])
        invariant
            i <= j <= t.len(),
            params_end(t@, j as int) == params_end(t@, i as int),
        decreases t.len() - j,
    {
        j = j + 1;
    }
    j
}

/// Where the run of intermediate characters of `t` from `i` ends.
fn find_intermediates_end(t: &Vec<char>, i: usize) -> (j: usize)
    requires
        i <= t.len(),
    ensures
        j == intermediates_end(t@, i as int),
        i <= j <= t.len(),
{
    let mut j = i;
    while j < t.len() && char_is_csi_intermediate(t[j])
        invariant
            i <= j <= t.len(),
            intermediates_end(t@, j as int) == intermediates_end(t@, i as int),
        decreases t.len() - j,
    {
        j = j + 1;
    }
    j
}

/// Where a string of `t` whose text starts at `i` ends.
fn find_string_end(t: &Vec<char>, i: usize, bel: bool) -> (r: Option<usize>)
    requires
        i <= t.len(),
    ensures
        r matches Some(e) ==> string_end(t@, i as int, bel) == Some(e as int),
        r is None ==> string_end(t@, i as int, bel) is None,
{
    let mut j = i;
    while j < t.len()
        invariant
            i <= j <= t.len(),
            string_end(t@, j as int, bel) == string_end(t@, i as int, bel),
        decreases t.len() - j,
    {
        let c = t[j];
        if bel && c == '\u{7}' {
            return Some(j + 1);
        }
        if c == '\u{1b}' && j + 1 < t.len() && t[j + 1] == '\\' {
            return Some(j + 2);
        }
        if c == '\n' {
            return None;
        }
        j = j + 1;
    }
    None
}

/// Where the escape sequence at `i` of `t` that does more than set styles
/// ends, where one starts there.
fn find_escape_end(t: &Vec<char>, i: usize) -> (r: Option<usize>)
    requires
        i < t.len(),
    ensures
        r matches Some(e) ==> non_style_escape_end(t@, i as int) == Some(e as int),
        r is None ==> non_style_escape_end(t@, i as int) is None,
{
    if i + 1 >= t.len() || t[i] != '\u{1b}' {
        return None;
    }
    let next = t[i + 1];
    if next == '[' {
        let p = find_params_end(t, i + 2);
        let f = find_intermediates_end(t, p);
        if f < t.len() && '@' <= t[f] && t[f] <= '~' && t[f] != 'm' {
            Some(f + 1)
        } else {
            None
        }
    } else if next == ']' {
        find_string_end(t, i + 2, true)
    } else if next == 'P' {
        find_string_end(t, i + 2, false)
    } else {
        None
    }
}

/// `text` without the escape sequences that do more than set styles:
/// control sequences that end in anything but `m`, operating system commands
/// and device control strings.
pub fn strip_non_style_ansi(text: &str) -> (r: String)
    ensures
        r@ == stripped(text@),
{
    let t = chars_of(text);
    let mut r = String::new();
    let mut i: usize = 0;
    while i < t.len()
        invariant
            t@ == text@,
            i <= t.len(),
            r@ + stripped_from(t@, i as int) == stripped(t@),
        decreases t.len() - i,
    {
        proof {
            lemma_escape_end_after(t@, i as int);
        }
        match find_escape_end(&t, i) {
            Some(e) => {
                i = e;
            },
            None => {
                let ghost before = r@;
                push_char(&mut r, t[i]);
                assert(before + stripped_from(t@, i as int) == before + (seq![t@[i as int]] + stripped_from(
                    t@,
                    i + 1,
                )));
                assert(r@ + stripped_from(t@, i + 1) =~= before + (seq![t@[i as int]] + stripped_from(t@, i + 1)));
                i = i + 1;
            },
        }
    }
    assert(r@ + stripped_from(t@, i as int) =~= r@);
    r
}

} // verus!
