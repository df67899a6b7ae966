//! Character-level helpers on strings: whitespace trimming, line splitting,
//! lexicographic order, and collecting sorted unique values.
use vstd::prelude::*;

verus! {

broadcast use vstd::string::group_string_axioms;

/// The characters that Unicode marks `White_Space`, the set `char::is_whitespace` tests.
pub open spec fn is_white_space(c: char) -> bool {
    ||| ('\u{9}' <= c && c <= '\u{d}')
    ||| c == ' '
    ||| c == '\u{85}'
    ||| c == '\u{a0}'
    ||| c == '\u{1680}'
    ||| ('\u{2000}' <= c && c <= '\u{200a}')
    ||| c == '\u{2028}'
    ||| c == '\u{2029}'
    ||| c == '\u{202f}'
    ||| c == '\u{205f}'
    ||| c == '\u{3000}'
}

/// Whether `c` is a Unicode whitespace character.
pub fn char_is_white_space(c: char) -> (b: bool)
    ensures
        b == is_white_space(c),
{
    ('\u{9}' <= c && c <= '\u{d}') || c == ' ' || c == '\u{85}' || c == '\u{a0}' || c
        == '\u{1680}' || ('\u{2000}' <= c && c <= '\u{200a}') || c == '\u{2028}' || c
        == '\u{2029}' || c == '\u{202f}' || c == '\u{205f}' || c == '\u{3000}'
}

/// The characters of `s`, in order.
pub fn chars_of(s: &str) -> (v: Vec<char>)
    ensures
        v@ == s@,
{
    let mut v: Vec<char> = Vec::new();
    let mut it = s.chars();
    loop
        invariant
            v@ + vstd::std_specs::iter::IteratorSpec::remaining(&it) == s@,
            vstd::std_specs::iter::IteratorSpec::decrease(&it) is Some,
        decreases vstd::std_specs::iter::IteratorSpec::decrease(&it)->0,
    {
        let ghost before = vstd::std_specs::iter::IteratorSpec::remaining(&it);
        match it.next() {
            Some(c) => {
                v.push(c);
                assert(v@ + vstd::std_specs::iter::IteratorSpec::remaining(&it) =~= s@) by {
                    assert(before == seq![c] + vstd::std_specs::iter::IteratorSpec::remaining(&it));
                }
            },
            None => {
                assert(v@ =~= s@);
                return v;
            },
        }
    }
}


/// `s` without its leading whitespace.
pub open spec fn trim_start(s: Seq<char>) -> Seq<char>
    decreases s.len(),
{
    if s.len() > 0 && is_white_space(s[0]) {
        trim_start(s.drop_first())
    } else {
        s
    }
}

/// `s` without its trailing whitespace.
pub open spec fn trim_end(s: Seq<char>) -> Seq<char>
    decreases s.len(),
{
    if s.len() > 0 && is_white_space(s.last()) {
        trim_end(s.drop_last())
    } else {
        s
    }
}

/// `s` without leading and trailing whitespace, as `str::trim` gives it.
pub open spec fn trim(s: Seq<char>) -> Seq<char> {
    trim_end(trim_start(s))
}

/// `s` with its leading and trailing whitespace removed.
pub fn trimmed(s: &str) -> (t: String)
    ensures
        t@ == trim(s@),
{
    let chars = chars_of(s);
    let len = chars.len();
    let mut lo: usize = 0;
    assert(s@.subrange(0, len as int) =~= s@);
    while lo < len && char_is_white_space(chars[lo])
        invariant
            chars@ == s@,
            len == s@.len(),
            lo <= len,
            trim_start(s@) == trim_start(s@.subrange(lo as int, len as int)),
        decreases len - lo,
    {
        assert(s@.subrange(lo as int, len as int).drop_first() =~= s@.subrange(
            lo + 1,
            len as int,
        ));
        lo = lo + 1;
    }
    assert(trim_start(s@) == s@.subrange(lo as int, len as int));
    let mut hi: usize = len;
    while hi > lo && char_is_white_space(chars[hi - 1])
        invariant
            chars@ == s@,
            len == s@.len(),
            lo <= hi <= len,
            trim(s@) == trim_end(s@.subrange(lo as int, hi as int)),
        decreases hi,
    {
        assert(s@.subrange(lo as int, hi as int).drop_last() =~= s@.subrange(
            lo as int,
            hi - 1,
        ));
        hi = hi - 1;
    }
    String::from_str(s.substring_char(lo, hi))
}

/// The completed lines of `s` and the line still open after its last character:
/// each newline closes the open line, dropping one carriage return before it.
pub open spec fn lines_fold(s: Seq<char>) -> (Seq<Seq<char>>, Seq<char>)
    decreases s.len(),
{
    if s.len() == 0 {
        (seq![], seq![])
    } else {
        let (done, open) = lines_fold(s.drop_last());
        if s.last() == '\n' {
            (done.push(strip_carriage_return(open)), seq![])
        } else {
            (done, open.push(s.last()))
        }
    }
}

/// `line` without one trailing carriage return.
pub open spec fn strip_carriage_return(line: Seq<char>) -> Seq<char> {
    if line.len() > 0 && line.last() == '\r' {
        line.drop_last()
    } else {
        line
    }
}

/// The lines of `s`, as `str::lines` yields them: split at `\n` or `\r\n`, with
/// the final line ending optional.
pub open spec fn lines(s: Seq<char>) -> Seq<Seq<char>> {
    let (done, open) = lines_fold(s);
    if open.len() > 0 {
        done.push(open)
    } else {
        done
    }
}

/// The lines of `s`.
pub fn split_lines(s: &str) -> (v: Vec<String>)
    ensures
        v.deep_view() == lines(s@),
{
    let chars = chars_of(s);
    let len = chars.len();
    let mut v: Vec<String> = Vec::new();
    let mut start: usize = 0;
    let mut i: usize = 0;
    while i < len
        invariant
            chars@ == s@,
            len == s@.len(),
            start <= i <= len,
            lines_fold(s@.take(i as int)) == (v.deep_view(), s@.subrange(start as int, i as int)),
        decreases len - i,
    {
        assert(s@.take(i + 1).drop_last() =~= s@.take(i as int));
        if chars[i] == '\n' {
            let end = if i > start && chars[i - 1] == '\r' {
                i - 1
            } else {
                i
            };
            let line = String::from_str(s.substring_char(start, end));
            v.push(line);
            assert(strip_carriage_return(s@.subrange(start as int, i as int)) =~= s@.subrange(
                start as int,
                end as int,
            ));
            assert(v.deep_view() =~= lines_fold(s@.take(i as int)).0.push(
                strip_carriage_return(s@.subrange(start as int, i as int)),
            ));
            start = i + 1;
        } else {
            assert(s@.subrange(start as int, i + 1) =~= s@.subrange(start as int, i as int).push(
                chars@[i as int],
            ));
        }
        i = i + 1;
        assert(s@.subrange(start as int, i as int) =~= s@.subrange(start as int, i as int));
    }
    assert(s@.take(len as int) =~= s@);
    if start < len {
        v.push(String::from_str(s.substring_char(start, len)));
        assert(v.deep_view() =~= lines(s@));
    }
    v
}


/// Lexicographic order on character sequences, comparing characters by code
/// point: the order of `str` and `String`, whose UTF-8 bytes order the same way.
pub open spec fn lex_lt(a: Seq<char>, b: Seq<char>) -> bool
    decreases a.len(),
{
    if a.len() == 0 {
        b.len() > 0
    } else if b.len() == 0 {
        false
    } else if a[0] != b[0] {
        a[0] < b[0]
    } else {
        lex_lt(a.drop_first(), b.drop_first())
    }
}

/// Every element of `s` is less than every later one.
pub open spec fn strictly_sorted(s: Seq<Seq<char>>) -> bool {
    forall|i: int, j: int| 0 <= i < j < s.len() ==> lex_lt(#[trigger] s[i], #[trigger] s[j])
}

/// No sequence is less than itself.
pub proof fn lemma_lex_irreflexive(a: Seq<char>)
    ensures
        !lex_lt(a, a),
    decreases a.len(),
{
    if a.len() > 0 {
        lemma_lex_irreflexive(a.drop_first());
    }
}

/// The order is transitive.
pub proof fn lemma_lex_transitive(a: Seq<char>, b: Seq<char>, c: Seq<char>)
    requires
        lex_lt(a, b),
        lex_lt(b, c),
    ensures
        lex_lt(a, c),
    decreases a.len(),
{
    if a.len() > 0 && b.len() > 0 && c.len() > 0 && a[0] == b[0] && b[0] == c[0] {
        lemma_lex_transitive(a.drop_first(), b.drop_first(), c.drop_first());
    }
}

/// Any two sequences are equal or ordered one way.
pub proof fn lemma_lex_total(a: Seq<char>, b: Seq<char>)
    ensures
        a == b || lex_lt(a, b) || lex_lt(b, a),
    decreases a.len(),
{
    if a.len() > 0 && b.len() > 0 && a[0] == b[0] {
        lemma_lex_total(a.drop_first(), b.drop_first());
        if a.drop_first() == b.drop_first() {
            assert(a =~= seq![a[0]] + a.drop_first());
            assert(b =~= seq![b[0]] + b.drop_first());
        }
    } else if a.len() == 0 && b.len() == 0 {
        assert(a =~= b);
    }
}

/// Whether `a` orders strictly before `b`.
pub fn chars_lt(a: &Vec<char>, b: &Vec<char>) -> (r: bool)
    ensures
        r == lex_lt(a@, b@),
{
    let mut i: usize = 0;
    assert(a@.skip(0) =~= a@ && b@.skip(0) =~= b@);
    while i < a.len() && i < b.len() && a[i] == b[i]
        invariant
            i <= a.len(),
            i <= b.len(),
            lex_lt(a@, b@) == lex_lt(a@.skip(i as int), b@.skip(i as int)),
        decreases a.len() - i,
    {
        assert(a@.skip(i as int).drop_first() =~= a@.skip(i + 1));
        assert(b@.skip(i as int).drop_first() =~= b@.skip(i + 1));
        i = i + 1;
    }
    if i == a.len() {
        i < b.len()
    } else if i == b.len() {
        false
    } else {
        a[i] < b[i]
    }
}

/// Whether `a` and `b` hold the same characters.
pub fn chars_eq(a: &Vec<char>, b: &Vec<char>) -> (r: bool)
    ensures
        r == (a@ == b@),
{
    if a.len() != b.len() {
        return false;
    }
    let mut i: usize = 0;
    while i < a.len()
        invariant
            a.len() == b.len(),
            i <= a.len(),
            forall|k: int| 0 <= k < i ==> a@[k] == b@[k],
        decreases a.len() - i,
    {
        if a[i] != b[i] {
            return false;
        }
        i = i + 1;
    }
    assert(a@ =~= b@);
    true
}

/// The distinct values of `values`, in increasing order: what sorting a
/// vector of strings and then removing adjacent duplicates leaves.
pub fn sorted_unique(values: Vec<String>) -> (r: Vec<String>)
    ensures
        strictly_sorted(r.deep_view()),
        forall|x: Seq<char>| r.deep_view().contains(x) <==> values.deep_view().contains(x),
{
    let mut r: Vec<String> = Vec::new();
    let mut keys: Vec<Vec<char>> = Vec::new();
    let n = values.len();
    for i in 0..n
        invariant
            n == values.len(),
            keys.len() == r.len(),
            forall|k: int| 0 <= k < r.len() ==> (#[trigger] keys@[k])@ == r@[k]@,
            strictly_sorted(r.deep_view()),
            forall|x: Seq<char>|
                r.deep_view().contains(x) <==> values.deep_view().take(i as int).contains(x),
    {
        let key = chars_of(values[i].as_str());
        let mut p: usize = 0;
        while p < keys.len() && chars_lt(&keys[p], &key)
            invariant
                keys.len() == r.len(),
                p <= keys.len(),
                forall|k: int| 0 <= k < p ==> lex_lt(#[trigger] keys@[k]@, key@),
            decreases keys.len() - p,
        {
            p = p + 1;
        }
        let ghost old_r = r.deep_view();
        assert forall|k: int| 0 <= k < p implies lex_lt(#[trigger] old_r[k], key@) by {
            assert(keys@[k]@ == r@[k]@);
        }
        let ghost prefix = values.deep_view().take(i as int);
        assert(values.deep_view()[i as int] == key@);
        assert(values.deep_view().take(i + 1) =~= prefix.push(key@));
        assert(forall|x: Seq<char>| #[trigger] prefix.push(key@).contains(x) <==> prefix.contains(x) || x == key@) by {
            assert forall|x: Seq<char>| #[trigger] prefix.push(key@).contains(x) implies prefix.contains(x) || x == key@ by {
                let k = choose|k: int| 0 <= k < prefix.len() + 1 && prefix.push(key@)[k] == x;
                if k < prefix.len() {
                    assert(prefix[k] == x);
                }
            }
            assert forall|x: Seq<char>| prefix.contains(x) || x == key@ implies #[trigger] prefix.push(key@).contains(x) by {
                if x == key@ {
                    assert(prefix.push(key@)[prefix.len() as int] == x);
                } else {
                    let k = choose|k: int| 0 <= k < prefix.len() && prefix[k] == x;
                    assert(prefix.push(key@)[k] == x);
                }
            }
        }
        if p < keys.len() && chars_eq(&keys[p], &key) {
            assert(old_r[p as int] == key@);
            assert forall|x: Seq<char>| r.deep_view().contains(x) <==> old_r.contains(x) || x
                == key@ by {
                if x == key@ {
                    assert(old_r[p as int] == x);
                }
            }
        } else {
            proof {
                if p < keys.len() {
                    lemma_lex_total(keys@[p as int]@, key@);
                }
            }
            r.insert(p, values[i].clone());
            keys.insert(p, key);
            assert(r.deep_view() =~= old_r.insert(p as int, key@));
            assert forall|a: int, b: int| 0 <= a < b < r.len() implies lex_lt(
                #[trigger] r.deep_view()[a],
                #[trigger] r.deep_view()[b],
            ) by {
                if b == p {
                    assert(lex_lt(old_r[a], key@));
                } else if a == p {
                    if b - 1 > p {
                        lemma_lex_transitive(key@, old_r[p as int], old_r[b - 1]);
                    }
                } else if a < p && b > p {
                    assert(lex_lt(old_r[a], key@));
                    if b - 1 > p {
                        lemma_lex_transitive(key@, old_r[p as int], old_r[b - 1]);
                    }
                    lemma_lex_transitive(old_r[a], key@, old_r[b - 1]);
                } else if a > p {
                    assert(lex_lt(old_r[a - 1], old_r[b - 1]));
                } else {
                    assert(lex_lt(old_r[a], old_r[b]));
                }
            }
            assert forall|x: Seq<char>| r.deep_view().contains(x) <==> old_r.contains(x) || x
                == key@ by {
                if r.deep_view().contains(x) {
                    let k = choose|k: int| 0 <= k < r.len() && r.deep_view()[k] == x;
                    if k < p {
                        assert(old_r[k] == x);
                    } else if k > p {
                        assert(old_r[k - 1] == x);
                    }
                }
                if old_r.contains(x) {
                    let k = choose|k: int| 0 <= k < old_r.len() && old_r[k] == x;
                    if k < p {
                        assert(r.deep_view()[k] == x);
                    } else {
                        assert(r.deep_view()[k + 1] == x);
                    }
                }
                if x == key@ {
                    assert(r.deep_view()[p as int] == x);
                }
            }
        }
        assert forall|x: Seq<char>| r.deep_view().contains(x) <==> values.deep_view().take(
            i + 1,
        ).contains(x) by {
            assert(old_r.contains(x) <==> prefix.contains(x));
            assert(prefix.push(key@).contains(x) <==> prefix.contains(x) || x == key@);
        }
    }
    assert(values.deep_view().take(n as int) =~= values.deep_view());
    r
}


/// The sequences of `parts` joined by `sep`.
pub open spec fn join(parts: Seq<Seq<char>>, sep: Seq<char>) -> Seq<char>
    decreases parts.len(),
{
    if parts.len() == 0 {
        seq![]
    } else if parts.len() == 1 {
        parts[0]
    } else {
        join(parts.drop_last(), sep) + sep + parts.last()
    }
}

/// `parts` joined by `sep`.
pub fn join_strings(parts: &Vec<String>, sep: &str) -> (r: String)
    ensures
        r@ == join(parts.deep_view(), sep@),
{
    let mut r = String::new();
    for i in 0..parts.len()
        invariant
            r@ == join(parts.deep_view().take(i as int), sep@),
    {
        assert(parts.deep_view().take(i + 1).drop_last() =~= parts.deep_view().take(i as int));
        if i > 0 {
            r.append(sep);
        }
        r.append(parts[i].as_str());
        assert(i == 0 ==> parts.deep_view().take(i + 1) =~= seq![parts[i as int]@]);
    }
    assert(parts.deep_view().take(parts.len() as int) =~= parts.deep_view());
    r
}


/// `s` without `prefix`, where it starts with it.
pub open spec fn strip_prefix(s: Seq<char>, prefix: Seq<char>) -> Option<Seq<char>> {
    if prefix.len() <= s.len() && s.take(prefix.len() as int) == prefix {
        Some(s.skip(prefix.len() as int))
    } else {
        None
    }
}

/// `s` without `prefix`, where it starts with it.
pub fn strip_prefix_of(s: &str, prefix: &str) -> (r: Option<String>)
    ensures
        r is Some == strip_prefix(s@, prefix@) is Some,
        r matches Some(t) ==> strip_prefix(s@, prefix@) == Some(t@),
{
    let sc = chars_of(s);
    let pc = chars_of(prefix);
    if pc.len() > sc.len() {
        return None;
    }
    let mut i: usize = 0;
    while i < pc.len()
        invariant
            pc@ == prefix@,
            sc@ == s@,
            pc.len() <= sc.len(),
            i <= pc.len(),
            forall|k: int| 0 <= k < i ==> sc@[k] == pc@[k],
        decreases pc.len() - i,
    {
        if sc[i] != pc[i] {
            assert(s@.take(prefix@.len() as int)[i as int] != prefix@[i as int]);
            return None;
        }
        i = i + 1;
    }
    assert(s@.take(prefix@.len() as int) =~= prefix@);
    Some(String::from_str(s.substring_char(pc.len(), sc.len())))
}

} // verus!
