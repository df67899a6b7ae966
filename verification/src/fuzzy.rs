//! The fuzzy finder of the text prompt: its candidates, the candidates the
//! query matches, ordered by score, and the selected one.
use crate::text::{chars_lt, chars_of, lemma_lex_transitive, lex_lt, trim, trimmed};
use fuzzy_matcher::FuzzyMatcher;
use vstd::prelude::*;

verus! {

broadcast use vstd::string::group_string_axioms;

/// A value the finder offers: the text shown, and the value submitted in its
/// place where there is one.
#[derive(Debug)]
pub struct FuzzyCandidate {
    pub display: String,
    pub target: Option<String>,
}

/// The plain-value view of a candidate.
pub struct CandidateView {
    pub display: Seq<char>,
    pub target: Option<Seq<char>>,
}

/// The view of an optional string.
pub open spec fn opt_string_view(s: Option<String>) -> Option<Seq<char>> {
    match s {
        Some(s) => Some(s@),
        None => None,
    }
}

impl View for FuzzyCandidate {
    type V = CandidateView;

    open spec fn view(&self) -> CandidateView {
        CandidateView { display: self.display@, target: opt_string_view(self.target) }
    }
}

impl FuzzyCandidate {
    /// A candidate submitted as the text it shows.
    pub fn from_display(display: String) -> (c: Self)
        ensures
            c@ == (CandidateView { display: display@, target: None }),
    {
        FuzzyCandidate { display, target: None }
    }
}

/// A candidate that the query matches: its index among the candidates, its
/// score, and the positions of the matched characters.
#[derive(Debug)]
pub struct FilteredCandidate {
    pub candidate_index: usize,
    pub score: i64,
    pub match_positions: Vec<usize>,
}

/// The plain-value view of a matched candidate.
pub struct FilteredView {
    pub candidate_index: usize,
    pub score: i64,
    pub match_positions: Seq<usize>,
}

impl View for FilteredCandidate {
    type V = FilteredView;

    open spec fn view(&self) -> FilteredView {
        FilteredView {
            candidate_index: self.candidate_index,
            score: self.score,
            match_positions: self.match_positions@,
        }
    }
}

/// The state of the finder: all candidates, the matched ones in ascending
/// score, and the index of the selected match.
#[derive(Debug)]
pub struct FuzzyFinderState {
    pub candidates: Vec<FuzzyCandidate>,
    pub filtered: Vec<FilteredCandidate>,
    pub selected: usize,
}

/// The views of candidates.
pub open spec fn candidates_view(c: Seq<FuzzyCandidate>) -> Seq<CandidateView> {
    c.map_values(|x: FuzzyCandidate| x@)
}

/// The views of matched candidates.
pub open spec fn filtered_view(f: Seq<FilteredCandidate>) -> Seq<FilteredView> {
    f.map_values(|x: FilteredCandidate| x@)
}

impl FuzzyFinderState {
    /// The selection is a match, or 0 where nothing matches, and every match
    /// names a candidate.
    pub open spec fn wf(&self) -> bool {
        &&& (self.filtered.len() == 0 ==> self.selected == 0)
        &&& (self.filtered.len() > 0 ==> self.selected < self.filtered.len())
        &&& forall|i: int|
            0 <= i < self.filtered.len() ==> (#[trigger] self.filtered@[i]).candidate_index
                < self.candidates.len()
    }
}

/// Where a stable sort in descending order of shown text puts `c` among the
/// sorted `sorted`: before the first candidate whose text is smaller.
pub open spec fn desc_position(sorted: Seq<CandidateView>, c: CandidateView) -> nat
    decreases sorted.len(),
{
    if sorted.len() == 0 {
        0
    } else if lex_lt(sorted[0].display, c.display) {
        0
    } else {
        1 + desc_position(sorted.drop_first(), c)
    }
}

/// `cands` sorted by shown text, greatest first, candidates of equal text
/// keeping their order: what `sort_by` with the reversed comparison gives.
pub open spec fn sort_desc(cands: Seq<CandidateView>) -> Seq<CandidateView>
    decreases cands.len(),
{
    if cands.len() == 0 {
        cands
    } else {
        let sorted = sort_desc(cands.drop_last());
        sorted.insert(desc_position(sorted, cands.last()) as int, cands.last())
    }
}

/// `candidates` sorted by shown text, greatest first, stably.
pub fn sort_candidates_desc(candidates: Vec<FuzzyCandidate>) -> (r: Vec<FuzzyCandidate>)
    ensures
        candidates_view(r@) == sort_desc(candidates_view(candidates@)),
{
    let ghost input = candidates_view(candidates@);
    let mut rest = candidates;
    let mut r: Vec<FuzzyCandidate> = Vec::new();
    let mut keys: Vec<Vec<char>> = Vec::new();
    let n = rest.len();
    assert(input.take(0) =~= Seq::<CandidateView>::empty());
    while rest.len() > 0
        invariant
            n == input.len(),
            rest.len() <= n,
            candidates_view(rest@) == input.skip(n - rest.len()),
            r.len() == keys.len(),
            forall|k: int| 0 <= k < r.len() ==> (#[trigger] keys@[k])@ == r@[k].display@,
            candidates_view(r@) == sort_desc(input.take(n - rest.len())),
        decreases rest.len(),
    {
        let i: usize = n - rest.len();
        let c = rest.remove(0);
        assert(input.skip(i as int)[0] == c@);
        assert(input.skip(i as int).drop_first() =~= input.skip(i + 1));
        assert(candidates_view(rest@) =~= input.skip(i + 1));
        let key = chars_of(c.display.as_str());
        let ghost sorted = candidates_view(r@);
        assert(input.take(i + 1).drop_last() =~= input.take(i as int));
        assert(input.take(i + 1).last() == c@);
        let mut p: usize = 0;
        assert(sorted.skip(0) =~= sorted);
        while p < keys.len() && !chars_lt(&keys[p], &key)
            invariant
                r.len() == keys.len(),
                candidates_view(r@) == sorted,
                p <= keys.len(),
                forall|k: int| 0 <= k < r.len() ==> (#[trigger] keys@[k])@ == r@[k].display@,
                key@ == c@.display,
                desc_position(sorted, c@) == p + desc_position(sorted.skip(p as int), c@),
            decreases keys.len() - p,
        {
            assert(sorted.skip(p as int).drop_first() =~= sorted.skip(p + 1));
            assert(sorted.skip(p as int)[0] == sorted[p as int]);
            p = p + 1;
        }
        proof {
            if p < keys.len() {
                assert(sorted.skip(p as int)[0] == sorted[p as int]);
            }
        }
        let ghost cv = c@;
        r.insert(p, c);
        keys.insert(p, key);
        assert(candidates_view(r@) =~= sorted.insert(p as int, cv));
    }
    assert(input.take(n as int) =~= input);
    r
}

/// Where a stable sort by ascending score puts `f` among the sorted `sorted`:
/// before the first match of greater score.
pub open spec fn score_position(sorted: Seq<FilteredView>, f: FilteredView) -> nat
    decreases sorted.len(),
{
    if sorted.len() == 0 {
        0
    } else if f.score < sorted[0].score {
        0
    } else {
        1 + score_position(sorted.drop_first(), f)
    }
}

/// `matches` sorted by ascending score, matches of equal score keeping their
/// order: what `sort_by_key` on the score gives.
pub open spec fn sort_by_score(matches: Seq<FilteredView>) -> Seq<FilteredView>
    decreases matches.len(),
{
    if matches.len() == 0 {
        matches
    } else {
        let sorted = sort_by_score(matches.drop_last());
        sorted.insert(score_position(sorted, matches.last()) as int, matches.last())
    }
}

/// `matches` sorted by ascending score, stably.
fn sorted_by_score(matches: Vec<FilteredCandidate>) -> (r: Vec<FilteredCandidate>)
    ensures
        filtered_view(r@) == sort_by_score(filtered_view(matches@)),
{
    let ghost input = filtered_view(matches@);
    let mut rest = matches;
    let mut r: Vec<FilteredCandidate> = Vec::new();
    let n = rest.len();
    assert(input.take(0) =~= Seq::<FilteredView>::empty());
    while rest.len() > 0
        invariant
            n == input.len(),
            rest.len() <= n,
            filtered_view(rest@) == input.skip(n - rest.len()),
            filtered_view(r@) == sort_by_score(input.take(n - rest.len())),
        decreases rest.len(),
    {
        let i: usize = n - rest.len();
        let f = rest.remove(0);
        assert(input.skip(i as int)[0] == f@);
        assert(input.skip(i as int).drop_first() =~= input.skip(i + 1));
        assert(filtered_view(rest@) =~= input.skip(i + 1));
        let ghost sorted = filtered_view(r@);
        assert(input.take(i + 1).drop_last() =~= input.take(i as int));
        assert(input.take(i + 1).last() == f@);
        let mut p: usize = 0;
        assert(sorted.skip(0) =~= sorted);
        while p < r.len() && !(f.score < r[p].score)
            invariant
                filtered_view(r@) == sorted,
                p <= r.len(),
                score_position(sorted, f@) == p + score_position(sorted.skip(p as int), f@),
            decreases r.len() - p,
        {
            assert(sorted.skip(p as int).drop_first() =~= sorted.skip(p + 1));
            assert(sorted.skip(p as int)[0] == sorted[p as int]);
            p = p + 1;
        }
        proof {
            if p < r.len() {
                assert(sorted.skip(p as int)[0] == sorted[p as int]);
            }
        }
        let ghost fv = f@;
        r.insert(p, f);
        assert(filtered_view(r@) =~= sorted.insert(p as int, fv));
    }
    assert(input.take(n as int) =~= input);
    r
}

/// What `SkimMatcherV2::fuzzy_indices` gives for `choice` and `pattern`: the
/// score and the indices of the matched characters, or nothing.
pub uninterp spec fn skim_fuzzy_indices(choice: Seq<char>, pattern: Seq<char>) -> Option<
    (i64, Seq<usize>),
>;

/// Matches `pattern` against `choice` with the default `SkimMatcherV2` of
/// `fuzzy_matcher`. The contract names the result, which depends on the two
/// strings alone.
#[verifier::external_body]
fn fuzzy_indices(choice: &str, pattern: &str) -> (r: Option<(i64, Vec<usize>)>)
    ensures
        r is Some <==> skim_fuzzy_indices(choice@, pattern@) is Some,
        r matches Some(m) ==> skim_fuzzy_indices(choice@, pattern@) == Some((m.0, m.1@)),
{
    fuzzy_matcher::skim::SkimMatcherV2::default().fuzzy_indices(choice, pattern)
}

/// Every candidate, unscored and unmatched.
pub open spec fn all_unscored(n: nat) -> Seq<FilteredView> {
    Seq::new(n, |i: int| FilteredView { candidate_index: i as usize, score: 0, match_positions: seq![] })
}

/// The candidates `query` matches, in candidate order, with score and positions.
pub open spec fn matching(cands: Seq<CandidateView>, query: Seq<char>) -> Seq<FilteredView>
    decreases cands.len(),
{
    if cands.len() == 0 {
        seq![]
    } else {
        let rest = matching(cands.drop_last(), query);
        match skim_fuzzy_indices(cands.last().display, query) {
            Some((score, positions)) => rest.push(
                FilteredView {
                    candidate_index: (cands.len() - 1) as usize,
                    score,
                    match_positions: positions,
                },
            ),
            None => rest,
        }
    }
}

/// The matches of `query`, trimmed, among `cands`: every candidate where the
/// query is empty; else the candidates it matches, by ascending score.
pub open spec fn filter_for(cands: Seq<CandidateView>, query: Seq<char>) -> Seq<FilteredView> {
    if trim(query).len() == 0 {
        all_unscored(cands.len())
    } else {
        sort_by_score(matching(cands, trim(query)))
    }
}

/// Every candidate, unscored.
fn unscored(n: usize) -> (r: Vec<FilteredCandidate>)
    ensures
        filtered_view(r@) == all_unscored(n as nat),
        r.len() == n,
        forall|k: int| 0 <= k < n ==> (#[trigger] r@[k]).candidate_index == k,
{
    let mut r: Vec<FilteredCandidate> = Vec::new();
    for i in 0..n
        invariant
            r.len() == i,
            forall|k: int| 0 <= k < i ==> (#[trigger] r@[k])@ == all_unscored(n as nat)[k],
            forall|k: int| 0 <= k < i ==> (#[trigger] r@[k]).candidate_index == k,
    {
        r.push(FilteredCandidate { candidate_index: i, score: 0, match_positions: Vec::new() });
        assert(r@[i as int]@ =~= all_unscored(n as nat)[i as int]);
    }
    assert(filtered_view(r@) =~= all_unscored(n as nat));
    r
}

/// The selection after moving up one match: the previous, or from the first
/// the last.
pub open spec fn selection_up(f: FuzzyFinderState) -> int {
    if f.filtered.len() == 0 {
        f.selected as int
    } else if f.selected == 0 {
        f.filtered.len() - 1
    } else {
        f.selected - 1
    }
}

/// The selection after moving down one match: the next, or from the last the
/// first.
pub open spec fn selection_down(f: FuzzyFinderState) -> int {
    if f.filtered.len() == 0 {
        f.selected as int
    } else if f.selected >= f.filtered.len() - 1 {
        0
    } else {
        f.selected + 1
    }
}

/// The number of rows a page moves: the viewport's height, at least one.
pub open spec fn page_size(viewport_height: int) -> int {
    if viewport_height > 1 {
        viewport_height
    } else {
        1
    }
}

/// The selection after moving a page up, stopping at the first match.
pub open spec fn selection_page_up(f: FuzzyFinderState, viewport_height: int) -> int {
    if f.filtered.len() == 0 {
        f.selected as int
    } else if f.selected >= page_size(viewport_height) {
        f.selected - page_size(viewport_height)
    } else {
        0
    }
}

/// The selection after moving a page down, stopping at the last match.
pub open spec fn selection_page_down(f: FuzzyFinderState, viewport_height: int) -> int {
    if f.filtered.len() == 0 {
        f.selected as int
    } else if f.selected + page_size(viewport_height) < f.filtered.len() - 1 {
        f.selected + page_size(viewport_height)
    } else {
        f.filtered.len() - 1
    }
}

impl FuzzyFinderState {
    /// A finder over `candidates`, sorted by shown text with the greatest
    /// first, every one listed and the last selected.
    pub fn new(candidates: Vec<FuzzyCandidate>) -> (f: Self)
        ensures
            candidates_view(f.candidates@) == sort_desc(candidates_view(candidates@)),
            filtered_view(f.filtered@) == all_unscored(candidates.len() as nat),
            f.selected == (if candidates.len() > 0 {
                candidates.len() - 1
            } else {
                0
            }),
            f.wf(),
    {
        let n = candidates.len();
        let ghost original = candidates_view(candidates@);
        let sorted = sort_candidates_desc(candidates);
        proof {
            lemma_sort_desc_len(original);
            assert(candidates_view(sorted@).len() == sorted.len());
        }
        assert(sorted.len() == n);
        let filtered = unscored(n);
        let selected = if n > 0 { n - 1 } else { 0 };
        let f = FuzzyFinderState { candidates: sorted, filtered, selected };
        assert forall|i: int| 0 <= i < f.filtered.len() implies (#[trigger] f.filtered@[i]).candidate_index
            < f.candidates.len() by {
        }
        f
    }

    /// Selects the previous match, from the first the last.
    pub fn move_selection_up(&mut self)
        requires
            old(self).wf(),
        ensures
            final(self).wf(),
            final(self).candidates == old(self).candidates,
            final(self).filtered == old(self).filtered,
            final(self).selected == selection_up(*old(self)),
    {
        if self.filtered.len() == 0 {
            return;
        }
        if self.selected == 0 {
            self.selected = self.filtered.len() - 1;
        } else {
            self.selected = self.selected - 1;
        }
    }

    /// Selects the next match, from the last the first.
    pub fn move_selection_down(&mut self)
        requires
            old(self).wf(),
        ensures
            final(self).wf(),
            final(self).candidates == old(self).candidates,
            final(self).filtered == old(self).filtered,
            final(self).selected == selection_down(*old(self)),
    {
        if self.filtered.len() == 0 {
            return;
        }
        if self.selected >= self.filtered.len() - 1 {
            self.selected = 0;
        } else {
            self.selected = self.selected + 1;
        }
    }

    /// Moves the selection a page of `viewport_height` rows (at least one)
    /// towards the first match, stopping there.
    pub fn page_selection_up(&mut self, viewport_height: usize)
        requires
            old(self).wf(),
        ensures
            final(self).wf(),
            final(self).candidates == old(self).candidates,
            final(self).filtered == old(self).filtered,
            final(self).selected == selection_page_up(*old(self), viewport_height as int),
    {
        if self.filtered.len() == 0 {
            return;
        }
        let page = if viewport_height > 1 { viewport_height } else { 1 };
        self.selected = self.selected.saturating_sub(page);
    }

    /// Moves the selection a page of `viewport_height` rows (at least one)
    /// towards the last match, stopping there.
    pub fn page_selection_down(&mut self, viewport_height: usize)
        requires
            old(self).wf(),
        ensures
            final(self).wf(),
            final(self).candidates == old(self).candidates,
            final(self).filtered == old(self).filtered,
            final(self).selected == selection_page_down(*old(self), viewport_height as int),
    {
        if self.filtered.len() == 0 {
            return;
        }
        let page = if viewport_height > 1 { viewport_height } else { 1 };
        let last = self.filtered.len() - 1;
        self.selected = if self.selected < last && page < last - self.selected {
            self.selected + page
        } else {
            last
        };
    }

    /// Matches the query (the first line of the prompt) against the
    /// candidates: all of them where the trimmed query is empty, the last
    /// selected; else the matches by ascending score, the last (best) selected.
    pub fn update_filter(&mut self, query: &str)
        requires
            old(self).wf(),
        ensures
            final(self).wf(),
            final(self).candidates == old(self).candidates,
            filtered_view(final(self).filtered@) == filter_for(
                candidates_view(old(self).candidates@),
                query@,
            ),
            final(self).selected == (if final(self).filtered.len() > 0 {
                final(self).filtered.len() - 1
            } else {
                0
            }),
    {
        let query = trimmed(query);
        if query.as_str().is_empty() {
            self.filtered = unscored(self.candidates.len());
            self.selected = if self.filtered.len() > 0 { self.filtered.len() - 1 } else { 0 };
            assert forall|i: int| 0 <= i < self.filtered.len() implies (#[trigger] self.filtered@[i]).candidate_index
                < self.candidates.len() by {
            }
            return;
        }
        let ghost cands = candidates_view(self.candidates@);
        let mut matches: Vec<FilteredCandidate> = Vec::new();
        assert(cands.take(0) =~= Seq::<CandidateView>::empty());
        for idx in 0..self.candidates.len()
            invariant
                cands == candidates_view(self.candidates@),
                filtered_view(matches@) == matching(cands.take(idx as int), query@),
                forall|k: int| 0 <= k < matches.len() ==> (#[trigger] matches@[k]).candidate_index < idx,
        {
            assert(cands.take(idx + 1).drop_last() =~= cands.take(idx as int));
            assert(cands.take(idx + 1).last() == self.candidates@[idx as int]@);
            match fuzzy_indices(self.candidates[idx].display.as_str(), query.as_str()) {
                Some((score, positions)) => {
                    matches.push(FilteredCandidate { candidate_index: idx, score, match_positions: positions });
                    assert(filtered_view(matches@) =~= matching(cands.take(idx + 1), query@));
                },
                None => {},
            }
        }
        assert(cands.take(self.candidates.len() as int) =~= cands);
        let ghost unsorted = filtered_view(matches@);
        let sorted = sorted_by_score(matches);
        proof {
            lemma_sort_by_score_indices(unsorted, self.candidates.len() as int);
        }
        self.filtered = sorted;
        self.selected = if self.filtered.len() == 0 { 0 } else { self.filtered.len() - 1 };
        assert forall|i: int| 0 <= i < self.filtered.len() implies (#[trigger] self.filtered@[i]).candidate_index
            < self.candidates.len() by {
            assert(self.filtered@[i]@ == filtered_view(self.filtered@)[i]);
        }
    }

    /// The value the selected match submits: its target, or its shown text.
    pub fn selected_value(&self) -> (v: Option<String>)
        requires
            self.wf(),
        ensures
            self.filtered.len() == 0 ==> v is None,
            self.filtered.len() > 0 ==> (v matches Some(s) && s@ == selected_value_of(
                candidates_view(self.candidates@),
                filtered_view(self.filtered@),
                self.selected as int,
            )),
    {
        if self.filtered.len() == 0 {
            return None;
        }
        let selected = &self.filtered[self.selected];
        let candidate = &self.candidates[selected.candidate_index];
        match &candidate.target {
            Some(t) => Some(t.clone()),
            None => Some(candidate.display.clone()),
        }
    }
}

/// The value submitted for match `selected`: its candidate's target, or the
/// candidate's shown text.
pub open spec fn selected_value_of(
    cands: Seq<CandidateView>,
    filtered: Seq<FilteredView>,
    selected: int,
) -> Seq<char> {
    let c = cands[filtered[selected].candidate_index as int];
    match c.target {
        Some(t) => t,
        None => c.display,
    }
}

/// Sorting keeps the number of candidates.
pub proof fn lemma_sort_desc_len(cands: Seq<CandidateView>)
    ensures
        sort_desc(cands).len() == cands.len(),
    decreases cands.len(),
{
    if cands.len() > 0 {
        lemma_sort_desc_len(cands.drop_last());
        lemma_desc_position_bound(sort_desc(cands.drop_last()), cands.last());
    }
}

/// The insertion position lies within the sequence.
proof fn lemma_desc_position_bound(sorted: Seq<CandidateView>, c: CandidateView)
    ensures
        desc_position(sorted, c) <= sorted.len(),
    decreases sorted.len(),
{
    if sorted.len() > 0 {
        lemma_desc_position_bound(sorted.drop_first(), c);
    }
}

/// The insertion position lies within the sequence.
proof fn lemma_score_position_bound(sorted: Seq<FilteredView>, f: FilteredView)
    ensures
        score_position(sorted, f) <= sorted.len(),
    decreases sorted.len(),
{
    if sorted.len() > 0 {
        lemma_score_position_bound(sorted.drop_first(), f);
    }
}

/// Sorting by score keeps the matches, and so their candidate indices.
proof fn lemma_sort_by_score_indices(matches: Seq<FilteredView>, bound: int)
    requires
        forall|k: int| 0 <= k < matches.len() ==> (#[trigger] matches[k]).candidate_index < bound,
    ensures
        forall|k: int|
            0 <= k < sort_by_score(matches).len() ==> (#[trigger] sort_by_score(
                matches,
            )[k]).candidate_index < bound,
    decreases matches.len(),
{
    if matches.len() > 0 {
        let rest = matches.drop_last();
        assert forall|k: int| 0 <= k < rest.len() implies (#[trigger] rest[k]).candidate_index < bound by {
            assert(rest[k] == matches[k]);
        }
        lemma_sort_by_score_indices(rest, bound);
        let sorted = sort_by_score(rest);
        lemma_score_position_bound(sorted, matches.last());
        let p = score_position(sorted, matches.last()) as int;
        assert forall|k: int| 0 <= k < sort_by_score(matches).len() implies (#[trigger] sort_by_score(
            matches,
        )[k]).candidate_index < bound by {
            let s = sorted.insert(p, matches.last());
            assert(sort_by_score(matches) == s);
            if k < p {
                assert(s[k] == sorted[k]);
            } else if k > p {
                assert(s[k] == sorted[k - 1]);
            }
        }
    }
}


/// Moving the selection up one match and then down one match comes back to
/// where it was, and so does moving down and then up.
pub proof fn lemma_selection_up_down_inverse(f: FuzzyFinderState)
    requires
        f.wf(),
        f.filtered.len() > 0,
    ensures
        selection_down(FuzzyFinderState { selected: selection_up(f) as usize, ..f }) == f.selected,
        selection_up(FuzzyFinderState { selected: selection_down(f) as usize, ..f }) == f.selected,
{
}

/// Every match before the insertion position of `c` is not less than `c`;
/// the one at it, where there is one, is less.
proof fn lemma_desc_position_props(sorted: Seq<CandidateView>, c: CandidateView)
    ensures
        forall|k: int| 0 <= k < desc_position(sorted, c) ==> !lex_lt(#[trigger] sorted[k].display, c.display),
        desc_position(sorted, c) < sorted.len() ==> lex_lt(sorted[desc_position(sorted, c) as int].display, c.display),
    decreases sorted.len(),
{
    if sorted.len() > 0 && !lex_lt(sorted[0].display, c.display) {
        let rest = sorted.drop_first();
        lemma_desc_position_props(rest, c);
        lemma_desc_position_bound(rest, c);
        assert forall|k: int| 0 <= k < desc_position(sorted, c) implies !lex_lt(#[trigger] sorted[k].display, c.display) by {
            if k > 0 {
                assert(sorted[k] == rest[k - 1]);
            }
        }
        if desc_position(sorted, c) < sorted.len() {
            assert(sorted[desc_position(sorted, c) as int] == rest[desc_position(rest, c) as int]);
        }
    }
}

/// The finder lists its candidates by shown text, greatest first: no
/// candidate's text is less than that of one listed after it.
pub proof fn lemma_sort_desc_sorted(cands: Seq<CandidateView>)
    ensures
        forall|i: int, j: int|
            0 <= i < j < sort_desc(cands).len() ==> !lex_lt(
                #[trigger] sort_desc(cands)[i].display,
                #[trigger] sort_desc(cands)[j].display,
            ),
    decreases cands.len(),
{
    if cands.len() > 0 {
        let rest = cands.drop_last();
        let c = cands.last();
        lemma_sort_desc_sorted(rest);
        lemma_sort_desc_len(rest);
        let sorted = sort_desc(rest);
        lemma_desc_position_bound(sorted, c);
        lemma_desc_position_props(sorted, c);
        let p = desc_position(sorted, c) as int;
        let s = sorted.insert(p, c);
        assert(sort_desc(cands) == s);
        assert forall|i: int, j: int| 0 <= i < j < s.len() implies !lex_lt(#[trigger] s[i].display, #[trigger] s[j].display) by {
            if j < p {
                assert(s[i] == sorted[i] && s[j] == sorted[j]);
            } else if j == p {
                assert(s[i] == sorted[i] && s[j] == c);
            } else if i < p {
                assert(s[i] == sorted[i] && s[j] == sorted[j - 1]);
                if lex_lt(sorted[i].display, sorted[j - 1].display) {
                    assert(false);
                }
            } else if i == p {
                assert(s[i] == c && s[j] == sorted[j - 1]);
                if lex_lt(c.display, sorted[j - 1].display) {
                    lemma_lex_transitive(sorted[p].display, c.display, sorted[j - 1].display);
                    if j - 1 > p {
                        assert(!lex_lt(sorted[p].display, sorted[j - 1].display));
                    } else {
                        crate::text::lemma_lex_irreflexive(sorted[p].display);
                    }
                }
            } else {
                assert(s[i] == sorted[i - 1] && s[j] == sorted[j - 1]);
            }
        }
    }
}


/// The matches of `query` among `cands` are the candidates it matches, each
/// with its score and positions, in candidate order.
proof fn lemma_matching_members(cands: Seq<CandidateView>, query: Seq<char>)
    requires
        cands.len() <= usize::MAX,
    ensures
        forall|i: int, s: i64, p: Seq<usize>|
            0 <= i < cands.len() && skim_fuzzy_indices(cands[i].display, query) == Some((s, p)) ==> matching(
                cands,
                query,
            ).contains(FilteredView { candidate_index: i as usize, score: s, match_positions: p }),
        forall|j: int|
            0 <= j < matching(cands, query).len() ==> {
                let f = #[trigger] matching(cands, query)[j];
                &&& f.candidate_index < cands.len()
                &&& skim_fuzzy_indices(cands[f.candidate_index as int].display, query) == Some(
                    (f.score, f.match_positions),
                )
            },
    decreases cands.len(),
{
    if cands.len() > 0 {
        let before = cands.drop_last();
        lemma_matching_members(before, query);
        let rest = matching(before, query);
        let m = matching(cands, query);
        assert forall|i: int, s: i64, p: Seq<usize>|
            0 <= i < cands.len() && skim_fuzzy_indices(cands[i].display, query) == Some((s, p)) implies m.contains(
            FilteredView { candidate_index: i as usize, score: s, match_positions: p },
        ) by {
            let f = FilteredView { candidate_index: i as usize, score: s, match_positions: p };
            if i < cands.len() - 1 {
                assert(before[i] == cands[i]);
                assert(rest.contains(f));
                let j = choose|j: int| 0 <= j < rest.len() && rest[j] == f;
                match skim_fuzzy_indices(cands.last().display, query) {
                    Some((s2, p2)) => assert(m[j] == rest[j]),
                    None => {},
                }
            } else {
                assert(m.last() == f);
                assert(m[m.len() - 1] == f);
            }
        }
        assert forall|j: int| 0 <= j < m.len() implies {
            let f = #[trigger] m[j];
            &&& f.candidate_index < cands.len()
            &&& skim_fuzzy_indices(cands[f.candidate_index as int].display, query) == Some((f.score, f.match_positions))
        } by {
            if j < rest.len() {
                assert(m[j] == rest[j]);
                assert(before[rest[j].candidate_index as int] == cands[rest[j].candidate_index as int]);
            }
        }
    }
}

/// Sorting by score keeps the matches, as a multiset.
proof fn lemma_sort_by_score_multiset(m: Seq<FilteredView>)
    ensures
        sort_by_score(m).to_multiset() == m.to_multiset(),
    decreases m.len(),
{
    broadcast use vstd::seq_lib::to_multiset_insert;

    if m.len() > 0 {
        lemma_sort_by_score_multiset(m.drop_last());
        let sorted = sort_by_score(m.drop_last());
        lemma_score_position_bound(sorted, m.last());
        assert(m =~= m.drop_last().insert(m.drop_last().len() as int, m.last()));
    }
}

/// Where `f` goes when sorting by score: after every match of a score at
/// most its own at the front, before the first of greater score.
proof fn lemma_score_position_props(sorted: Seq<FilteredView>, f: FilteredView)
    ensures
        forall|k: int| 0 <= k < score_position(sorted, f) ==> #[trigger] sorted[k].score <= f.score,
        score_position(sorted, f) < sorted.len() ==> f.score < sorted[score_position(sorted, f) as int].score,
    decreases sorted.len(),
{
    lemma_score_position_bound(sorted, f);
    if sorted.len() > 0 && !(f.score < sorted[0].score) {
        lemma_score_position_props(sorted.drop_first(), f);
        assert forall|k: int| 0 <= k < score_position(sorted, f) implies #[trigger] sorted[k].score <= f.score by {
            if k > 0 {
                assert(sorted[k] == sorted.drop_first()[k - 1]);
            }
        }
    }
}

/// Sorting by score orders the matches by ascending score.
proof fn lemma_sort_by_score_ascending(m: Seq<FilteredView>)
    ensures
        forall|i: int, j: int|
            0 <= i < j < sort_by_score(m).len() ==> #[trigger] sort_by_score(m)[i].score <= #[trigger] sort_by_score(
                m,
            )[j].score,
    decreases m.len(),
{
    if m.len() > 0 {
        lemma_sort_by_score_ascending(m.drop_last());
        let sorted = sort_by_score(m.drop_last());
        let f = m.last();
        lemma_score_position_bound(sorted, f);
        lemma_score_position_props(sorted, f);
        let p = score_position(sorted, f) as int;
        let r = sorted.insert(p, f);
        assert(sort_by_score(m) == r);
        assert forall|i: int, j: int| 0 <= i < j < r.len() implies #[trigger] r[i].score <= #[trigger] r[j].score by {
            if j < p {
                assert(r[i] == sorted[i] && r[j] == sorted[j]);
            } else if j == p {
                assert(r[i] == sorted[i]);
            } else if i < p {
                assert(r[i] == sorted[i] && r[j] == sorted[j - 1]);
                assert(sorted[p].score > f.score);
                if i < p {
                    assert(sorted[i].score <= f.score);
                }
            } else if i == p {
                assert(r[j] == sorted[j - 1]);
                assert(sorted[p].score > f.score);
                if j - 1 > p {
                    assert(sorted[p].score <= sorted[j - 1].score);
                }
            } else {
                assert(r[i] == sorted[i - 1] && r[j] == sorted[j - 1]);
            }
        }
    }
}

/// With a query that is not blank once trimmed, the finder lists exactly the
/// candidates that the trimmed query matches, whichever their place, each
/// with the score and positions of its match, by ascending score.
pub proof fn lemma_filter_lists_exactly_the_matches(cands: Seq<CandidateView>, query: Seq<char>)
    requires
        trim(query).len() > 0,
        cands.len() <= usize::MAX,
    ensures
        forall|i: int, s: i64, p: Seq<usize>|
            0 <= i < cands.len() && skim_fuzzy_indices(cands[i].display, trim(query)) == Some((s, p)) ==> filter_for(
                cands,
                query,
            ).contains(FilteredView { candidate_index: i as usize, score: s, match_positions: p }),
        forall|j: int|
            0 <= j < filter_for(cands, query).len() ==> {
                let f = #[trigger] filter_for(cands, query)[j];
                &&& f.candidate_index < cands.len()
                &&& skim_fuzzy_indices(cands[f.candidate_index as int].display, trim(query)) == Some(
                    (f.score, f.match_positions),
                )
            },
        forall|i: int, j: int|
            0 <= i < j < filter_for(cands, query).len() ==> #[trigger] filter_for(cands, query)[i].score
                <= #[trigger] filter_for(cands, query)[j].score,
{
    broadcast use vstd::seq_lib::to_multiset_contains;

    let q = trim(query);
    let m = matching(cands, q);
    let r = filter_for(cands, query);
    assert(r == sort_by_score(m));
    lemma_matching_members(cands, q);
    lemma_sort_by_score_multiset(m);
    lemma_sort_by_score_ascending(m);
    assert forall|i: int, s: i64, p: Seq<usize>|
        0 <= i < cands.len() && skim_fuzzy_indices(cands[i].display, q) == Some((s, p)) implies r.contains(
        FilteredView { candidate_index: i as usize, score: s, match_positions: p },
    ) by {
        let f = FilteredView { candidate_index: i as usize, score: s, match_positions: p };
        assert(m.contains(f));
        assert(m.to_multiset().count(f) > 0);
        assert(r.to_multiset().count(f) > 0);
    }
    assert forall|j: int| 0 <= j < r.len() implies {
        let f = #[trigger] r[j];
        &&& f.candidate_index < cands.len()
        &&& skim_fuzzy_indices(cands[f.candidate_index as int].display, q) == Some((f.score, f.match_positions))
    } by {
        let f = r[j];
        assert(r.contains(f));
        assert(r.to_multiset().count(f) > 0);
        assert(m.to_multiset().count(f) > 0);
        assert(m.contains(f));
        let k = choose|k: int| 0 <= k < m.len() && m[k] == f;
        assert(m[k] == f);
    }
}


/// With a query that is blank once trimmed, the finder lists every candidate,
/// in candidate order, unscored and unmatched.
pub proof fn lemma_blank_query_lists_all(cands: Seq<CandidateView>, query: Seq<char>)
    requires
        trim(query).len() == 0,
        cands.len() <= usize::MAX,
    ensures
        filter_for(cands, query).len() == cands.len(),
        forall|i: int|
            0 <= i < cands.len() ==> #[trigger] filter_for(cands, query)[i] == (FilteredView {
                candidate_index: i as usize,
                score: 0,
                match_positions: Seq::empty(),
            }),
{
}


/// With matches listed, moving up one goes to the match before the selected
/// one, wrapping from the first to the last, and moving down one to the match
/// after it, wrapping from the last to the first; a page up moves the
/// selection back by the viewport's height (at least one), stopping at the
/// first match, and a page down forward by as much, stopping at the last.
pub proof fn lemma_selection_moves(f: FuzzyFinderState, viewport_height: int)
    requires
        f.wf(),
        f.filtered.len() > 0,
    ensures
        (selection_up(f) + 1) % (f.filtered.len() as int) == f.selected as int,
        0 <= selection_up(f) < f.filtered.len(),
        selection_down(f) == (f.selected + 1) % (f.filtered.len() as int),
        selection_page_up(f, viewport_height) == (if f.selected as int - (if viewport_height > 1 {
            viewport_height
        } else {
            1
        }) > 0 {
            f.selected as int - (if viewport_height > 1 {
                viewport_height
            } else {
                1
            })
        } else {
            0
        }),
        selection_page_down(f, viewport_height) == (if f.selected + (if viewport_height > 1 {
            viewport_height
        } else {
            1
        }) < f.filtered.len() - 1 {
            f.selected + (if viewport_height > 1 {
                viewport_height
            } else {
                1
            })
        } else {
            f.filtered.len() - 1
        }),
{
    let n = f.filtered.len() as int;
    if f.selected == 0 {
        assert(n % n == 0) by (nonlinear_arith)
            requires
                n > 0,
        ;
    } else {
        assert((f.selected as int) % n == f.selected as int) by (nonlinear_arith)
            requires
                0 <= f.selected < n,
        ;
    }
    if f.selected + 1 < n {
        assert((f.selected + 1) % n == f.selected + 1) by (nonlinear_arith)
            requires
                0 <= f.selected + 1 < n,
        ;
    } else {
        assert((f.selected + 1) % n == 0) by (nonlinear_arith)
            requires
                f.selected + 1 == n,
                n > 0,
        ;
    }
}

} // verus!
