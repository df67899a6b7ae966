//! The text prompt: opening it with or without a fuzzy finder, moving the
//! finder's selection, filtering it, and what submitting a value does.
use crate::fuzzy::{
    CandidateView, FuzzyCandidate, FuzzyFinderState, candidates_view, filter_for, filtered_view,
    selected_value_of, selection_down, selection_page_down, selection_page_up, selection_up,
};
use crate::message::{
    NextPrevDirection, NextPrevMode, RebaseDestinationType, RebaseSourceType, SetRevsetMode,
};
use crate::model::{
    ActionView, DEFAULT_REVSET, Model, State, TextInputAction, TextInputSession,
    cancelled_reported, commands_queued, fuzzy_prompted, invalid_selection_reported,
    single_line_info, text_prompted,
};
use crate::shell_out::{
    JjCommand, JjCommandView, jj_bookmark_create_view, jj_bookmark_delete_view,
    jj_bookmark_forget_view, jj_bookmark_rename_view, jj_bookmark_set_view,
    jj_bookmark_track_view, jj_bookmark_untrack_view, jj_describe_with_message_view, jj_edit_view,
    jj_file_track_view, jj_git_fetch_view, jj_git_push_view, jj_metaedit_view, jj_new_view,
    jj_next_prev_view, jj_parallelize_view, jj_rebase_view,
};
use crate::text::{trim, trimmed};
use vstd::prelude::*;

verus! {

broadcast use vstd::string::group_string_axioms;

/// What is left for the caller once a prompt's value or a revset choice has
/// been applied.
#[derive(Debug)]
pub enum ApplyOutcome {
    /// Nothing.
    Done,
    /// The revset changed from `previous`: the log is to be loaded for the new
    /// one, and [`Model::finish_set_revset`] told how that went.
    SyncRevset { previous: String },
    /// The action needs a `jj` command that this library does not build; the
    /// state is unchanged.
    Unavailable,
}

/// The session's finder, where a prompt with one is open.
pub open spec fn fuzzy_of(m: Model) -> Option<FuzzyFinderState> {
    match m.text_input {
        Some(s) => s.fuzzy,
        None => None,
    }
}

/// `new` is `old` but for the selection of the open finder, which is
/// `selected(f)` for the old finder `f`.
pub open spec fn finder_selection_moved(
    old: Model,
    new: Model,
    selected: spec_fn(FuzzyFinderState) -> int,
) -> bool {
    match fuzzy_of(old) {
        None => new == old,
        Some(f) => {
            let s = old.text_input->0;
            &&& new == Model {
                text_input: Some(
                    TextInputSession {
                        fuzzy: Some(
                            FuzzyFinderState { selected: selected(f) as usize, ..f },
                        ),
                        ..s
                    },
                ),
                ..old
            }
            &&& 0 <= selected(f) <= usize::MAX
        },
    }
}

/// The value a prompt submits given the first line of its text: the finder's
/// selected match where there is a finder, nothing where nothing matches;
/// else the trimmed line, nothing where it is empty.
pub open spec fn submitted_value(s: TextInputSession, first_line: Seq<char>) -> Option<Seq<char>> {
    match s.fuzzy {
        Some(f) => if f.filtered.len() == 0 {
            None
        } else {
            Some(
                selected_value_of(
                    candidates_view(f.candidates@),
                    filtered_view(f.filtered@),
                    f.selected as int,
                ),
            )
        },
        None => if trim(first_line).len() == 0 {
            None
        } else {
            Some(trim(first_line))
        },
    }
}

/// The open prompt is the finder that selects a node by its number.
pub open spec fn selects_by_number(m: Model) -> bool {
    m.text_input matches Some(s) && s.action@ == ActionView::SelectInRevset
}

/// `m` with the prompt closed and the interface running again.
pub open spec fn submitting(m: Model) -> Model {
    Model { state: State::Running, text_input: None, ..m }
}

/// `after` queues the command `cmd` makes of `change`, or reports an invalid
/// selection where there is no change.
pub open spec fn queued_for_change(
    before: Model,
    after: Model,
    change: Option<Seq<char>>,
    cmd: spec_fn(Seq<char>) -> JjCommandView,
) -> bool {
    match change {
        None => invalid_selection_reported(before, after),
        Some(c) => commands_queued(before, after, seq![cmd(c)]),
    }
}

/// The argument `jj` takes for `direction`.
pub open spec fn direction_arg(direction: NextPrevDirection) -> Seq<char> {
    match direction {
        NextPrevDirection::Next => "next"@,
        NextPrevDirection::Prev => "prev"@,
    }
}

/// The flag of `jj next` and `jj prev` for `mode`, where it has one.
pub open spec fn next_prev_flag(mode: NextPrevMode) -> Option<Seq<char>> {
    match mode {
        NextPrevMode::Conflict => Some("--conflict"@),
        NextPrevMode::Default => None,
        NextPrevMode::Edit => Some("--edit"@),
        NextPrevMode::NoEdit => Some("--no-edit"@),
    }
}

/// The flag of `jj rebase` that names what moves.
pub open spec fn rebase_source_flag(source_type: RebaseSourceType) -> Seq<char> {
    match source_type {
        RebaseSourceType::Branch => "--branch"@,
        RebaseSourceType::Source => "--source"@,
        RebaseSourceType::Revisions => "--revisions"@,
    }
}

/// The flag of `jj rebase` that places what moves.
pub open spec fn rebase_destination_flag(destination_type: RebaseDestinationType) -> Seq<char> {
    match destination_type {
        RebaseDestinationType::InsertAfter => "--insert-after"@,
        RebaseDestinationType::InsertBefore => "--insert-before"@,
        RebaseDestinationType::Onto => "--onto"@,
    }
}

/// The argument `jj` takes for `direction`.
pub fn direction_str(direction: NextPrevDirection) -> (s: &'static str)
    ensures
        s@ == direction_arg(direction),
{
    match direction {
        NextPrevDirection::Next => "next",
        NextPrevDirection::Prev => "prev",
    }
}

/// The flag of `jj next` and `jj prev` for `mode`, where it has one.
pub fn next_prev_mode_flag(mode: NextPrevMode) -> (f: Option<&'static str>)
    ensures
        crate::shell_out::opt_view(f) == next_prev_flag(mode),
{
    match mode {
        NextPrevMode::Conflict => Some("--conflict"),
        NextPrevMode::Default => None,
        NextPrevMode::Edit => Some("--edit"),
        NextPrevMode::NoEdit => Some("--no-edit"),
    }
}

/// The flag of `jj rebase` that names what moves.
pub fn rebase_source_str(source_type: RebaseSourceType) -> (s: &'static str)
    ensures
        s@ == rebase_source_flag(source_type),
{
    match source_type {
        RebaseSourceType::Branch => "--branch",
        RebaseSourceType::Source => "--source",
        RebaseSourceType::Revisions => "--revisions",
    }
}

/// The flag of `jj rebase` that places what moves.
pub fn rebase_destination_str(destination_type: RebaseDestinationType) -> (s: &'static str)
    ensures
        s@ == rebase_destination_flag(destination_type),
{
    match destination_type {
        RebaseDestinationType::InsertAfter => "--insert-after",
        RebaseDestinationType::InsertBefore => "--insert-before",
        RebaseDestinationType::Onto => "--onto",
    }
}

/// The value of a decimal digit.
pub open spec fn digit_value(c: char) -> int {
    match c {
        '0' => 0,
        '1' => 1,
        '2' => 2,
        '3' => 3,
        '4' => 4,
        '5' => 5,
        '6' => 6,
        '7' => 7,
        '8' => 8,
        '9' => 9,
        _ => -1,
    }
}

/// Whether every character of `s` is a decimal digit.
pub open spec fn all_digits(s: Seq<char>) -> bool {
    forall|i: int| 0 <= i < s.len() ==> digit_value(#[trigger] s[i]) >= 0
}

/// The number the decimal digits `s` write.
pub open spec fn digits_value(s: Seq<char>) -> int
    decreases s.len(),
{
    if s.len() == 0 {
        0
    } else {
        digits_value(s.drop_last()) * 10 + digit_value(s.last())
    }
}

/// What `str::parse::<usize>` makes of `s`: decimal digits after an optional
/// `+`, at least one, whose number fits in a `usize`.
pub open spec fn parsed_usize(s: Seq<char>) -> Option<int> {
    let digits = if s.len() > 0 && s[0] == '+' {
        s.drop_first()
    } else {
        s
    };
    if digits.len() > 0 && all_digits(digits) && digits_value(digits) <= usize::MAX {
        Some(digits_value(digits))
    } else {
        None
    }
}

/// A number written in digits is at least the number its prefix writes.
proof fn lemma_digits_value_grows(s: Seq<char>)
    requires
        s.len() > 0,
        all_digits(s),
    ensures
        digits_value(s) >= digits_value(s.drop_last()) >= 0,
    decreases s.len(),
{
    if s.len() > 1 {
        let p = s.drop_last();
        assert(all_digits(p)) by {
            assert forall|i: int| 0 <= i < p.len() implies digit_value(#[trigger] p[i]) >= 0 by {
                assert(p[i] == s[i]);
            }
        }
        lemma_digits_value_grows(p);
    }
    let v = digits_value(s.drop_last());
    let d = digit_value(s.last());
    assert(digit_value(s[s.len() - 1]) >= 0);
    assert(v >= 0 ==> v * 10 + d >= v) by (nonlinear_arith)
        requires
            d >= 0,
    ;
}

/// The digit `c` stands for, where it is one.
fn digit_of(c: char) -> (d: Option<usize>)
    ensures
        digit_value(c) >= 0 ==> d == Some(digit_value(c) as usize),
        digit_value(c) < 0 ==> d is None,
{
    match c {
        '0' => Some(0),
        '1' => Some(1),
        '2' => Some(2),
        '3' => Some(3),
        '4' => Some(4),
        '5' => Some(5),
        '6' => Some(6),
        '7' => Some(7),
        '8' => Some(8),
        '9' => Some(9),
        _ => None,
    }
}

/// Parses `s` as `str::parse::<usize>` does: decimal digits after an
/// optional `+`, at least one, whose number fits.
pub fn parse_usize(s: &str) -> (r: Option<usize>)
    ensures
        match parsed_usize(s@) {
            Some(n) => r matches Some(v) && v == n,
            None => r is None,
        },
{
    let chars = crate::text::chars_of(s);
    let start: usize = if chars.len() > 0 && chars[0] == '+' {
        1
    } else {
        0
    };
    let ghost digits = chars@.skip(start as int);
    assert(digits =~= if s@.len() > 0 && s@[0] == '+' {
        s@.drop_first()
    } else {
        s@
    });
    if start >= chars.len() {
        return None;
    }
    let mut value: usize = 0;
    let mut i: usize = start;
    while i < chars.len()
        invariant
            start <= i <= chars@.len(),
            chars@ == s@,
            digits == chars@.skip(start as int),
            digits == (if s@.len() > 0 && s@[0] == '+' {
                s@.drop_first()
            } else {
                s@
            }),
            digits.len() > 0,
            all_digits(chars@.subrange(start as int, i as int)),
            value == digits_value(chars@.subrange(start as int, i as int)),
        decreases chars@.len() - i,
    {
        let ghost prefix = chars@.subrange(start as int, i as int);
        let ghost next = chars@.subrange(start as int, i + 1);
        assert(next.drop_last() =~= prefix);
        assert(next.last() == chars@[i as int]);
        match digit_of(chars[i]) {
            None => {
                assert(digits[i - start] == chars@[i as int]);
                assert(!all_digits(digits));
                return None;
            },
            Some(d) => {
                assert(all_digits(next)) by {
                    assert forall|k: int| 0 <= k < next.len() implies digit_value(#[trigger] next[k]) >= 0 by {
                        if k < prefix.len() {
                            assert(next[k] == prefix[k]);
                        }
                    }
                }
                let tens = value.checked_mul(10);
                let sum = match tens {
                    Some(t) => t.checked_add(d),
                    None => None,
                };
                match sum {
                    Some(v) => {
                        value = v;
                    },
                    None => {
                        // The number of the digits so far does not fit, and
                        // more digits only make it bigger.
                        proof {
                            lemma_digits_value_prefix_bound(digits, (i + 1 - start) as int);
                            assert(digits.take((i + 1 - start) as int) =~= next);
                        }
                        return None;
                    },
                }
            },
        }
        i = i + 1;
    }
    assert(chars@.subrange(start as int, chars@.len() as int) =~= digits);
    Some(value)
}

/// The number a prefix of digits writes is at most the number of the whole.
proof fn lemma_digits_value_prefix_bound(s: Seq<char>, k: int)
    requires
        0 < k <= s.len(),
    ensures
        all_digits(s) ==> digits_value(s.take(k)) <= digits_value(s),
    decreases s.len() - k,
{
    if all_digits(s) && k < s.len() {
        lemma_digits_value_prefix_bound(s.drop_last(), k);
        assert(s.drop_last().take(k) =~= s.take(k));
        assert(all_digits(s.drop_last())) by {
            assert forall|i: int| 0 <= i < s.drop_last().len() implies digit_value(
                #[trigger] s.drop_last()[i],
            ) >= 0 by {
                assert(s.drop_last()[i] == s[i]);
            }
        }
        lemma_digits_value_grows(s);
    } else if all_digits(s) {
        assert(s.take(k) =~= s);
    }
}

/// `after` is `before` with `revset` for its revset.
pub open spec fn revset_replaced(before: Model, after: Model, revset: Seq<char>) -> bool {
    &&& after.revset@ == revset
    &&& after == Model { revset: after.revset, ..before }
}

/// What applying `value` to a prompt for `action` does, from `before` to
/// `after`, and what it leaves for the caller.
pub open spec fn applied(
    before: Model,
    after: Model,
    action: ActionView,
    value: Seq<char>,
    outcome: ApplyOutcome,
) -> bool {
    let g = before.global_args@;
    match action {
        ActionView::SetRevset => {
            &&& revset_replaced(before, after, value)
            &&& outcome matches ApplyOutcome::SyncRevset { previous } && previous@ == before.revset@
        },
        ActionView::WorkspaceAddPathOnly | ActionView::WorkspaceAddPathPrompt { .. }
        | ActionView::WorkspaceForget | ActionView::WorkspaceRename => {
            if value.len() == 0 {
                outcome is Done && cancelled_reported(before, after)
            } else {
                outcome is Unavailable && after == before
            }
        },
        _ => outcome is Done && match action {
            ActionView::Describe => queued_for_change(
                before,
                after,
                before.selected_change(),
                |c: Seq<char>| jj_describe_with_message_view(c, value, g),
            ),
            ActionView::BookmarkCreate => queued_for_change(
                before,
                after,
                before.selected_change(),
                |c: Seq<char>| jj_bookmark_create_view(value, c, g),
            ),
            ActionView::BookmarkDelete => commands_queued(
                before,
                after,
                seq![jj_bookmark_delete_view(value, g)],
            ),
            ActionView::BookmarkForget { include_remotes } => commands_queued(
                before,
                after,
                seq![jj_bookmark_forget_view(value, include_remotes, g)],
            ),
            ActionView::BookmarkRenameFrom => text_prompted(
                before,
                after,
                "Bookmark to"@,
                Seq::empty(),
                ActionView::BookmarkRenameTo { old_name: value },
            ),
            ActionView::BookmarkRenameTo { old_name } => commands_queued(
                before,
                after,
                seq![jj_bookmark_rename_view(old_name, value, g)],
            ),
            ActionView::BookmarkSet => queued_for_change(
                before,
                after,
                before.selected_change(),
                |c: Seq<char>| jj_bookmark_set_view(value, c, g),
            ),
            ActionView::BookmarkTrack => commands_queued(
                before,
                after,
                seq![jj_bookmark_track_view(value, g)],
            ),
            ActionView::BookmarkUntrack => commands_queued(
                before,
                after,
                seq![jj_bookmark_untrack_view(value, g)],
            ),
            ActionView::EditTarget => commands_queued(before, after, seq![jj_edit_view(value, g)]),
            ActionView::FileTrack => commands_queued(
                before,
                after,
                seq![jj_file_track_view(value, g)],
            ),
            ActionView::GitFetchBranch => commands_queued(
                before,
                after,
                seq![jj_git_fetch_view(Some("-b"@), Some(value), g)],
            ),
            ActionView::GitFetchRemote => commands_queued(
                before,
                after,
                seq![jj_git_fetch_view(Some("--remote"@), Some(value), g)],
            ),
            ActionView::GitPushNamed { change_id } => commands_queued(
                before,
                after,
                seq![jj_git_push_view(Some("--named"@), Some(value + "="@ + change_id), g)],
            ),
            ActionView::GitPushBookmark => commands_queued(
                before,
                after,
                seq![jj_git_push_view(Some("-b"@), Some(value), g)],
            ),
            ActionView::MetaeditAuthor { change_id } => commands_queued(
                before,
                after,
                seq![jj_metaedit_view(change_id, "--author"@, Some(value), g)],
            ),
            ActionView::MetaeditAuthorTimestamp { change_id } => commands_queued(
                before,
                after,
                seq![jj_metaedit_view(change_id, "--author-timestamp"@, Some(value), g)],
            ),
            ActionView::NewAtTarget => commands_queued(
                before,
                after,
                seq![jj_new_view(value, Seq::empty(), g)],
            ),
            ActionView::NextPrevOffset { direction, mode } => commands_queued(
                before,
                after,
                seq![jj_next_prev_view(direction_arg(direction), next_prev_flag(mode), Some(value), g)],
            ),
            ActionView::ParallelizeRevset => commands_queued(
                before,
                after,
                seq![jj_parallelize_view(value, g)],
            ),
            ActionView::RebaseTarget { source_type, destination_type } => queued_for_change(
                before,
                after,
                before.saved_change(),
                |s: Seq<char>|
                    jj_rebase_view(
                        rebase_source_flag(source_type),
                        s,
                        rebase_destination_flag(destination_type),
                        value,
                        g,
                    ),
            ),
            ActionView::SelectInRevset => match parsed_usize(value) {
                Some(i) => {
                    &&& after.same_but_selection(&before)
                    &&& after.selected() == i
                },
                None => after == before,
            },
            ActionView::WorkspaceAddNamePrompt => text_prompted(
                before,
                after,
                "Workspace path"@,
                Seq::empty(),
                ActionView::WorkspaceAddPathPrompt { name: value },
            ),
            _ => after == before,
        },
    }
}


impl Model {
    /// Opens a prompt labelled `prompt` that starts with `initial_text` and
    /// whose value `action` takes.
    pub(crate) fn start_text_input(&mut self, prompt: &str, initial_text: &str, action: TextInputAction)
        ensures
            text_prompted(*old(self), *final(self), prompt@, initial_text@, action@),
            old(self).wf() ==> final(self).wf(),
    {
        self.info_list = None;
        self.state = State::EnteringText;
        self.text_input = Some(
            TextInputSession {
                prompt: String::from_str(prompt),
                initial_text: String::from_str(initial_text),
                action,
                fuzzy: None,
            },
        );
    }

    /// Opens a prompt labelled `prompt` with a finder over `candidates`,
    /// whose value `action` takes; without candidates, a plain empty prompt.
    pub(crate) fn start_fuzzy_input(
        &mut self,
        prompt: &str,
        candidates: Vec<FuzzyCandidate>,
        action: TextInputAction,
    )
        ensures
            fuzzy_prompted(*old(self), *final(self), prompt@, candidates_view(candidates@), action@),
            old(self).wf() ==> final(self).wf(),
    {
        if candidates.len() == 0 {
            proof {
                reveal_strlit("");
            }
            assert(""@ =~= Seq::<char>::empty());
            self.start_text_input(prompt, "", action);
            return;
        }
        let ghost cands = candidates_view(candidates@);
        assert(cands.len() == candidates.len());
        let fuzzy = FuzzyFinderState::new(candidates);
        self.info_list = None;
        self.state = State::EnteringText;
        self.text_input = Some(
            TextInputSession {
                prompt: String::from_str(prompt),
                initial_text: String::new(),
                action,
                fuzzy: Some(fuzzy),
            },
        );
    }

    /// Whether a prompt with a finder is open.
    pub fn has_active_fuzzy(&self) -> (b: bool)
        ensures
            b == fuzzy_of(*self) is Some,
    {
        match &self.text_input {
            Some(s) => s.fuzzy.is_some(),
            None => false,
        }
    }

    /// Moves the finder's selection up one match, from the first to the last.
    pub fn move_fuzzy_selection_up(&mut self)
        requires
            old(self).wf(),
        ensures
            final(self).wf(),
            finder_selection_moved(*old(self), *final(self), |f: FuzzyFinderState| selection_up(f)),
    {
        if let Some(session) = &mut self.text_input {
            if let Some(fuzzy) = &mut session.fuzzy {
                fuzzy.move_selection_up();
            }
        }
    }

    /// Moves the finder's selection down one match, from the last to the first.
    pub fn move_fuzzy_selection_down(&mut self)
        requires
            old(self).wf(),
        ensures
            final(self).wf(),
            finder_selection_moved(*old(self), *final(self), |f: FuzzyFinderState| selection_down(f)),
    {
        if let Some(session) = &mut self.text_input {
            if let Some(fuzzy) = &mut session.fuzzy {
                fuzzy.move_selection_down();
            }
        }
    }

    /// Moves the finder's selection a page up, stopping at the first match.
    pub fn page_fuzzy_selection_up(&mut self)
        requires
            old(self).wf(),
        ensures
            final(self).wf(),
            finder_selection_moved(
                *old(self),
                *final(self),
                |f: FuzzyFinderState| selection_page_up(f, old(self).fuzzy_viewport_height as int),
            ),
    {
        let height = self.fuzzy_viewport_height;
        if let Some(session) = &mut self.text_input {
            if let Some(fuzzy) = &mut session.fuzzy {
                fuzzy.page_selection_up(height);
            }
        }
    }

    /// Moves the finder's selection a page down, stopping at the last match.
    pub fn page_fuzzy_selection_down(&mut self)
        requires
            old(self).wf(),
        ensures
            final(self).wf(),
            finder_selection_moved(
                *old(self),
                *final(self),
                |f: FuzzyFinderState| selection_page_down(f, old(self).fuzzy_viewport_height as int),
            ),
    {
        let height = self.fuzzy_viewport_height;
        if let Some(session) = &mut self.text_input {
            if let Some(fuzzy) = &mut session.fuzzy {
                fuzzy.page_selection_down(height);
            }
        }
    }
}


/// The revset a choice other than a custom or `jj`'s own names.
pub open spec fn named_revset(mode: SetRevsetMode) -> Option<Seq<char>> {
    match mode {
        SetRevsetMode::All => Some("all()"@),
        SetRevsetMode::Bookmarks => Some("bookmarks() | remote_bookmarks() | tags()"@),
        SetRevsetMode::Conflicts => Some("conflicts()"@),
        SetRevsetMode::Custom => None,
        SetRevsetMode::Default => Some(DEFAULT_REVSET@),
        SetRevsetMode::JjDefault => None,
        SetRevsetMode::Mine => Some("mine()"@),
        SetRevsetMode::Mutable => Some("mutable()"@),
        SetRevsetMode::Recent => Some("committer_date(after:\"1 week ago\")"@),
        SetRevsetMode::Stack => Some("trunk() | (trunk()..@)::"@),
        SetRevsetMode::WorkingCopyAncestry => Some("::@"@),
    }
}

/// The revset a choice names, where it names one.
fn named_revset_str(mode: SetRevsetMode) -> (r: Option<&'static str>)
    ensures
        crate::shell_out::opt_view(r) == named_revset(mode),
{
    match mode {
        SetRevsetMode::All => Some("all()"),
        SetRevsetMode::Bookmarks => Some("bookmarks() | remote_bookmarks() | tags()"),
        SetRevsetMode::Conflicts => Some("conflicts()"),
        SetRevsetMode::Custom => None,
        SetRevsetMode::Default => Some(DEFAULT_REVSET),
        SetRevsetMode::JjDefault => None,
        SetRevsetMode::Mine => Some("mine()"),
        SetRevsetMode::Mutable => Some("mutable()"),
        SetRevsetMode::Recent => Some("committer_date(after:\"1 week ago\")"),
        SetRevsetMode::Stack => Some("trunk() | (trunk()..@)::"),
        SetRevsetMode::WorkingCopyAncestry => Some("::@"),
    }
}

/// The message of a revset that was set.
pub open spec fn revset_set_message(revset: Seq<char>) -> Seq<char> {
    "Revset set to '"@ + revset + "'"@
}

impl Model {
    /// Filters the open finder by `query`, the first line of the prompt's
    /// text, as [`FuzzyFinderState::update_filter`] does.
    pub fn update_fuzzy_filter(&mut self, query: &str)
        requires
            old(self).wf(),
        ensures
            final(self).wf(),
            match fuzzy_of(*old(self)) {
                None => *final(self) == *old(self),
                Some(f) => {
                    let s = old(self).text_input->0;
                    let nf = fuzzy_of(*final(self))->0;
                    &&& fuzzy_of(*final(self)) is Some
                    &&& *final(self) == Model {
                        text_input: Some(TextInputSession { fuzzy: Some(nf), ..s }),
                        ..*old(self)
                    }
                    &&& nf.candidates == f.candidates
                    &&& filtered_view(nf.filtered@) == filter_for(
                        candidates_view(f.candidates@),
                        query@,
                    )
                    &&& nf.selected == (if nf.filtered.len() > 0 {
                        nf.filtered.len() - 1
                    } else {
                        0
                    })
                },
            },
    {
        if let Some(session) = &mut self.text_input {
            if let Some(fuzzy) = &mut session.fuzzy {
                fuzzy.update_filter(query);
            }
        }
    }

    /// `new` is this model after `submit_text_input`.
    pub open spec fn submit_text_input_done(self, new: Model, first_line: Seq<char>, o: ApplyOutcome) -> bool {
        &&& match self.text_input {
            None => new == submitting(self) && o is Done,
            Some(s) => match submitted_value(s, first_line) {
                None => o is Done && cancelled_reported(submitting(self), new),
                Some(v) => applied(submitting(self), new, s.action@, v, o),
            },
        }
    }

    /// Closes the prompt and applies its value: the finder's selected match,
    /// or the first line of its text, trimmed. Reports a cancelled prompt
    /// where there is no value.
    pub fn submit_text_input(&mut self, first_line: &str) -> (o: ApplyOutcome)
        requires
            old(self).wf(),
        ensures
            final(self).wf_but_selection(),
            !selects_by_number(*old(self)) ==> final(self).wf(),
            old(self).submit_text_input_done(*final(self), first_line@, o),
    {
        self.state = State::Running;
        let session = match self.text_input.take() {
            None => return ApplyOutcome::Done,
            Some(s) => s,
        };
        assert(*self == submitting(*old(self)));
        let value = match &session.fuzzy {
            Some(fuzzy) => fuzzy.selected_value(),
            None => {
                let v = trimmed(first_line);
                if v.as_str().is_empty() {
                    None
                } else {
                    Some(v)
                }
            },
        };
        match value {
            None => {
                self.cancelled();
                ApplyOutcome::Done
            },
            Some(v) => self.apply_text_input(session.action, v),
        }
    }

    /// Applies `value` to a prompt for `action`, as [`applied`] says.
    fn apply_text_input(&mut self, action: TextInputAction, value: String) -> (o: ApplyOutcome)
        requires
            old(self).wf(),
        ensures
            final(self).wf_but_selection(),
            action@ != ActionView::SelectInRevset ==> final(self).wf(),
            applied(*old(self), *final(self), action@, value@, o),
    {
        let ghost g = self.global_args@;
        match action {
            TextInputAction::SetRevset => {
                let mut previous = value;
                std::mem::swap(&mut previous, &mut self.revset);
                ApplyOutcome::SyncRevset { previous }
            },
            TextInputAction::Describe => {
                match self.get_selected_change_id() {
                    None => self.invalid_selection(),
                    Some(c) => {
                        let cmd = JjCommand::jj_describe_with_message(c, value.as_str(), self.global_args.clone());
                        self.queue_jj_command(cmd);
                    },
                }
                ApplyOutcome::Done
            },
            TextInputAction::BookmarkCreate => {
                match self.get_selected_change_id() {
                    None => self.invalid_selection(),
                    Some(c) => {
                        let cmd = JjCommand::jj_bookmark_create(value.as_str(), c, self.global_args.clone());
                        self.queue_jj_command(cmd);
                    },
                }
                ApplyOutcome::Done
            },
            TextInputAction::BookmarkDelete => {
                let cmd = JjCommand::jj_bookmark_delete(value.as_str(), self.global_args.clone());
                self.queue_jj_command(cmd);
                ApplyOutcome::Done
            },
            TextInputAction::BookmarkForget { include_remotes } => {
                let cmd = JjCommand::jj_bookmark_forget(value.as_str(), include_remotes, self.global_args.clone());
                self.queue_jj_command(cmd);
                ApplyOutcome::Done
            },
            TextInputAction::BookmarkRenameFrom => {
                proof {
                    reveal_strlit("");
                }
                assert(""@ =~= Seq::<char>::empty());
                self.start_text_input("Bookmark to", "", TextInputAction::BookmarkRenameTo { old_name: value });
                ApplyOutcome::Done
            },
            TextInputAction::BookmarkRenameTo { old_name } => {
                let cmd = JjCommand::jj_bookmark_rename(old_name.as_str(), value.as_str(), self.global_args.clone());
                self.queue_jj_command(cmd);
                ApplyOutcome::Done
            },
            TextInputAction::BookmarkSet => {
                match self.get_selected_change_id() {
                    None => self.invalid_selection(),
                    Some(c) => {
                        let cmd = JjCommand::jj_bookmark_set(value.as_str(), c, self.global_args.clone());
                        self.queue_jj_command(cmd);
                    },
                }
                ApplyOutcome::Done
            },
            TextInputAction::BookmarkTrack => {
                let cmd = JjCommand::jj_bookmark_track(value.as_str(), self.global_args.clone());
                self.queue_jj_command(cmd);
                ApplyOutcome::Done
            },
            TextInputAction::BookmarkUntrack => {
                let cmd = JjCommand::jj_bookmark_untrack(value.as_str(), self.global_args.clone());
                self.queue_jj_command(cmd);
                ApplyOutcome::Done
            },
            TextInputAction::EditTarget => {
                let cmd = JjCommand::jj_edit(value.as_str(), self.global_args.clone());
                self.queue_jj_command(cmd);
                ApplyOutcome::Done
            },
            TextInputAction::FileTrack => {
                let cmd = JjCommand::jj_file_track(value.as_str(), self.global_args.clone());
                self.queue_jj_command(cmd);
                ApplyOutcome::Done
            },
            TextInputAction::GitFetchBranch => {
                let cmd = JjCommand::jj_git_fetch(Some("-b"), Some(value.as_str()), self.global_args.clone());
                self.queue_jj_command(cmd);
                ApplyOutcome::Done
            },
            TextInputAction::GitFetchRemote => {
                let cmd = JjCommand::jj_git_fetch(Some("--remote"), Some(value.as_str()), self.global_args.clone());
                self.queue_jj_command(cmd);
                ApplyOutcome::Done
            },
            TextInputAction::GitPushNamed { change_id } => {
                let mut named = value;
                named.append("=");
                named.append(change_id.as_str());
                let cmd = JjCommand::jj_git_push(Some("--named"), Some(named.as_str()), self.global_args.clone());
                self.queue_jj_command(cmd);
                ApplyOutcome::Done
            },
            TextInputAction::GitPushBookmark => {
                let cmd = JjCommand::jj_git_push(Some("-b"), Some(value.as_str()), self.global_args.clone());
                self.queue_jj_command(cmd);
                ApplyOutcome::Done
            },
            TextInputAction::MetaeditAuthor { change_id } => {
                let cmd = JjCommand::jj_metaedit(change_id.as_str(), "--author", Some(value.as_str()), self.global_args.clone());
                self.queue_jj_command(cmd);
                ApplyOutcome::Done
            },
            TextInputAction::MetaeditAuthorTimestamp { change_id } => {
                let cmd = JjCommand::jj_metaedit(
                    change_id.as_str(),
                    "--author-timestamp",
                    Some(value.as_str()),
                    self.global_args.clone(),
                );
                self.queue_jj_command(cmd);
                ApplyOutcome::Done
            },
            TextInputAction::NewAtTarget => {
                let no_flags: [&str; 0] = [];
                let cmd = JjCommand::jj_new(value.as_str(), &no_flags, self.global_args.clone());
                assert(crate::shell_out::str_views(no_flags@) =~= Seq::<Seq<char>>::empty());
                self.queue_jj_command(cmd);
                ApplyOutcome::Done
            },
            TextInputAction::NextPrevOffset { direction, mode } => {
                let cmd = JjCommand::jj_next_prev(
                    direction_str(direction),
                    next_prev_mode_flag(mode),
                    Some(value.as_str()),
                    self.global_args.clone(),
                );
                self.queue_jj_command(cmd);
                ApplyOutcome::Done
            },
            TextInputAction::ParallelizeRevset => {
                let cmd = JjCommand::jj_parallelize(value.as_str(), self.global_args.clone());
                self.queue_jj_command(cmd);
                ApplyOutcome::Done
            },
            TextInputAction::RebaseTarget { source_type, destination_type } => {
                match self.get_saved_change_id() {
                    None => self.invalid_selection(),
                    Some(source) => {
                        let cmd = JjCommand::jj_rebase(
                            rebase_source_str(source_type),
                            source,
                            rebase_destination_str(destination_type),
                            value.as_str(),
                            self.global_args.clone(),
                        );
                        self.queue_jj_command(cmd);
                    },
                }
                ApplyOutcome::Done
            },
            TextInputAction::SelectInRevset => {
                if let Some(i) = parse_usize(value.as_str()) {
                    self.log_select(i);
                }
                ApplyOutcome::Done
            },
            TextInputAction::WorkspaceAddNamePrompt => {
                proof {
                    reveal_strlit("");
                }
                assert(""@ =~= Seq::<char>::empty());
                self.start_text_input(
                    "Workspace path",
                    "",
                    TextInputAction::WorkspaceAddPathPrompt { name: value },
                );
                ApplyOutcome::Done
            },
            TextInputAction::WorkspaceList => ApplyOutcome::Done,
            TextInputAction::WorkspaceAddPathOnly | TextInputAction::WorkspaceAddPathPrompt { .. }
            | TextInputAction::WorkspaceForget | TextInputAction::WorkspaceRename => {
                if value.as_str().is_empty() {
                    self.cancelled();
                    ApplyOutcome::Done
                } else {
                    ApplyOutcome::Unavailable
                }
            },
        }
    }

    /// Records how loading the log for a new revset went: on `error`, its
    /// text in the info area and the `previous` revset back; else a message
    /// that the revset is set.
    pub fn finish_set_revset(&mut self, previous: String, error: Option<&str>)
        ensures
            match error {
                Some(e) => {
                    &&& final(self).revset@ == previous@
                    &&& final(self).info() == Some(crate::styled::ansi_lines(e@))
                    &&& *final(self) == Model {
                        revset: final(self).revset,
                        info_list: final(self).info_list,
                        ..*old(self)
                    }
                },
                None => {
                    &&& final(self).info() == single_line_info(revset_set_message(old(self).revset@))
                    &&& *final(self) == Model { info_list: final(self).info_list, ..*old(self) }
                },
            },
    {
        match error {
            Some(e) => {
                self.info_list = Some(crate::styled::text_lines(e));
                self.revset = previous;
            },
            None => {
                let mut message = String::from_str("Revset set to '");
                message.append(self.revset.as_str());
                message.append("'");
                self.info_list = Some(crate::model::single_line(message.as_str()));
            },
        }
    }

    /// `new` is this model after `set_revset`.
    pub open spec fn set_revset_done(self, new: Model, mode: SetRevsetMode, o: ApplyOutcome) -> bool {
        &&& mode == SetRevsetMode::Custom ==> o is Done && text_prompted(
            self,
            new,
            "Revset"@,
            self.revset@,
            ActionView::SetRevset,
        )
        &&& mode == SetRevsetMode::JjDefault ==> o is Unavailable && new == self
        &&& named_revset(mode) matches Some(r) ==> revset_replaced(self, new, r) && (
        o matches ApplyOutcome::SyncRevset { previous } && previous@ == self.revset@)
    }

    /// Chooses the revset the log shows: a prompt for a custom one, or one
    /// of the named revsets. `jj`'s own default needs a command this library
    /// does not build.
    pub fn set_revset(&mut self, mode: SetRevsetMode) -> (o: ApplyOutcome)
        requires
            old(self).wf(),
        ensures
            final(self).wf(),
            old(self).set_revset_done(*final(self), mode, o),
    {
        if mode == SetRevsetMode::Custom {
            let initial = self.revset.clone();
            self.start_text_input("Revset", initial.as_str(), TextInputAction::SetRevset);
            return ApplyOutcome::Done;
        }
        match named_revset_str(mode) {
            None => ApplyOutcome::Unavailable,
            Some(r) => {
                let mut previous = String::from_str(r);
                std::mem::swap(&mut previous, &mut self.revset);
                ApplyOutcome::SyncRevset { previous }
            },
        }
    }
}


/// The digit of `d` stands for `d`.
proof fn lemma_digit_value_of_digit(d: nat)
    requires
        d < 10,
    ensures
        digit_value(crate::keys::digit(d)) == d,
{
    if d == 0 {
    } else if d == 1 {
    } else if d == 2 {
    } else if d == 3 {
    } else if d == 4 {
    } else if d == 5 {
    } else if d == 6 {
    } else if d == 7 {
    } else if d == 8 {
    } else {
        assert(d == 9);
    }
}

/// The decimal digits of `n` are digits, at least one, and write `n`.
proof fn lemma_decimal_digits(n: nat)
    ensures
        crate::keys::decimal(n).len() > 0,
        all_digits(crate::keys::decimal(n)),
        digits_value(crate::keys::decimal(n)) == n,
    decreases n,
{
    let s = crate::keys::decimal(n);
    lemma_digit_value_of_digit(n % 10);
    if n < 10 {
        assert(n % 10 == n);
        assert(s =~= seq![crate::keys::digit(n)]);
        assert(s.drop_last() =~= Seq::<char>::empty());
        assert(digit_value(s[0]) >= 0);
        assert(digits_value(s) == digits_value(s.drop_last()) * 10 + digit_value(s.last()));
        assert(digits_value(Seq::<char>::empty()) == 0);
    } else {
        lemma_decimal_digits(n / 10);
        let p = crate::keys::decimal(n / 10);
        assert(s =~= p + seq![crate::keys::digit(n % 10)]);
        assert(s.drop_last() =~= p);
        assert(s.last() == crate::keys::digit(n % 10));
        assert forall|i: int| 0 <= i < s.len() implies digit_value(#[trigger] s[i]) >= 0 by {
            if i < p.len() {
                assert(s[i] == p[i]);
            } else {
                assert(s[i] == crate::keys::digit(n % 10));
            }
        }
        assert(n == (n / 10) * 10 + n % 10);
        assert(digits_value(s) == digits_value(p) * 10 + digit_value(s.last()));
        assert(digits_value(p) * 10 == (n / 10) * 10);
    }
}

/// Parsing the decimal digits of a `usize` gives it back: the index a
/// finder's choice submits is the node it was made for.
pub proof fn lemma_decimal_parses_back(n: nat)
    requires
        n <= usize::MAX,
    ensures
        parsed_usize(crate::keys::decimal(n)) == Some(n as int),
{
    lemma_decimal_digits(n);
    let s = crate::keys::decimal(n);
    assert(digit_value(s[0]) >= 0);
}

/// Every candidate of the commit of node `index` is submitted as the node's
/// index.
proof fn lemma_commit_candidates_target(entry: crate::model::LogListEntry, index: int, k: int)
    requires
        0 <= k < crate::actions::commit_candidates(entry, index, true).len(),
    ensures
        crate::actions::commit_candidates(entry, index, true)[k].target == Some(crate::keys::decimal(index as nat)),
        entry.commit_node && entry.commit is Some,
{
    let c = entry.commit->0;
    let head = seq![
        crate::actions::node_candidate(c.change_id@, index, true),
        crate::actions::node_candidate(c.commit_id@, index, true),
    ];
    let bs = crate::model::strings_view(c.bookmarks@).map_values(
        |b: Seq<char>| crate::actions::node_candidate(b, index, true),
    );
    let ws = crate::model::strings_view(c.workspaces@).map_values(
        |w: Seq<char>| crate::actions::node_candidate(w, index, true),
    );
    let all = head + bs + ws;
    assert(crate::actions::commit_candidates(entry, index, true) == all);
    if k < 2 {
        assert(all[k] == head[k]);
    } else if k < 2 + bs.len() {
        assert(all[k] == bs[k - 2]);
    } else {
        assert(all[k] == ws[k - 2 - bs.len()]);
    }
}

/// Each choice of the finder over the commits the log shows (by change id,
/// commit id, bookmark or workspace) submits the index of a commit node of
/// the list, and parsing it back gives that node.
pub proof fn lemma_revset_choice_names_its_node(
    entries: Seq<crate::model::LogListEntry>,
    n: int,
    k: int,
)
    requires
        0 <= n <= entries.len(),
        n <= usize::MAX + 1,
        0 <= k < crate::actions::revset_candidates(entries, n, true).len(),
    ensures
        exists|i: int|
            0 <= i < n && entries[i].commit_node && entries[i].commit is Some
                && crate::actions::revset_candidates(entries, n, true)[k].target == Some(
                crate::keys::decimal(i as nat),
            ) && parsed_usize(crate::keys::decimal(i as nat)) == Some(i),
    decreases n,
{
    let prefix = crate::actions::revset_candidates(entries, n - 1, true);
    let last = crate::actions::commit_candidates(entries[n - 1], n - 1, true);
    assert(crate::actions::revset_candidates(entries, n, true) == prefix + last);
    if k < prefix.len() {
        lemma_revset_choice_names_its_node(entries, n - 1, k);
        let i = choose|i: int|
            0 <= i < n - 1 && entries[i].commit_node && entries[i].commit is Some
                && prefix[k].target == Some(crate::keys::decimal(i as nat)) && parsed_usize(
                crate::keys::decimal(i as nat),
            ) == Some(i);
        assert((prefix + last)[k] == prefix[k]);
    } else {
        lemma_commit_candidates_target(entries[n - 1], n - 1, k - prefix.len());
        assert((prefix + last)[k] == last[k - prefix.len()]);
        lemma_decimal_parses_back((n - 1) as nat);
        assert(parsed_usize(crate::keys::decimal((n - 1) as nat)) == Some(n - 1));
    }
}

/// A prompt without a finder submits the first line of its text, trimmed,
/// where that is not empty, to the action it was opened for.
pub proof fn lemma_plain_prompt_submits_trimmed_line(
    old: Model,
    new: Model,
    prompt: Seq<char>,
    initial: Seq<char>,
    action: ActionView,
    line: Seq<char>,
)
    requires
        text_prompted(old, new, prompt, initial, action),
    ensures
        new.text_input matches Some(s) && s.action@ == action && submitted_value(s, line) == (if trim(
            line,
        ).len() == 0 {
            None
        } else {
            Some(trim(line))
        }),
{
}

/// A finder submits, before any key moves its selection or filters it, the
/// candidate it lists last: the one whose text sorts first.
pub proof fn lemma_fresh_finder_submits_last(
    old: Model,
    new: Model,
    prompt: Seq<char>,
    cands: Seq<CandidateView>,
    action: ActionView,
    line: Seq<char>,
)
    requires
        fuzzy_prompted(old, new, prompt, cands, action),
        cands.len() > 0,
    ensures
        new.text_input matches Some(s) && s.action@ == action && submitted_value(s, line) == Some(
            match crate::fuzzy::sort_desc(cands)[cands.len() - 1].target {
                Some(t) => t,
                None => crate::fuzzy::sort_desc(cands)[cands.len() - 1].display,
            },
        ),
{
    let s = new.text_input->0;
    let f = s.fuzzy->0;
    crate::fuzzy::lemma_sort_desc_len(cands);
    assert(filtered_view(f.filtered@).len() == f.filtered@.len());
    assert(filtered_view(f.filtered@)[cands.len() - 1].candidate_index == cands.len() - 1);
}

} // verus!
