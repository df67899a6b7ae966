//! The `jj` commands the key bindings ask for: each takes the selected
//! change, the change saved by a first step, or both, and queues its command,
//! opens a prompt for what it still needs, or reports an invalid selection.
use crate::message::{
    GitFetchMode, GitPushMode, AbandonMode, AbsorbMode, BookmarkMoveMode, DuplicateDestination, DuplicateDestinationType,
    InterdiffMode, MetaeditAction, NewMode, NextPrevDirection, NextPrevMode, ParallelizeSource,
    RebaseDestination, RebaseDestinationType, RebaseSourceType, RestoreMode, RevertDestination,
    RevertDestinationType, RevertRevision, SignAction, SimplifyParentsMode, SquashMode, ViewMode,
};
use crate::model::{
    ActionView, Model, TextInputAction, commands_queued, invalid_selection_reported, text_prompted,
};
use crate::prompt::{
    direction_arg, direction_str, next_prev_flag, next_prev_mode_flag, queued_for_change,
    rebase_destination_flag, rebase_destination_str, rebase_source_flag, rebase_source_str,
};
use crate::shell_out::{
    JjCommand, JjCommandView, jj_abandon_view, jj_absorb_view, jj_bookmark_move_view,
    jj_commit_view, jj_describe_view, jj_diff_file_interactive_view,
    jj_diff_from_to_interactive_view, jj_duplicate_view, jj_edit_view, jj_evolog_view,
    jj_file_untrack_view, jj_git_fetch_view, jj_interdiff_view, jj_metaedit_view, jj_new_view,
    jj_next_prev_view, jj_parallelize_view, jj_rebase_view, jj_redo_view, jj_resolve_view,
    jj_restore_view, jj_revert_view, jj_show_view, jj_sign_view, jj_simplify_parents_view,
    jj_squash_interactive_view, jj_squash_into_interactive_view, jj_squash_noninteractive_view,
    jj_status_view, jj_undo_view, opt_view, str_views, jj_git_push_view,
};
use crate::fuzzy::{CandidateView, FuzzyCandidate, candidates_view};
use crate::keys::{decimal, usize_decimal};
use crate::model::{LogListEntry, fuzzy_prompted, strings_view};
use vstd::prelude::*;

verus! {

broadcast use vstd::string::group_string_axioms;

/// `after` queues the command `cmd` makes of `first` and `second`, or
/// reports an invalid selection where either is missing.
pub open spec fn queued_for_pair(
    before: Model,
    after: Model,
    first: Option<Seq<char>>,
    second: Option<Seq<char>>,
    cmd: spec_fn(Seq<char>, Seq<char>) -> JjCommandView,
) -> bool {
    match (first, second) {
        (Some(a), Some(b)) => commands_queued(before, after, seq![cmd(a, b)]),
        _ => invalid_selection_reported(before, after),
    }
}

/// The flag of `jj abandon` for `mode`, where it has one.
pub open spec fn abandon_flag(mode: AbandonMode) -> Option<Seq<char>> {
    match mode {
        AbandonMode::Default => None,
        AbandonMode::RetainBookmarks => Some("--retain-bookmarks"@),
        AbandonMode::RestoreDescendants => Some("--restore-descendants"@),
    }
}

/// The flag of `jj duplicate` that places the copy, where it has one.
pub open spec fn duplicate_flag(destination_type: DuplicateDestinationType) -> Option<Seq<char>> {
    match destination_type {
        DuplicateDestinationType::Default => None,
        DuplicateDestinationType::Onto => Some("--onto"@),
        DuplicateDestinationType::InsertAfter => Some("--insert-after"@),
        DuplicateDestinationType::InsertBefore => Some("--insert-before"@),
    }
}

/// The flag of `jj revert` that places the reverting change.
pub open spec fn revert_destination_flag(destination_type: RevertDestinationType) -> Seq<char> {
    match destination_type {
        RevertDestinationType::Onto => "--onto"@,
        RevertDestinationType::InsertAfter => "--insert-after"@,
        RevertDestinationType::InsertBefore => "--insert-before"@,
    }
}

/// The subcommand of `jj` for `action`.
pub open spec fn sign_arg(action: SignAction) -> Seq<char> {
    match action {
        SignAction::Sign => "sign"@,
        SignAction::Unsign => "unsign"@,
    }
}

/// The flag of `jj simplify-parents` for `mode`.
pub open spec fn simplify_flag(mode: SimplifyParentsMode) -> Seq<char> {
    match mode {
        SimplifyParentsMode::Revisions => "-r"@,
        SimplifyParentsMode::Source => "-s"@,
    }
}

/// The flag of `jj metaedit` for an action that takes no value.
pub open spec fn metaedit_flag(action: MetaeditAction) -> Seq<char> {
    match action {
        MetaeditAction::UpdateChangeId => "--update-change-id"@,
        MetaeditAction::UpdateAuthorTimestamp => "--update-author-timestamp"@,
        MetaeditAction::UpdateAuthor => "--update-author"@,
        _ => "--force-rewrite"@,
    }
}

/// The revset of the revisions from `from` to `to`.
pub open spec fn range_revset(from: Seq<char>, to: Seq<char>) -> Seq<char> {
    from + "::"@ + to
}

/// The revset of `change` and its parents.
pub open spec fn with_parents_revset(change: Seq<char>) -> Seq<char> {
    change + "-::"@ + change
}

/// The revset of the revisions from `from` to `to`.
fn range_revset_string(from: &str, to: &str) -> (r: String)
    ensures
        r@ == range_revset(from@, to@),
{
    let mut r = String::from_str(from);
    r.append("::");
    r.append(to);
    r
}

/// The revset of `change` and its parents.
fn with_parents_revset_string(change: &str) -> (r: String)
    ensures
        r@ == with_parents_revset(change@),
{
    let mut r = String::from_str(change);
    r.append("-::");
    r.append(change);
    r
}

impl Model {
    /// `new` is this model after `jj_abandon`.
    pub open spec fn jj_abandon_done(self, new: Model, mode: AbandonMode) -> bool {
        &&& queued_for_change(
            self,
            new,
            self.selected_change(),
            |c: Seq<char>| jj_abandon_view(c, abandon_flag(mode), self.global_args@),
        )
    }

    /// Abandons the selected change.
    pub fn jj_abandon(&mut self, mode: AbandonMode)
        requires
            old(self).wf(),
        ensures
            final(self).wf(),
            old(self).jj_abandon_done(*final(self), mode),
    {
        let flag = match mode {
            AbandonMode::Default => None,
            AbandonMode::RetainBookmarks => Some("--retain-bookmarks"),
            AbandonMode::RestoreDescendants => Some("--restore-descendants"),
        };
        assert(opt_view(flag) == abandon_flag(mode));
        match self.get_selected_change_id() {
            None => self.invalid_selection(),
            Some(c) => {
                let cmd = JjCommand::jj_abandon(c, flag, self.global_args.clone());
                self.queue_jj_command(cmd);
            },
        }
    }

    /// `new` is this model after `jj_absorb`.
    pub open spec fn jj_absorb_done(self, new: Model, mode: AbsorbMode) -> bool {
        &&& mode == AbsorbMode::Default ==> queued_for_change(
            self,
            new,
            self.selected_change(),
            |c: Seq<char>|
                jj_absorb_view(c, None, self.selected_file(), self.global_args@),
        )
        &&& mode == AbsorbMode::Into ==> queued_for_pair(
            self,
            new,
            self.saved_change(),
            self.selected_change(),
            |a: Seq<char>, b: Seq<char>|
                jj_absorb_view(a, Some(b), self.saved_file(), self.global_args@),
        )
    }

    /// Moves changes of the selected change into its ancestors, or of the
    /// saved change into the selected one; only in the file of that
    /// selection, where it is a file.
    pub fn jj_absorb(&mut self, mode: AbsorbMode)
        requires
            old(self).wf(),
        ensures
            final(self).wf(),
            old(self).jj_absorb_done(*final(self), mode),
    {
        match mode {
            AbsorbMode::Default => {
                match self.get_selected_change_id() {
                    None => self.invalid_selection(),
                    Some(c) => {
                        let file = self.get_selected_file_path();
                        let cmd = JjCommand::jj_absorb(c, None, file, self.global_args.clone());
                        self.queue_jj_command(cmd);
                    },
                }
            },
            AbsorbMode::Into => {
                match (self.get_saved_change_id(), self.get_selected_change_id()) {
                    (Some(from), Some(into)) => {
                        let file = self.get_saved_file_path();
                        let cmd = JjCommand::jj_absorb(from, Some(into), file, self.global_args.clone());
                        self.queue_jj_command(cmd);
                    },
                    _ => self.invalid_selection(),
                }
            },
        }
    }

    /// `new` is this model after `jj_bookmark_move`.
    pub open spec fn jj_bookmark_move_done(self, new: Model, mode: BookmarkMoveMode) -> bool {
        &&& mode == BookmarkMoveMode::Tug ==> queued_for_change(
            self,
            new,
            self.selected_change(),
            |c: Seq<char>|
                jj_bookmark_move_view(
                    "heads(::@- & bookmarks())"@,
                    c,
                    false,
                    self.global_args@,
                ),
        )
        &&& mode != BookmarkMoveMode::Tug ==> queued_for_pair(
            self,
            new,
            self.saved_change(),
            self.selected_change(),
            |a: Seq<char>, b: Seq<char>|
                jj_bookmark_move_view(
                    a,
                    b,
                    mode == BookmarkMoveMode::AllowBackwards,
                    self.global_args@,
                ),
        )
    }

    /// Moves bookmarks from the saved change to the selected one, backwards
    /// too where allowed; or moves the closest bookmarks below the working
    /// copy to the selected change.
    pub fn jj_bookmark_move(&mut self, mode: BookmarkMoveMode)
        requires
            old(self).wf(),
        ensures
            final(self).wf(),
            old(self).jj_bookmark_move_done(*final(self), mode),
    {
        match mode {
            BookmarkMoveMode::Tug => {
                match self.get_selected_change_id() {
                    None => self.invalid_selection(),
                    Some(to) => {
                        let cmd = JjCommand::jj_bookmark_move(
                            "heads(::@- & bookmarks())",
                            to,
                            false,
                            self.global_args.clone(),
                        );
                        self.queue_jj_command(cmd);
                    },
                }
            },
            _ => {
                let allow_backwards = mode == BookmarkMoveMode::AllowBackwards;
                match (self.get_saved_change_id(), self.get_selected_change_id()) {
                    (Some(from), Some(to)) => {
                        let cmd = JjCommand::jj_bookmark_move(
                            from,
                            to,
                            allow_backwards,
                            self.global_args.clone(),
                        );
                        self.queue_jj_command(cmd);
                    },
                    _ => self.invalid_selection(),
                }
            },
        }
    }

    /// `new` is this model after `jj_commit`.
    pub open spec fn jj_commit_done(self, new: Model) -> bool {
        &&& commands_queued(
            self,
            new,
            seq![jj_commit_view(self.selected_file(), self.global_args@)],
        )
    }

    /// Commits the working copy, only the selected file where a file is
    /// selected.
    pub fn jj_commit(&mut self)
        requires
            old(self).wf(),
        ensures
            final(self).wf(),
            old(self).jj_commit_done(*final(self)),
    {
        let file = self.get_selected_file_path();
        let cmd = JjCommand::jj_commit(file, self.global_args.clone());
        self.queue_jj_command(cmd);
    }

    /// `new` is this model after `jj_describe`.
    pub open spec fn jj_describe_done(self, new: Model) -> bool {
        &&& queued_for_change(
            self,
            new,
            self.selected_change(),
            |c: Seq<char>| jj_describe_view(c, self.global_args@),
        )
    }

    /// Describes the selected change in the editor.
    pub fn jj_describe(&mut self)
        requires
            old(self).wf(),
        ensures
            final(self).wf(),
            old(self).jj_describe_done(*final(self)),
    {
        match self.get_selected_change_id() {
            None => self.invalid_selection(),
            Some(c) => {
                let cmd = JjCommand::jj_describe(c, self.global_args.clone());
                self.queue_jj_command(cmd);
            },
        }
    }

    /// `new` is this model after `jj_duplicate`.
    pub open spec fn jj_duplicate_done(self, new: Model, destination_type: DuplicateDestinationType, destination: DuplicateDestination) -> bool {
        &&& ({
            let change = if duplicate_flag(destination_type) is Some {
                self.saved_change()
            } else {
                self.selected_change()
            };
            let target = match destination {
                DuplicateDestination::Default => Some(None::<Seq<char>>),
                DuplicateDestination::Selection => match self.selected_change() {
                    Some(c) => Some(Some(c)),
                    None => None,
                },
            };
            match (change, target) {
                (Some(c), Some(t)) => commands_queued(
                    self,
                    new,
                    seq![jj_duplicate_view(c, duplicate_flag(destination_type), t, self.global_args@)],
                ),
                _ => invalid_selection_reported(self, new),
            }
        })
    }

    /// Duplicates the selected change where jj puts it; or, placed relative
    /// to a destination, the saved change, relative to the selected one or
    /// where jj puts it.
    pub fn jj_duplicate(
        &mut self,
        destination_type: DuplicateDestinationType,
        destination: DuplicateDestination,
    )
        requires
            old(self).wf(),
        ensures
            final(self).wf(),
            old(self).jj_duplicate_done(*final(self), destination_type, destination),
    {
        let flag = match destination_type {
            DuplicateDestinationType::Default => None,
            DuplicateDestinationType::Onto => Some("--onto"),
            DuplicateDestinationType::InsertAfter => Some("--insert-after"),
            DuplicateDestinationType::InsertBefore => Some("--insert-before"),
        };
        assert(opt_view(flag) == duplicate_flag(destination_type));
        let change = if flag.is_some() {
            self.get_saved_change_id()
        } else {
            self.get_selected_change_id()
        };
        let change = match change {
            None => {
                self.invalid_selection();
                return;
            },
            Some(c) => c,
        };
        let target = match destination {
            DuplicateDestination::Default => None,
            DuplicateDestination::Selection => match self.get_selected_change_id() {
                None => {
                    self.invalid_selection();
                    return;
                },
                Some(d) => Some(d),
            },
        };
        let cmd = JjCommand::jj_duplicate(change, flag, target, self.global_args.clone());
        self.queue_jj_command(cmd);
    }

    /// `new` is this model after `jj_edit`.
    pub open spec fn jj_edit_done(self, new: Model) -> bool {
        &&& queued_for_change(
            self,
            new,
            self.selected_change(),
            |c: Seq<char>| jj_edit_view(c, self.global_args@),
        )
    }

    /// Edits the selected change.
    pub fn jj_edit(&mut self)
        requires
            old(self).wf(),
        ensures
            final(self).wf(),
            old(self).jj_edit_done(*final(self)),
    {
        match self.get_selected_change_id() {
            None => self.invalid_selection(),
            Some(c) => {
                let cmd = JjCommand::jj_edit(c, self.global_args.clone());
                self.queue_jj_command(cmd);
            },
        }
    }

    /// `new` is this model after `jj_evolog`.
    pub open spec fn jj_evolog_done(self, new: Model, patch: bool) -> bool {
        &&& queued_for_change(
            self,
            new,
            self.selected_change(),
            |c: Seq<char>| jj_evolog_view(c, patch, self.global_args@),
        )
    }

    /// Shows how the selected change evolved, with patches where asked.
    pub fn jj_evolog(&mut self, patch: bool)
        requires
            old(self).wf(),
        ensures
            final(self).wf(),
            old(self).jj_evolog_done(*final(self), patch),
    {
        match self.get_selected_change_id() {
            None => self.invalid_selection(),
            Some(c) => {
                let cmd = JjCommand::jj_evolog(c, patch, self.global_args.clone());
                self.queue_jj_command(cmd);
            },
        }
    }

    /// `new` is this model after `jj_file_untrack`.
    pub open spec fn jj_file_untrack_done(self, new: Model) -> bool {
        &&& match self.selected_file() {
            Some(f) if self.selected_is_working_copy() => commands_queued(
                self,
                new,
                seq![jj_file_untrack_view(f, self.global_args@)],
            ),
            _ => invalid_selection_reported(self, new),
        }
    }

    /// Stops tracking the selected file, which must be a file of the working
    /// copy.
    pub fn jj_file_untrack(&mut self)
        requires
            old(self).wf(),
        ensures
            final(self).wf(),
            old(self).jj_file_untrack_done(*final(self)),
    {
        let file = match self.get_selected_file_path() {
            None => {
                self.invalid_selection();
                return;
            },
            Some(f) => f,
        };
        if !self.is_selected_working_copy() {
            self.invalid_selection();
            return;
        }
        let cmd = JjCommand::jj_file_untrack(file, self.global_args.clone());
        self.queue_jj_command(cmd);
    }

    /// `new` is this model after `jj_interdiff`.
    pub open spec fn jj_interdiff_done(self, new: Model, mode: InterdiffMode) -> bool {
        &&& mode == InterdiffMode::FromSelection ==> queued_for_change(
            self,
            new,
            self.selected_change(),
            |c: Seq<char>|
                jj_interdiff_view(c, "@"@, self.selected_file(), self.global_args@),
        )
        &&& mode == InterdiffMode::FromSelectionToDestination ==> queued_for_pair(
            self,
            new,
            self.saved_change(),
            self.selected_change(),
            |a: Seq<char>, b: Seq<char>|
                jj_interdiff_view(a, b, self.saved_file(), self.global_args@),
        )
        &&& mode == InterdiffMode::ToSelection ==> queued_for_change(
            self,
            new,
            self.selected_change(),
            |c: Seq<char>|
                jj_interdiff_view("@"@, c, self.selected_file(), self.global_args@),
        )
    }

    /// Compares the selected change with the working copy, the saved change
    /// with the selected one, or the working copy with the selected change;
    /// only in the file of the selection the comparison starts from, where it
    /// is a file.
    pub fn jj_interdiff(&mut self, mode: InterdiffMode)
        requires
            old(self).wf(),
        ensures
            final(self).wf(),
            old(self).jj_interdiff_done(*final(self), mode),
    {
        match mode {
            InterdiffMode::FromSelection => {
                match self.get_selected_change_id() {
                    None => self.invalid_selection(),
                    Some(c) => {
                        let file = self.get_selected_file_path();
                        let cmd = JjCommand::jj_interdiff(c, "@", file, self.global_args.clone());
                        self.queue_jj_command(cmd);
                    },
                }
            },
            InterdiffMode::FromSelectionToDestination => {
                match (self.get_saved_change_id(), self.get_selected_change_id()) {
                    (Some(from), Some(to)) => {
                        let file = self.get_saved_file_path();
                        let cmd = JjCommand::jj_interdiff(from, to, file, self.global_args.clone());
                        self.queue_jj_command(cmd);
                    },
                    _ => self.invalid_selection(),
                }
            },
            InterdiffMode::ToSelection => {
                match self.get_selected_change_id() {
                    None => self.invalid_selection(),
                    Some(c) => {
                        let file = self.get_selected_file_path();
                        let cmd = JjCommand::jj_interdiff("@", c, file, self.global_args.clone());
                        self.queue_jj_command(cmd);
                    },
                }
            },
        }
    }

    /// `new` is this model after `jj_metaedit`.
    pub open spec fn jj_metaedit_done(self, new: Model, action: MetaeditAction) -> bool {
        &&& match self.selected_change() {
            None => invalid_selection_reported(self, new),
            Some(c) => match action {
                MetaeditAction::SetAuthor => text_prompted(
                    self,
                    new,
                    "Author"@,
                    Seq::empty(),
                    ActionView::MetaeditAuthor { change_id: c },
                ),
                MetaeditAction::SetAuthorTimestamp => text_prompted(
                    self,
                    new,
                    "Author timestamp"@,
                    Seq::empty(),
                    ActionView::MetaeditAuthorTimestamp { change_id: c },
                ),
                _ => commands_queued(
                    self,
                    new,
                    seq![jj_metaedit_view(c, metaedit_flag(action), None, self.global_args@)],
                ),
            },
        }
    }

    /// Changes metadata of the selected change: with a flag alone, or with a
    /// prompt for the author or the author timestamp.
    pub fn jj_metaedit(&mut self, action: MetaeditAction)
        requires
            old(self).wf(),
        ensures
            final(self).wf(),
            old(self).jj_metaedit_done(*final(self), action),
    {
        let change_id = match self.get_selected_change_id() {
            None => {
                self.invalid_selection();
                return;
            },
            Some(c) => c,
        };
        proof {
            reveal_strlit("");
        }
        assert(""@ =~= Seq::<char>::empty());
        let flag = match action {
            MetaeditAction::UpdateChangeId => "--update-change-id",
            MetaeditAction::UpdateAuthorTimestamp => "--update-author-timestamp",
            MetaeditAction::UpdateAuthor => "--update-author",
            MetaeditAction::ForceRewrite => "--force-rewrite",
            MetaeditAction::SetAuthor => {
                let change = String::from_str(change_id);
                self.start_text_input("Author", "", TextInputAction::MetaeditAuthor { change_id: change });
                return;
            },
            MetaeditAction::SetAuthorTimestamp => {
                let change = String::from_str(change_id);
                self.start_text_input(
                    "Author timestamp",
                    "",
                    TextInputAction::MetaeditAuthorTimestamp { change_id: change },
                );
                return;
            },
        };
        let cmd = JjCommand::jj_metaedit(change_id, flag, None, self.global_args.clone());
        self.queue_jj_command(cmd);
    }

    /// `new` is this model after `jj_new`.
    pub open spec fn jj_new_done(self, new: Model, mode: NewMode) -> bool {
        &&& mode == NewMode::AfterTrunk ==> commands_queued(
            self,
            new,
            seq![jj_new_view("trunk()"@, Seq::empty(), self.global_args@)],
        )
        &&& mode != NewMode::AfterTrunk ==> queued_for_change(
            self,
            new,
            self.selected_change(),
            |c: Seq<char>|
                jj_new_view(
                    c,
                    match mode {
                        NewMode::Before => seq!["--no-edit"@, "--insert-before"@],
                        NewMode::InsertAfter => seq!["--insert-after"@],
                        _ => Seq::empty(),
                    },
                    self.global_args@,
                ),
        )
    }

    /// Creates a change on the selected one, before it, or after it in
    /// between its children; or on trunk.
    pub fn jj_new(&mut self, mode: NewMode)
        requires
            old(self).wf(),
        ensures
            final(self).wf(),
            old(self).jj_new_done(*final(self), mode),
    {
        let no_flags: [&str; 0] = [];
        let before_flags: [&str; 2] = ["--no-edit", "--insert-before"];
        let after_flags: [&str; 1] = ["--insert-after"];
        assert(str_views(no_flags@) =~= Seq::<Seq<char>>::empty());
        assert(str_views(before_flags@) =~= seq!["--no-edit"@, "--insert-before"@]);
        assert(str_views(after_flags@) =~= seq!["--insert-after"@]);
        if mode == NewMode::AfterTrunk {
            let cmd = JjCommand::jj_new("trunk()", &no_flags, self.global_args.clone());
            self.queue_jj_command(cmd);
            return;
        }
        match self.get_selected_change_id() {
            None => self.invalid_selection(),
            Some(c) => {
                let cmd = match mode {
                    NewMode::Before => JjCommand::jj_new(c, &before_flags, self.global_args.clone()),
                    NewMode::InsertAfter => JjCommand::jj_new(c, &after_flags, self.global_args.clone()),
                    _ => JjCommand::jj_new(c, &no_flags, self.global_args.clone()),
                };
                self.queue_jj_command(cmd);
            },
        }
    }

    /// `new` is this model after `jj_new_after_trunk_sync`.
    pub open spec fn jj_new_after_trunk_sync_done(self, new: Model) -> bool {
        &&& commands_queued(
            self,
            new,
            seq![
                jj_git_fetch_view(None, None, self.global_args@),
                jj_new_view("trunk()"@, Seq::empty(), self.global_args@),
            ],
        )
    }

    /// Fetches from the default remote, then creates a change on trunk.
    pub fn jj_new_after_trunk_sync(&mut self)
        requires
            old(self).wf(),
        ensures
            final(self).wf(),
            old(self).jj_new_after_trunk_sync_done(*final(self)),
    {
        let no_flags: [&str; 0] = [];
        assert(str_views(no_flags@) =~= Seq::<Seq<char>>::empty());
        let fetch_cmd = JjCommand::jj_git_fetch(None, None, self.global_args.clone());
        let new_cmd = JjCommand::jj_new("trunk()", &no_flags, self.global_args.clone());
        let ghost views = seq![fetch_cmd@, new_cmd@];
        let mut cmds: Vec<JjCommand> = Vec::new();
        cmds.push(fetch_cmd);
        cmds.push(new_cmd);
        assert(crate::model::commands_view(cmds@) =~= views);
        self.queue_jj_commands(cmds);
    }

    /// `new` is this model after `jj_next_prev`.
    pub open spec fn jj_next_prev_done(self, new: Model, direction: NextPrevDirection, mode: NextPrevMode, offset: bool) -> bool {
        &&& offset ==> text_prompted(
            self,
            new,
            "Offset"@,
            Seq::empty(),
            ActionView::NextPrevOffset { direction, mode },
        )
        &&& !offset ==> commands_queued(
            self,
            new,
            seq![jj_next_prev_view(direction_arg(direction), next_prev_flag(mode), None, self.global_args@)],
        )
    }

    /// Moves the working copy to the next or previous change: with a prompt
    /// for the offset where asked, else by one.
    pub fn jj_next_prev(&mut self, direction: NextPrevDirection, mode: NextPrevMode, offset: bool)
        requires
            old(self).wf(),
        ensures
            final(self).wf(),
            old(self).jj_next_prev_done(*final(self), direction, mode, offset),
    {
        if offset {
            proof {
                reveal_strlit("");
            }
            assert(""@ =~= Seq::<char>::empty());
            self.start_text_input("Offset", "", TextInputAction::NextPrevOffset { direction, mode });
            return;
        }
        let cmd = JjCommand::jj_next_prev(
            direction_str(direction),
            next_prev_mode_flag(mode),
            None,
            self.global_args.clone(),
        );
        self.queue_jj_command(cmd);
    }

    /// `new` is this model after `jj_parallelize`.
    pub open spec fn jj_parallelize_done(self, new: Model, source: ParallelizeSource) -> bool {
        &&& source == ParallelizeSource::Range ==> queued_for_pair(
            self,
            new,
            self.saved_change(),
            self.selected_change(),
            |a: Seq<char>, b: Seq<char>|
                jj_parallelize_view(range_revset(a, b), self.global_args@),
        )
        &&& source == ParallelizeSource::Revset ==> text_prompted(
            self,
            new,
            "Parallelize revset"@,
            Seq::empty(),
            ActionView::ParallelizeRevset,
        )
        &&& source == ParallelizeSource::Selection ==> queued_for_change(
            self,
            new,
            self.selected_change(),
            |c: Seq<char>| jj_parallelize_view(with_parents_revset(c), self.global_args@),
        )
    }

    /// Makes siblings of the revisions from the saved change to the selected
    /// one, of the selected change and its parents, or of a revset entered in
    /// a prompt.
    pub fn jj_parallelize(&mut self, source: ParallelizeSource)
        requires
            old(self).wf(),
        ensures
            final(self).wf(),
            old(self).jj_parallelize_done(*final(self), source),
    {
        let revset = match source {
            ParallelizeSource::Range => match (self.get_saved_change_id(), self.get_selected_change_id()) {
                (Some(from), Some(to)) => range_revset_string(from, to),
                _ => {
                    self.invalid_selection();
                    return;
                },
            },
            ParallelizeSource::Revset => {
                proof {
                    reveal_strlit("");
                }
                assert(""@ =~= Seq::<char>::empty());
                self.start_text_input("Parallelize revset", "", TextInputAction::ParallelizeRevset);
                return;
            },
            ParallelizeSource::Selection => match self.get_selected_change_id() {
                None => {
                    self.invalid_selection();
                    return;
                },
                Some(c) => with_parents_revset_string(c),
            },
        };
        let cmd = JjCommand::jj_parallelize(revset.as_str(), self.global_args.clone());
        self.queue_jj_command(cmd);
    }

    /// `new` is this model after `jj_rebase`.
    pub open spec fn jj_rebase_done(self, new: Model, source_type: RebaseSourceType, destination_type: RebaseDestinationType, destination: RebaseDestination) -> bool {
        &&& ({
            let target = match destination {
                RebaseDestination::Selection => self.selected_change(),
                RebaseDestination::Trunk => Some("trunk()"@),
                RebaseDestination::Current => Some("@"@),
            };
            queued_for_pair(
                self,
                new,
                self.saved_change(),
                target,
                |a: Seq<char>, b: Seq<char>|
                    jj_rebase_view(
                        rebase_source_flag(source_type),
                        a,
                        rebase_destination_flag(destination_type),
                        b,
                        self.global_args@,
                    ),
            )
        })
    }

    /// Rebases the saved change, as `source_type` says, relative to the
    /// selected change, trunk or the working copy.
    pub fn jj_rebase(
        &mut self,
        source_type: RebaseSourceType,
        destination_type: RebaseDestinationType,
        destination: RebaseDestination,
    )
        requires
            old(self).wf(),
        ensures
            final(self).wf(),
            old(self).jj_rebase_done(*final(self), source_type, destination_type, destination),
    {
        let source = match self.get_saved_change_id() {
            None => {
                self.invalid_selection();
                return;
            },
            Some(s) => s,
        };
        let target = match destination {
            RebaseDestination::Selection => match self.get_selected_change_id() {
                None => {
                    self.invalid_selection();
                    return;
                },
                Some(d) => d,
            },
            RebaseDestination::Trunk => "trunk()",
            RebaseDestination::Current => "@",
        };
        let cmd = JjCommand::jj_rebase(
            rebase_source_str(source_type),
            source,
            rebase_destination_str(destination_type),
            target,
            self.global_args.clone(),
        );
        self.queue_jj_command(cmd);
    }

    /// `new` is this model after `jj_rebase_selected_branch_onto_trunk`.
    pub open spec fn jj_rebase_selected_branch_onto_trunk_done(self, new: Model) -> bool {
        &&& queued_for_change(
            self,
            new,
            self.selected_change(),
            |c: Seq<char>|
                jj_rebase_view("--branch"@, c, "--onto"@, "trunk()"@, self.global_args@),
        )
    }

    /// Rebases the branch of the selected change onto trunk.
    pub fn jj_rebase_selected_branch_onto_trunk(&mut self)
        requires
            old(self).wf(),
        ensures
            final(self).wf(),
            old(self).jj_rebase_selected_branch_onto_trunk_done(*final(self)),
    {
        match self.get_selected_change_id() {
            None => self.invalid_selection(),
            Some(c) => {
                let cmd = JjCommand::jj_rebase("--branch", c, "--onto", "trunk()", self.global_args.clone());
                self.queue_jj_command(cmd);
            },
        }
    }

    /// `new` is this model after `jj_rebase_selected_branch_onto_trunk_sync`.
    pub open spec fn jj_rebase_selected_branch_onto_trunk_sync_done(self, new: Model) -> bool {
        &&& match self.selected_change() {
            None => invalid_selection_reported(self, new),
            Some(c) => commands_queued(
                self,
                new,
                seq![
                    jj_git_fetch_view(None, None, self.global_args@),
                    jj_rebase_view("--branch"@, c, "--onto"@, "trunk()"@, self.global_args@),
                ],
            ),
        }
    }

    /// Fetches from the default remote, then rebases the branch of the
    /// selected change onto trunk.
    pub fn jj_rebase_selected_branch_onto_trunk_sync(&mut self)
        requires
            old(self).wf(),
        ensures
            final(self).wf(),
            old(self).jj_rebase_selected_branch_onto_trunk_sync_done(*final(self)),
    {
        match self.get_selected_change_id() {
            None => self.invalid_selection(),
            Some(c) => {
                let fetch_cmd = JjCommand::jj_git_fetch(None, None, self.global_args.clone());
                let rebase_cmd = JjCommand::jj_rebase("--branch", c, "--onto", "trunk()", self.global_args.clone());
                let ghost views = seq![fetch_cmd@, rebase_cmd@];
                let mut cmds: Vec<JjCommand> = Vec::new();
                cmds.push(fetch_cmd);
                cmds.push(rebase_cmd);
                assert(crate::model::commands_view(cmds@) =~= views);
                self.queue_jj_commands(cmds);
            },
        }
    }

    /// `new` is this model after `jj_redo`.
    pub open spec fn jj_redo_done(self, new: Model) -> bool {
        &&& commands_queued(self, new, seq![jj_redo_view(self.global_args@)])
    }

    /// Redoes the last undone operation.
    pub fn jj_redo(&mut self)
        requires
            old(self).wf(),
        ensures
            final(self).wf(),
            old(self).jj_redo_done(*final(self)),
    {
        let cmd = JjCommand::jj_redo(self.global_args.clone());
        self.queue_jj_command(cmd);
    }

    /// `new` is this model after `jj_undo`.
    pub open spec fn jj_undo_done(self, new: Model) -> bool {
        &&& commands_queued(self, new, seq![jj_undo_view(self.global_args@)])
    }

    /// Undoes the last operation.
    pub fn jj_undo(&mut self)
        requires
            old(self).wf(),
        ensures
            final(self).wf(),
            old(self).jj_undo_done(*final(self)),
    {
        let cmd = JjCommand::jj_undo(self.global_args.clone());
        self.queue_jj_command(cmd);
    }

    /// `new` is this model after `jj_status`.
    pub open spec fn jj_status_done(self, new: Model) -> bool {
        &&& commands_queued(self, new, seq![jj_status_view(self.global_args@)])
    }

    /// Shows the status of the working copy.
    pub fn jj_status(&mut self)
        requires
            old(self).wf(),
        ensures
            final(self).wf(),
            old(self).jj_status_done(*final(self)),
    {
        let cmd = JjCommand::jj_status(self.global_args.clone());
        self.queue_jj_command(cmd);
    }

    /// `new` is this model after `jj_resolve`.
    pub open spec fn jj_resolve_done(self, new: Model) -> bool {
        &&& queued_for_change(
            self,
            new,
            self.selected_change(),
            |c: Seq<char>| jj_resolve_view(c, self.selected_file(), self.global_args@),
        )
    }

    /// Resolves conflicts of the selected change, in the selected file where
    /// a file is selected.
    pub fn jj_resolve(&mut self)
        requires
            old(self).wf(),
        ensures
            final(self).wf(),
            old(self).jj_resolve_done(*final(self)),
    {
        match self.get_selected_change_id() {
            None => self.invalid_selection(),
            Some(c) => {
                let file = self.get_selected_file_path();
                let cmd = JjCommand::jj_resolve(c, file, self.global_args.clone());
                self.queue_jj_command(cmd);
            },
        }
    }

    /// `new` is this model after `jj_simplify_parents`.
    pub open spec fn jj_simplify_parents_done(self, new: Model, mode: SimplifyParentsMode) -> bool {
        &&& queued_for_change(
            self,
            new,
            self.selected_change(),
            |c: Seq<char>| jj_simplify_parents_view(c, simplify_flag(mode), self.global_args@),
        )
    }

    /// Simplifies the parents of the selected change, or of it and its
    /// descendants.
    pub fn jj_simplify_parents(&mut self, mode: SimplifyParentsMode)
        requires
            old(self).wf(),
        ensures
            final(self).wf(),
            old(self).jj_simplify_parents_done(*final(self), mode),
    {
        let flag = match mode {
            SimplifyParentsMode::Revisions => "-r",
            SimplifyParentsMode::Source => "-s",
        };
        match self.get_selected_change_id() {
            None => self.invalid_selection(),
            Some(c) => {
                let cmd = JjCommand::jj_simplify_parents(c, flag, self.global_args.clone());
                self.queue_jj_command(cmd);
            },
        }
    }

    /// `new` is this model after `jj_sign`.
    pub open spec fn jj_sign_done(self, new: Model, action: SignAction, range: bool) -> bool {
        &&& range ==> queued_for_pair(
            self,
            new,
            self.saved_change(),
            self.selected_change(),
            |a: Seq<char>, b: Seq<char>|
                jj_sign_view(sign_arg(action), range_revset(a, b), self.global_args@),
        )
        &&& !range ==> queued_for_change(
            self,
            new,
            self.selected_change(),
            |c: Seq<char>| jj_sign_view(sign_arg(action), c, self.global_args@),
        )
    }

    /// Signs or unsigns the selected change, or the revisions from the saved
    /// change to the selected one.
    pub fn jj_sign(&mut self, action: SignAction, range: bool)
        requires
            old(self).wf(),
        ensures
            final(self).wf(),
            old(self).jj_sign_done(*final(self), action, range),
    {
        let revset = if range {
            match (self.get_saved_change_id(), self.get_selected_change_id()) {
                (Some(from), Some(to)) => range_revset_string(from, to),
                _ => {
                    self.invalid_selection();
                    return;
                },
            }
        } else {
            match self.get_selected_change_id() {
                None => {
                    self.invalid_selection();
                    return;
                },
                Some(c) => String::from_str(c),
            }
        };
        let subcommand = match action {
            SignAction::Sign => "sign",
            SignAction::Unsign => "unsign",
        };
        let cmd = JjCommand::jj_sign(subcommand, revset.as_str(), self.global_args.clone());
        self.queue_jj_command(cmd);
    }
}


/// The candidates that offer `names`, each submitted as itself.
pub open spec fn names_candidates(names: Seq<Seq<char>>) -> Seq<CandidateView> {
    names.map_values(|n: Seq<char>| CandidateView { display: n, target: None })
}

/// Candidates that offer `names`, each submitted as itself.
pub fn candidates_from_names(names: &Vec<String>) -> (r: Vec<FuzzyCandidate>)
    ensures
        candidates_view(r@) == names_candidates(names.deep_view()),
{
    let mut r: Vec<FuzzyCandidate> = Vec::new();
    for i in 0..names.len()
        invariant
            candidates_view(r@) == names_candidates(names.deep_view().take(i as int)),
    {
        let ghost before = r@;
        let c = FuzzyCandidate::from_display(names[i].clone());
        r.push(c);
        assert(r@ =~= before.push(c));
        assert(names.deep_view().take(i + 1) =~= names.deep_view().take(i as int).push(names@[i as int]@));
        assert(candidates_view(r@) =~= candidates_view(before).push(c@));
        assert(names_candidates(names.deep_view().take(i + 1)) =~= names_candidates(
            names.deep_view().take(i as int),
        ).push(CandidateView { display: names@[i as int]@, target: None }));
        assert(candidates_view(r@) =~= names_candidates(names.deep_view().take(i + 1)));
    }
    assert(names.deep_view().take(names.len() as int) =~= names.deep_view());
    r
}

/// The candidate showing `display` for the node at `index`, submitted as
/// the node's index where `targets` asks for it.
pub open spec fn node_candidate(display: Seq<char>, index: int, targets: bool) -> CandidateView {
    CandidateView { display, target: if targets { Some(decimal(index as nat)) } else { None } }
}

/// The candidates of the commit of node `index`, where it is a commit node:
/// its change id, its commit id, its bookmarks and its workspaces.
pub open spec fn commit_candidates(entry: LogListEntry, index: int, targets: bool) -> Seq<CandidateView> {
    match entry.commit {
        Some(c) if entry.commit_node => seq![
            node_candidate(c.change_id@, index, targets),
            node_candidate(c.commit_id@, index, targets),
        ] + strings_view(c.bookmarks@).map_values(|b: Seq<char>| node_candidate(b, index, targets))
            + strings_view(c.workspaces@).map_values(|w: Seq<char>| node_candidate(w, index, targets)),
        _ => Seq::empty(),
    }
}

/// The candidates of the commit nodes among the first `n` nodes, in order.
pub open spec fn revset_candidates(entries: Seq<LogListEntry>, n: int, targets: bool) -> Seq<CandidateView>
    decreases n,
{
    if n <= 0 {
        Seq::empty()
    } else {
        revset_candidates(entries, n - 1, targets) + commit_candidates(entries[n - 1], n - 1, targets)
    }
}

/// The description candidates of the commit nodes among the first `n`
/// nodes, in order: each description submitted as its node's index.
pub open spec fn description_candidates(entries: Seq<LogListEntry>, n: int) -> Seq<CandidateView>
    decreases n,
{
    if n <= 0 {
        Seq::empty()
    } else {
        let e = entries[n - 1];
        description_candidates(entries, n - 1) + match e.commit {
            Some(c) if e.commit_node => match c.description_first_line {
                Some(d) => seq![node_candidate(d@, n - 1, true)],
                None => Seq::empty(),
            },
            _ => Seq::empty(),
        }
    }
}

/// The bookmark candidates of the commit nodes among the first `n` nodes, in
/// order: each bookmark submitted as its node's index.
pub open spec fn bookmark_candidates(entries: Seq<LogListEntry>, n: int) -> Seq<CandidateView>
    decreases n,
{
    if n <= 0 {
        Seq::empty()
    } else {
        let e = entries[n - 1];
        bookmark_candidates(entries, n - 1) + match e.commit {
            Some(c) if e.commit_node => strings_view(c.bookmarks@).map_values(
                |b: Seq<char>| node_candidate(b, n - 1, true),
            ),
            _ => Seq::empty(),
        }
    }
}

/// A candidate showing `display` for the node at `index`.
fn make_node_candidate(display: &String, index: usize, targets: bool) -> (c: FuzzyCandidate)
    ensures
        c@ == node_candidate(display@, index as int, targets),
{
    let target = if targets {
        Some(usize_decimal(index))
    } else {
        None
    };
    FuzzyCandidate { display: display.clone(), target }
}

/// Appends a candidate for each of `names`, for the node at `index`.
fn push_name_candidates(r: &mut Vec<FuzzyCandidate>, names: &Vec<String>, index: usize, targets: bool)
    ensures
        candidates_view(final(r)@) == candidates_view(old(r)@) + strings_view(names@).map_values(
            |b: Seq<char>| node_candidate(b, index as int, targets),
        ),
{
    let ghost start = candidates_view(r@);
    for i in 0..names.len()
        invariant
            candidates_view(r@) == start + strings_view(names@.take(i as int)).map_values(
                |b: Seq<char>| node_candidate(b, index as int, targets),
            ),
    {
        let ghost before = r@;
        let c = make_node_candidate(&names[i], index, targets);
        r.push(c);
        assert(r@ =~= before.push(c));
        assert(names@.take(i + 1) =~= names@.take(i as int).push(names@[i as int]));
        assert(candidates_view(r@) =~= candidates_view(before).push(c@));
        assert(strings_view(names@.take(i + 1)) =~= strings_view(names@.take(i as int)).push(names@[i as int]@));
        assert(candidates_view(r@) =~= start + strings_view(names@.take(i + 1)).map_values(
            |b: Seq<char>| node_candidate(b, index as int, targets),
        ));
    }
    assert(names@.take(names.len() as int) =~= names@);
}

impl Model {
    /// The candidates of the commits the log shows, in order: change id,
    /// commit id, bookmarks and workspaces of each, submitted as the commit's
    /// node index where `targets` asks for it.
    fn log_revset_candidates(&self, targets: bool) -> (r: Vec<FuzzyCandidate>)
        ensures
            candidates_view(r@) == revset_candidates(self.entries(), self.entries().len() as int, targets),
    {
        let mut r: Vec<FuzzyCandidate> = Vec::new();
        for i in 0..self.log_list.len()
            invariant
                candidates_view(r@) == revset_candidates(self.entries(), i as int, targets),
        {
            let entry = &self.log_list[i];
            if entry.commit_node {
                if let Some(c) = &entry.commit {
                    let ghost start = candidates_view(r@);
                    let first = make_node_candidate(&c.change_id, i, targets);
                    r.push(first);
                    let second = make_node_candidate(&c.commit_id, i, targets);
                    r.push(second);
                    assert(candidates_view(r@) =~= start + seq![first@, second@]);
                    push_name_candidates(&mut r, &c.bookmarks, i, targets);
                    push_name_candidates(&mut r, &c.workspaces, i, targets);
                    assert(candidates_view(r@) =~= start + commit_candidates(self.entries()[i as int], i as int, targets));
                }
            }
            assert(revset_candidates(self.entries(), i + 1, targets) == revset_candidates(self.entries(), i as int, targets)
                + commit_candidates(self.entries()[i as int], i as int, targets));
            assert(candidates_view(r@) =~= revset_candidates(self.entries(), i + 1, targets));
        }
        r
    }

    /// `new` is this model after `select_in_revset`.
    pub open spec fn select_in_revset_done(self, new: Model) -> bool {
        &&& fuzzy_prompted(
            self,
            new,
            "Select"@,
            revset_candidates(self.entries(), self.entries().len() as int, true),
            ActionView::SelectInRevset,
        )
    }

    /// Opens a finder over the commits the log shows, by change id, commit
    /// id, bookmark or workspace, that selects the chosen commit.
    pub fn select_in_revset(&mut self)
        requires
            old(self).wf(),
        ensures
            final(self).wf(),
            old(self).select_in_revset_done(*final(self)),
    {
        let candidates = self.log_revset_candidates(true);
        self.start_fuzzy_input("Select", candidates, TextInputAction::SelectInRevset);
    }

    /// `new` is this model after `select_by_description`.
    pub open spec fn select_by_description_done(self, new: Model) -> bool {
        &&& fuzzy_prompted(
            self,
            new,
            "Select"@,
            description_candidates(self.entries(), self.entries().len() as int),
            ActionView::SelectInRevset,
        )
    }

    /// Opens a finder over the descriptions of the commits the log shows,
    /// that selects the chosen commit.
    pub fn select_by_description(&mut self)
        requires
            old(self).wf(),
        ensures
            final(self).wf(),
            old(self).select_by_description_done(*final(self)),
    {
        let mut candidates: Vec<FuzzyCandidate> = Vec::new();
        for i in 0..self.log_list.len()
            invariant
                candidates_view(candidates@) == description_candidates(self.entries(), i as int),
        {
            let entry = &self.log_list[i];
            let ghost before = candidates@;
            if entry.commit_node {
                if let Some(c) = &entry.commit {
                    if let Some(d) = &c.description_first_line {
                        let cand = make_node_candidate(d, i, true);
                        candidates.push(cand);
                        assert(candidates@ =~= before.push(cand));
                    }
                }
            }
            assert(candidates_view(candidates@) =~= description_candidates(self.entries(), i + 1));
        }
        self.start_fuzzy_input("Select", candidates, TextInputAction::SelectInRevset);
    }

    /// `new` is this model after `select_by_bookmark`.
    pub open spec fn select_by_bookmark_done(self, new: Model) -> bool {
        &&& fuzzy_prompted(
            self,
            new,
            "Select"@,
            bookmark_candidates(self.entries(), self.entries().len() as int),
            ActionView::SelectInRevset,
        )
    }

    /// Opens a finder over the bookmarks of the commits the log shows, that
    /// selects the chosen commit.
    pub fn select_by_bookmark(&mut self)
        requires
            old(self).wf(),
        ensures
            final(self).wf(),
            old(self).select_by_bookmark_done(*final(self)),
    {
        let mut candidates: Vec<FuzzyCandidate> = Vec::new();
        for i in 0..self.log_list.len()
            invariant
                candidates_view(candidates@) == bookmark_candidates(self.entries(), i as int),
        {
            let entry = &self.log_list[i];
            let ghost before = candidates_view(candidates@);
            if entry.commit_node {
                if let Some(c) = &entry.commit {
                    push_name_candidates(&mut candidates, &c.bookmarks, i, true);
                }
            }
            assert(candidates_view(candidates@) =~= bookmark_candidates(self.entries(), i + 1));
        }
        self.start_fuzzy_input("Select", candidates, TextInputAction::SelectInRevset);
    }

    /// `new` is this model after `jj_rebase_target_fuzzy`.
    pub open spec fn jj_rebase_target_fuzzy_done(self, new: Model, source_type: RebaseSourceType, destination_type: RebaseDestinationType) -> bool {
        &&& fuzzy_prompted(
            self,
            new,
            "Rebase target"@,
            revset_candidates(self.entries(), self.entries().len() as int, false),
            ActionView::RebaseTarget { source_type, destination_type },
        )
    }

    /// Opens a finder over the commits the log shows, by change id, commit
    /// id, bookmark or workspace, whose choice the saved change is rebased to.
    pub fn jj_rebase_target_fuzzy(
        &mut self,
        source_type: RebaseSourceType,
        destination_type: RebaseDestinationType,
    )
        requires
            old(self).wf(),
        ensures
            final(self).wf(),
            old(self).jj_rebase_target_fuzzy_done(*final(self), source_type, destination_type),
    {
        let candidates = self.log_revset_candidates(false);
        self.start_fuzzy_input(
            "Rebase target",
            candidates,
            TextInputAction::RebaseTarget { source_type, destination_type },
        );
    }
}


/// The flags of `jj restore` for `mode`, given the selected change and, for
/// a restore from the saved change, that one too.
pub open spec fn restore_flags(mode: RestoreMode, saved: Seq<char>, selected: Seq<char>) -> Seq<Seq<char>> {
    match mode {
        RestoreMode::ChangesIn => seq!["--changes-in"@, selected],
        RestoreMode::ChangesInRestoreDescendants => seq!["--changes-in"@, selected, "--restore-descendants"@],
        RestoreMode::From => seq!["--from"@, selected],
        RestoreMode::Into => seq!["--into"@, selected],
        RestoreMode::FromInto => seq!["--from"@, saved, "--into"@, selected],
    }
}

/// The flag and value of `jj git fetch` for a mode that needs no choice.
pub open spec fn fetch_args(mode: GitFetchMode) -> Option<Seq<char>> {
    match mode {
        GitFetchMode::AllRemotes => Some("--all-remotes"@),
        GitFetchMode::AllTracked => Some("--tracked"@),
        _ => None,
    }
}

/// The flag of `jj git push` for a mode that needs nothing selected.
pub open spec fn push_flag(mode: GitPushMode) -> Option<Seq<char>> {
    match mode {
        GitPushMode::All => Some("--all"@),
        GitPushMode::AllTracked => Some("--tracked"@),
        GitPushMode::Deleted => Some("--deleted"@),
        GitPushMode::Revision => Some("-r"@),
        GitPushMode::Change => Some("-c"@),
        _ => None,
    }
}

impl Model {
    /// `new` is this model after `jj_restore`.
    pub open spec fn jj_restore_done(self, new: Model, mode: RestoreMode) -> bool {
        &&& mode == RestoreMode::FromInto ==> queued_for_pair(
            self,
            new,
            self.saved_change(),
            self.selected_change(),
            |a: Seq<char>, b: Seq<char>|
                jj_restore_view(restore_flags(mode, a, b), self.saved_file(), self.global_args@),
        )
        &&& mode != RestoreMode::FromInto ==> queued_for_change(
            self,
            new,
            self.selected_change(),
            |c: Seq<char>|
                jj_restore_view(restore_flags(mode, Seq::empty(), c), self.selected_file(), self.global_args@),
        )
    }

    /// Restores files of the selected change from its parents, also keeping
    /// its descendants' contents, from the selected change into the working
    /// copy, into the selected change from its parents, or from the saved
    /// change into the selected one; only the file of that selection, where
    /// it is a file.
    pub fn jj_restore(&mut self, mode: RestoreMode)
        requires
            old(self).wf(),
        ensures
            final(self).wf(),
            old(self).jj_restore_done(*final(self), mode),
    {
        if mode == RestoreMode::FromInto {
            match (self.get_saved_change_id(), self.get_selected_change_id()) {
                (Some(from), Some(into)) => {
                    let flags: [&str; 4] = ["--from", from, "--into", into];
                    assert(str_views(flags@) =~= restore_flags(mode, from@, into@));
                    let file = self.get_saved_file_path();
                    let cmd = JjCommand::jj_restore(&flags, file, self.global_args.clone());
                    self.queue_jj_command(cmd);
                },
                _ => self.invalid_selection(),
            }
            return;
        }
        let c = match self.get_selected_change_id() {
            None => {
                self.invalid_selection();
                return;
            },
            Some(c) => c,
        };
        let file = self.get_selected_file_path();
        let cmd = match mode {
            RestoreMode::ChangesIn => {
                let flags: [&str; 2] = ["--changes-in", c];
                assert(str_views(flags@) =~= restore_flags(mode, Seq::empty(), c@));
                JjCommand::jj_restore(&flags, file, self.global_args.clone())
            },
            RestoreMode::ChangesInRestoreDescendants => {
                let flags: [&str; 3] = ["--changes-in", c, "--restore-descendants"];
                assert(str_views(flags@) =~= restore_flags(mode, Seq::empty(), c@));
                JjCommand::jj_restore(&flags, file, self.global_args.clone())
            },
            RestoreMode::From => {
                let flags: [&str; 2] = ["--from", c];
                assert(str_views(flags@) =~= restore_flags(mode, Seq::empty(), c@));
                JjCommand::jj_restore(&flags, file, self.global_args.clone())
            },
            _ => {
                let flags: [&str; 2] = ["--into", c];
                assert(str_views(flags@) =~= restore_flags(mode, Seq::empty(), c@));
                JjCommand::jj_restore(&flags, file, self.global_args.clone())
            },
        };
        self.queue_jj_command(cmd);
    }

    /// `new` is this model after `jj_revert`.
    pub open spec fn jj_revert_done(self, new: Model, revision: RevertRevision, destination_type: RevertDestinationType, destination: RevertDestination) -> bool {
        &&& ({
            let reverted = match revision {
                RevertRevision::Saved => self.saved_change(),
                RevertRevision::Selection => self.selected_change(),
            };
            let target = match destination {
                RevertDestination::Current => Some("@"@),
                RevertDestination::Selection => self.selected_change(),
            };
            queued_for_pair(
                self,
                new,
                reverted,
                target,
                |a: Seq<char>, b: Seq<char>|
                    jj_revert_view(a, revert_destination_flag(destination_type), b, self.global_args@),
            )
        })
    }

    /// Reverts the saved or the selected change, placing the reverting
    /// change relative to the working copy or the selected change.
    pub fn jj_revert(
        &mut self,
        revision: RevertRevision,
        destination_type: RevertDestinationType,
        destination: RevertDestination,
    )
        requires
            old(self).wf(),
        ensures
            final(self).wf(),
            old(self).jj_revert_done(*final(self), revision, destination_type, destination),
    {
        let reverted = match revision {
            RevertRevision::Saved => self.get_saved_change_id(),
            RevertRevision::Selection => self.get_selected_change_id(),
        };
        let reverted = match reverted {
            None => {
                self.invalid_selection();
                return;
            },
            Some(r) => r,
        };
        let flag = match destination_type {
            RevertDestinationType::Onto => "--onto",
            RevertDestinationType::InsertAfter => "--insert-after",
            RevertDestinationType::InsertBefore => "--insert-before",
        };
        let target = match destination {
            RevertDestination::Current => "@",
            RevertDestination::Selection => match self.get_selected_change_id() {
                None => {
                    self.invalid_selection();
                    return;
                },
                Some(d) => d,
            },
        };
        let cmd = JjCommand::jj_revert(reverted, flag, target, self.global_args.clone());
        self.queue_jj_command(cmd);
    }

    /// `new` is this model after `jj_squash`.
    pub open spec fn jj_squash_done(self, new: Model, mode: SquashMode) -> bool {
        &&& mode == SquashMode::Default ==> match self.selected_entry().commit {
            None => invalid_selection_reported(self, new),
            Some(c) => commands_queued(
                self,
                new,
                seq![
                    if c.description_first_line is None {
                        jj_squash_noninteractive_view(c.change_id@, self.selected_file(), self.global_args@)
                    } else {
                        jj_squash_interactive_view(c.change_id@, self.selected_file(), self.global_args@)
                    },
                ],
            ),
        }
        &&& mode == SquashMode::Into ==> queued_for_pair(
            self,
            new,
            self.saved_change(),
            self.selected_change(),
            |a: Seq<char>, b: Seq<char>|
                jj_squash_into_interactive_view(a, b, self.saved_file(), self.global_args@),
        )
    }

    /// Squashes the selected change into its parent, in the editor where it
    /// has a description, only the selected file where a file is selected;
    /// or the saved change into the selected one, in the editor, only the
    /// saved file where it is a file.
    pub fn jj_squash(&mut self, mode: SquashMode)
        requires
            old(self).wf(),
        ensures
            final(self).wf(),
            old(self).jj_squash_done(*final(self), mode),
    {
        match mode {
            SquashMode::Default => {
                let commit = match &self.log_list[self.log_list_selected].commit {
                    None => {
                        self.invalid_selection();
                        return;
                    },
                    Some(c) => c,
                };
                let file = self.get_selected_file_path();
                let cmd = if commit.description_first_line.is_none() {
                    JjCommand::jj_squash_noninteractive(commit.change_id.as_str(), file, self.global_args.clone())
                } else {
                    JjCommand::jj_squash_interactive(commit.change_id.as_str(), file, self.global_args.clone())
                };
                self.queue_jj_command(cmd);
            },
            SquashMode::Into => {
                match (self.get_saved_change_id(), self.get_selected_change_id()) {
                    (Some(from), Some(into)) => {
                        let file = self.get_saved_file_path();
                        let cmd = JjCommand::jj_squash_into_interactive(from, into, file, self.global_args.clone());
                        self.queue_jj_command(cmd);
                    },
                    _ => self.invalid_selection(),
                }
            },
        }
    }

    /// `new` is this model after `jj_view`.
    pub open spec fn jj_view_done(self, new: Model, mode: ViewMode) -> bool {
        &&& ({
            let g = self.global_args@;
            let file = self.selected_file();
            match mode {
                ViewMode::Default => queued_for_change(
                    self,
                    new,
                    self.selected_change(),
                    |c: Seq<char>| match file {
                        Some(f) => jj_diff_file_interactive_view(c, f, g),
                        None => jj_show_view(c, g),
                    },
                ),
                ViewMode::FromSelection => queued_for_change(
                    self,
                    new,
                    self.selected_change(),
                    |c: Seq<char>| jj_diff_from_to_interactive_view(c, "@"@, file, g),
                ),
                ViewMode::FromSelectionToDestination => queued_for_pair(
                    self,
                    new,
                    self.saved_change(),
                    self.selected_change(),
                    |a: Seq<char>, b: Seq<char>| jj_diff_from_to_interactive_view(a, b, file, g),
                ),
                ViewMode::FromTrunkToSelection => queued_for_change(
                    self,
                    new,
                    self.selected_change(),
                    |c: Seq<char>| jj_diff_from_to_interactive_view("trunk()"@, c, file, g),
                ),
                ViewMode::ToSelection => queued_for_change(
                    self,
                    new,
                    self.selected_change(),
                    |c: Seq<char>| jj_diff_from_to_interactive_view("@"@, c, file, g),
                ),
            }
        })
    }

    /// Shows the selected change, or the diff of its selected file; or a
    /// diff, only of the selected file where a file is selected, from the
    /// selected change to the working copy, from the saved change to the
    /// selected one, from trunk to the selected change, or from the working
    /// copy to it.
    pub fn jj_view(&mut self, mode: ViewMode)
        requires
            old(self).wf(),
        ensures
            final(self).wf(),
            old(self).jj_view_done(*final(self), mode),
    {
        let file = self.get_selected_file_path();
        let cmd = match mode {
            ViewMode::Default => match self.get_selected_change_id() {
                None => {
                    self.invalid_selection();
                    return;
                },
                Some(c) => match file {
                    Some(f) => JjCommand::jj_diff_file_interactive(c, f, self.global_args.clone()),
                    None => JjCommand::jj_show(c, self.global_args.clone()),
                },
            },
            ViewMode::FromSelection => match self.get_selected_change_id() {
                None => {
                    self.invalid_selection();
                    return;
                },
                Some(c) => JjCommand::jj_diff_from_to_interactive(c, "@", file, self.global_args.clone()),
            },
            ViewMode::FromSelectionToDestination => match (self.get_saved_change_id(), self.get_selected_change_id()) {
                (Some(from), Some(to)) => JjCommand::jj_diff_from_to_interactive(from, to, file, self.global_args.clone()),
                _ => {
                    self.invalid_selection();
                    return;
                },
            },
            ViewMode::FromTrunkToSelection => match self.get_selected_change_id() {
                None => {
                    self.invalid_selection();
                    return;
                },
                Some(c) => JjCommand::jj_diff_from_to_interactive("trunk()", c, file, self.global_args.clone()),
            },
            ViewMode::ToSelection => match self.get_selected_change_id() {
                None => {
                    self.invalid_selection();
                    return;
                },
                Some(c) => JjCommand::jj_diff_from_to_interactive("@", c, file, self.global_args.clone()),
            },
        };
        self.queue_jj_command(cmd);
    }

    /// `new` is this model after `jj_git_fetch`.
    pub open spec fn jj_git_fetch_done(self, new: Model, mode: GitFetchMode, names: Seq<Seq<char>>) -> bool {
        &&& mode == GitFetchMode::Branch ==> fuzzy_prompted(
            self,
            new,
            "Fetch branch"@,
            names_candidates(names),
            ActionView::GitFetchBranch,
        )
        &&& mode == GitFetchMode::Remote ==> fuzzy_prompted(
            self,
            new,
            "Fetch remote"@,
            names_candidates(names),
            ActionView::GitFetchRemote,
        )
        &&& mode != GitFetchMode::Branch && mode != GitFetchMode::Remote ==> commands_queued(
            self,
            new,
            seq![jj_git_fetch_view(fetch_args(mode), None, self.global_args@)],
        )
    }

    /// Fetches from the default remote, all remotes or the tracked bookmarks;
    /// or opens a finder over `names`, the bookmark names or the remotes, to
    /// fetch one branch or remote. `names` is read only for those two modes.
    pub fn jj_git_fetch(&mut self, mode: GitFetchMode, names: Vec<String>)
        requires
            old(self).wf(),
        ensures
            final(self).wf(),
            old(self).jj_git_fetch_done(*final(self), mode, names.deep_view()),
    {
        let flag = match mode {
            GitFetchMode::Default => None,
            GitFetchMode::AllRemotes => Some("--all-remotes"),
            GitFetchMode::AllTracked => Some("--tracked"),
            GitFetchMode::Branch => {
                let candidates = candidates_from_names(&names);
                self.start_fuzzy_input("Fetch branch", candidates, TextInputAction::GitFetchBranch);
                return;
            },
            GitFetchMode::Remote => {
                let candidates = candidates_from_names(&names);
                self.start_fuzzy_input("Fetch remote", candidates, TextInputAction::GitFetchRemote);
                return;
            },
        };
        assert(opt_view(flag) == fetch_args(mode));
        let cmd = JjCommand::jj_git_fetch(flag, None, self.global_args.clone());
        self.queue_jj_command(cmd);
    }

    /// `new` is this model after `jj_git_push`.
    pub open spec fn jj_git_push_done(self, new: Model, mode: GitPushMode, names: Seq<Seq<char>>) -> bool {
        &&& ({
            let g = self.global_args@;
            match mode {
                GitPushMode::Revision | GitPushMode::Change => queued_for_change(
                    self,
                    new,
                    self.selected_change(),
                    |c: Seq<char>| jj_git_push_view(push_flag(mode), Some(c), g),
                ),
                GitPushMode::Named => match self.selected_change() {
                    None => invalid_selection_reported(self, new),
                    Some(c) => text_prompted(
                        self,
                        new,
                        "Bookmark name"@,
                        Seq::empty(),
                        ActionView::GitPushNamed { change_id: c },
                    ),
                },
                GitPushMode::Bookmark => fuzzy_prompted(
                    self,
                    new,
                    "Push bookmark"@,
                    names_candidates(names),
                    ActionView::GitPushBookmark,
                ),
                _ => commands_queued(
                    self,
                    new,
                    seq![jj_git_push_view(push_flag(mode), None, g)],
                ),
            }
        })
    }

    /// Pushes the default, all, the tracked or the deleted bookmarks; the
    /// selected revision, or a bookmark created for the selected change;
    /// prompts for the name of a bookmark to create at the selected change;
    /// or opens a finder over `names`, the bookmark names, to push one.
    /// `names` is read only for that last mode.
    pub fn jj_git_push(&mut self, mode: GitPushMode, names: Vec<String>)
        requires
            old(self).wf(),
        ensures
            final(self).wf(),
            old(self).jj_git_push_done(*final(self), mode, names.deep_view()),
    {
        let (flag, value): (Option<&str>, Option<&str>) = match mode {
            GitPushMode::Default => (None, None),
            GitPushMode::All => (Some("--all"), None),
            GitPushMode::AllTracked => (Some("--tracked"), None),
            GitPushMode::Deleted => (Some("--deleted"), None),
            GitPushMode::Revision => match self.get_selected_change_id() {
                None => {
                    self.invalid_selection();
                    return;
                },
                Some(c) => (Some("-r"), Some(c)),
            },
            GitPushMode::Change => match self.get_selected_change_id() {
                None => {
                    self.invalid_selection();
                    return;
                },
                Some(c) => (Some("-c"), Some(c)),
            },
            GitPushMode::Named => {
                match self.get_selected_change_id() {
                    None => self.invalid_selection(),
                    Some(c) => {
                        let change = String::from_str(c);
                        proof {
                            reveal_strlit("");
                        }
                        assert(""@ =~= Seq::<char>::empty());
                        self.start_text_input(
                            "Bookmark name",
                            "",
                            TextInputAction::GitPushNamed { change_id: change },
                        );
                    },
                }
                return;
            },
            GitPushMode::Bookmark => {
                let candidates = candidates_from_names(&names);
                self.start_fuzzy_input("Push bookmark", candidates, TextInputAction::GitPushBookmark);
                return;
            },
        };
        assert(opt_view(flag) == push_flag(mode));
        let cmd = JjCommand::jj_git_push(flag, value, self.global_args.clone());
        self.queue_jj_command(cmd);
    }

    /// `new` is this model after `jj_bookmark_create`.
    pub open spec fn jj_bookmark_create_done(self, new: Model) -> bool {
        &&& self.selected_change() is None ==> invalid_selection_reported(self, new)
        &&& self.selected_change() is Some ==> text_prompted(
            self,
            new,
            "Bookmark create"@,
            Seq::empty(),
            ActionView::BookmarkCreate,
        )
    }

    /// Prompts for the names of bookmarks to create at the selected change.
    pub fn jj_bookmark_create(&mut self)
        requires
            old(self).wf(),
        ensures
            final(self).wf(),
            old(self).jj_bookmark_create_done(*final(self)),
    {
        if self.get_selected_change_id().is_none() {
            self.invalid_selection();
            return;
        }
        proof {
            reveal_strlit("");
        }
        assert(""@ =~= Seq::<char>::empty());
        self.start_text_input("Bookmark create", "", TextInputAction::BookmarkCreate);
    }

    /// `new` is this model after `jj_bookmark_delete`.
    pub open spec fn jj_bookmark_delete_done(self, new: Model, names: Seq<Seq<char>>) -> bool {
        &&& fuzzy_prompted(
            self,
            new,
            "Bookmark delete"@,
            names_candidates(names),
            ActionView::BookmarkDelete,
        )
    }

    /// Opens a finder over `names`, the bookmark names, to delete one.
    pub fn jj_bookmark_delete(&mut self, names: Vec<String>)
        requires
            old(self).wf(),
        ensures
            final(self).wf(),
            old(self).jj_bookmark_delete_done(*final(self), names.deep_view()),
    {
        let candidates = candidates_from_names(&names);
        self.start_fuzzy_input("Bookmark delete", candidates, TextInputAction::BookmarkDelete);
    }

    /// `new` is this model after `jj_bookmark_forget`.
    pub open spec fn jj_bookmark_forget_done(self, new: Model, include_remotes: bool, names: Seq<Seq<char>>) -> bool {
        &&& fuzzy_prompted(
            self,
            new,
            "Bookmark forget"@,
            names_candidates(names),
            ActionView::BookmarkForget { include_remotes },
        )
    }

    /// Opens a finder over `names`, the bookmark names, to forget one, with
    /// its remote bookmarks where asked.
    pub fn jj_bookmark_forget(&mut self, include_remotes: bool, names: Vec<String>)
        requires
            old(self).wf(),
        ensures
            final(self).wf(),
            old(self).jj_bookmark_forget_done(*final(self), include_remotes, names.deep_view()),
    {
        let candidates = candidates_from_names(&names);
        self.start_fuzzy_input(
            "Bookmark forget",
            candidates,
            TextInputAction::BookmarkForget { include_remotes },
        );
    }

    /// `new` is this model after `jj_bookmark_rename`.
    pub open spec fn jj_bookmark_rename_done(self, new: Model, names: Seq<Seq<char>>) -> bool {
        &&& fuzzy_prompted(
            self,
            new,
            "Bookmark rename from"@,
            names_candidates(names),
            ActionView::BookmarkRenameFrom,
        )
    }

    /// Opens a finder over `names`, the bookmark names, to rename one.
    pub fn jj_bookmark_rename(&mut self, names: Vec<String>)
        requires
            old(self).wf(),
        ensures
            final(self).wf(),
            old(self).jj_bookmark_rename_done(*final(self), names.deep_view()),
    {
        let candidates = candidates_from_names(&names);
        self.start_fuzzy_input("Bookmark rename from", candidates, TextInputAction::BookmarkRenameFrom);
    }

    /// `new` is this model after `jj_bookmark_set`.
    pub open spec fn jj_bookmark_set_done(self, new: Model, names: Seq<Seq<char>>) -> bool {
        &&& self.selected_change() is None ==> invalid_selection_reported(self, new)
        &&& self.selected_change() is Some ==> fuzzy_prompted(
            self,
            new,
            "Bookmark set"@,
            names_candidates(names),
            ActionView::BookmarkSet,
        )
    }

    /// Opens a finder over `names`, the bookmark names, to set one to the
    /// selected change.
    pub fn jj_bookmark_set(&mut self, names: Vec<String>)
        requires
            old(self).wf(),
        ensures
            final(self).wf(),
            old(self).jj_bookmark_set_done(*final(self), names.deep_view()),
    {
        if self.get_selected_change_id().is_none() {
            self.invalid_selection();
            return;
        }
        let candidates = candidates_from_names(&names);
        self.start_fuzzy_input("Bookmark set", candidates, TextInputAction::BookmarkSet);
    }

    /// `new` is this model after `jj_bookmark_track`.
    pub open spec fn jj_bookmark_track_done(self, new: Model, names: Seq<Seq<char>>) -> bool {
        &&& fuzzy_prompted(
            self,
            new,
            "Bookmark track"@,
            names_candidates(names),
            ActionView::BookmarkTrack,
        )
    }

    /// Opens a finder over `names`, the untracked remote bookmarks, to track
    /// one.
    pub fn jj_bookmark_track(&mut self, names: Vec<String>)
        requires
            old(self).wf(),
        ensures
            final(self).wf(),
            old(self).jj_bookmark_track_done(*final(self), names.deep_view()),
    {
        let candidates = candidates_from_names(&names);
        self.start_fuzzy_input("Bookmark track", candidates, TextInputAction::BookmarkTrack);
    }

    /// `new` is this model after `jj_bookmark_untrack`.
    pub open spec fn jj_bookmark_untrack_done(self, new: Model, names: Seq<Seq<char>>) -> bool {
        &&& fuzzy_prompted(
            self,
            new,
            "Bookmark untrack"@,
            names_candidates(names),
            ActionView::BookmarkUntrack,
        )
    }

    /// Opens a finder over `names`, the tracked remote bookmarks, to untrack
    /// one.
    pub fn jj_bookmark_untrack(&mut self, names: Vec<String>)
        requires
            old(self).wf(),
        ensures
            final(self).wf(),
            old(self).jj_bookmark_untrack_done(*final(self), names.deep_view()),
    {
        let candidates = candidates_from_names(&names);
        self.start_fuzzy_input("Bookmark untrack", candidates, TextInputAction::BookmarkUntrack);
    }

    /// `new` is this model after `jj_edit_target`.
    pub open spec fn jj_edit_target_done(self, new: Model, targets: Seq<Seq<char>>) -> bool {
        &&& fuzzy_prompted(
            self,
            new,
            "Edit"@,
            names_candidates(targets),
            ActionView::EditTarget,
        )
    }

    /// Opens a finder over `targets`, the revisions of the revset, to edit
    /// one.
    pub fn jj_edit_target(&mut self, targets: Vec<String>)
        requires
            old(self).wf(),
        ensures
            final(self).wf(),
            old(self).jj_edit_target_done(*final(self), targets.deep_view()),
    {
        let candidates = candidates_from_names(&targets);
        self.start_fuzzy_input("Edit", candidates, TextInputAction::EditTarget);
    }

    /// `new` is this model after `jj_new_at_target`.
    pub open spec fn jj_new_at_target_done(self, new: Model, targets: Seq<Seq<char>>) -> bool {
        &&& fuzzy_prompted(
            self,
            new,
            "New after"@,
            names_candidates(targets),
            ActionView::NewAtTarget,
        )
    }

    /// Opens a finder over `targets`, the revisions of the revset, to create
    /// a change on one.
    pub fn jj_new_at_target(&mut self, targets: Vec<String>)
        requires
            old(self).wf(),
        ensures
            final(self).wf(),
            old(self).jj_new_at_target_done(*final(self), targets.deep_view()),
    {
        let candidates = candidates_from_names(&targets);
        self.start_fuzzy_input("New after", candidates, TextInputAction::NewAtTarget);
    }

    /// `new` is this model after `jj_file_track`.
    pub open spec fn jj_file_track_done(self, new: Model, files: Seq<Seq<char>>) -> bool {
        &&& fuzzy_prompted(
            self,
            new,
            "File track"@,
            names_candidates(files),
            ActionView::FileTrack,
        )
    }

    /// Opens a finder over `files`, the files of the working copy, to track
    /// one.
    pub fn jj_file_track(&mut self, files: Vec<String>)
        requires
            old(self).wf(),
        ensures
            final(self).wf(),
            old(self).jj_file_track_done(*final(self), files.deep_view()),
    {
        let candidates = candidates_from_names(&files);
        self.start_fuzzy_input("File track", candidates, TextInputAction::FileTrack);
    }

    /// `new` is this model after `start_describe_input`.
    pub open spec fn start_describe_input_done(self, new: Model) -> bool {
        &&& match self.selected_entry().commit {
            None => invalid_selection_reported(self, new),
            Some(c) => text_prompted(
                self,
                new,
                "Describe"@,
                match c.description_first_line {
                    Some(d) => d@,
                    None => Seq::empty(),
                },
                ActionView::Describe,
            ),
        }
    }

    /// Prompts for a new description of the selected change, starting with
    /// the first line of its description.
    pub fn start_describe_input(&mut self)
        requires
            old(self).wf(),
        ensures
            final(self).wf(),
            old(self).start_describe_input_done(*final(self)),
    {
        let initial = match &self.log_list[self.log_list_selected].commit {
            None => {
                self.invalid_selection();
                return;
            },
            Some(c) => match &c.description_first_line {
                Some(d) => d.clone(),
                None => String::new(),
            },
        };
        self.start_text_input("Describe", initial.as_str(), TextInputAction::Describe);
    }

    /// `new` is this model after `jj_workspace_add_path_only`.
    pub open spec fn jj_workspace_add_path_only_done(self, new: Model) -> bool {
        &&& text_prompted(self, new, "Workspace path"@, Seq::empty(), ActionView::WorkspaceAddPathOnly)
    }

    /// Prompts for the path of a workspace to add.
    pub fn jj_workspace_add_path_only(&mut self)
        requires
            old(self).wf(),
        ensures
            final(self).wf(),
            old(self).jj_workspace_add_path_only_done(*final(self)),
    {
        proof {
            reveal_strlit("");
        }
        assert(""@ =~= Seq::<char>::empty());
        self.start_text_input("Workspace path", "", TextInputAction::WorkspaceAddPathOnly);
    }

    /// `new` is this model after `jj_workspace_add_named`.
    pub open spec fn jj_workspace_add_named_done(self, new: Model) -> bool {
        &&& text_prompted(self, new, "Workspace name"@, Seq::empty(), ActionView::WorkspaceAddNamePrompt)
    }

    /// Prompts for the name of a workspace to add, then for its path.
    pub fn jj_workspace_add_named(&mut self)
        requires
            old(self).wf(),
        ensures
            final(self).wf(),
            old(self).jj_workspace_add_named_done(*final(self)),
    {
        proof {
            reveal_strlit("");
        }
        assert(""@ =~= Seq::<char>::empty());
        self.start_text_input("Workspace name", "", TextInputAction::WorkspaceAddNamePrompt);
    }
}


/// Restoring from the saved change into the selected one queues just `jj
/// restore --from <saved change> --into <selected change>`, followed by the
/// saved file where one was saved; without both changes it queues nothing
/// and reports an invalid selection.
pub proof fn lemma_restore_from_saved_into_selected(old: Model, new: Model)
    requires
        old.jj_restore_done(new, RestoreMode::FromInto),
    ensures
        match (old.saved_change(), old.selected_change()) {
            (Some(a), Some(b)) => {
                &&& new.queued().len() == 1
                &&& new.queued()[0].args == seq!["restore"@, "--from"@, a, "--into"@, b] + match old.saved_file() {
                    Some(f) => seq![f],
                    None => Seq::<Seq<char>>::empty(),
                }
            },
            _ => new.queued() == old.queued() && new.info() == crate::model::single_line_info("Invalid selection"@),
        },
{
    match (old.saved_change(), old.selected_change()) {
        (Some(a), Some(b)) => {
            let cmd = jj_restore_view(restore_flags(RestoreMode::FromInto, a, b), old.saved_file(), old.global_args@);
            assert(new.queued() == seq![cmd]);
            assert(cmd.args =~= seq!["restore"@, "--from"@, a, "--into"@, b] + match old.saved_file() {
                Some(f) => seq![f],
                None => Seq::<Seq<char>>::empty(),
            });
        },
        _ => {},
    }
}


/// `new` has queued just one command, with `args`, where `ready` holds; else
/// it has queued nothing and reports an invalid selection.
pub open spec fn one_command_or_invalid(old: Model, new: Model, ready: bool, args: Seq<Seq<char>>) -> bool {
    if ready {
        new.queued().len() == 1 && new.queued()[0].args == args
    } else {
        new.queued() == old.queued() && new.info() == crate::model::single_line_info("Invalid selection"@)
    }
}

/// The argument of an optional file: the file, or nothing.
pub open spec fn file_args(file: Option<Seq<char>>) -> Seq<Seq<char>> {
    match file {
        Some(f) => seq![f],
        None => Seq::empty(),
    }
}

/// Moving bookmarks from the saved change to the selected one queues `jj
/// bookmark move --from <saved> --to <selected>`, with `--allow-backwards`
/// where asked.
pub proof fn lemma_bookmark_move_from_saved_to_selected(old: Model, new: Model, mode: BookmarkMoveMode)
    requires
        old.jj_bookmark_move_done(new, mode),
        mode != BookmarkMoveMode::Tug,
    ensures
        one_command_or_invalid(
            old,
            new,
            old.saved_change() is Some && old.selected_change() is Some,
            seq!["bookmark"@, "move"@, "--from"@, old.saved_change()->0, "--to"@, old.selected_change()->0] + if mode
                == BookmarkMoveMode::AllowBackwards {
                seq!["--allow-backwards"@]
            } else {
                Seq::<Seq<char>>::empty()
            },
        ),
{
    if old.saved_change() is Some && old.selected_change() is Some {
        assert(new.queued()[0].args =~= seq!["bookmark"@, "move"@, "--from"@, old.saved_change()->0, "--to"@, old.selected_change()->0] + if mode
            == BookmarkMoveMode::AllowBackwards {
            seq!["--allow-backwards"@]
        } else {
            Seq::<Seq<char>>::empty()
        });
    }
}

/// Squashing the saved change into the selected one queues `jj squash --from
/// <saved> --into <selected>`, with the saved file where there is one.
pub proof fn lemma_squash_from_saved_into_selected(old: Model, new: Model)
    requires
        old.jj_squash_done(new, SquashMode::Into),
    ensures
        one_command_or_invalid(
            old,
            new,
            old.saved_change() is Some && old.selected_change() is Some,
            seq!["squash"@, "--from"@, old.saved_change()->0, "--into"@, old.selected_change()->0] + file_args(
                old.saved_file(),
            ),
        ),
{
    if old.saved_change() is Some && old.selected_change() is Some {
        assert(new.queued()[0].args =~= seq!["squash"@, "--from"@, old.saved_change()->0, "--into"@, old.selected_change()->0] + file_args(old.saved_file()));
    }
}

/// Absorbing the saved change into the selected one queues `jj absorb --from
/// <saved> --into <selected>`, with the saved file where there is one.
pub proof fn lemma_absorb_from_saved_into_selected(old: Model, new: Model)
    requires
        old.jj_absorb_done(new, AbsorbMode::Into),
    ensures
        one_command_or_invalid(
            old,
            new,
            old.saved_change() is Some && old.selected_change() is Some,
            seq!["absorb"@, "--from"@, old.saved_change()->0, "--into"@, old.selected_change()->0] + file_args(
                old.saved_file(),
            ),
        ),
{
    if old.saved_change() is Some && old.selected_change() is Some {
        assert(new.queued()[0].args =~= seq!["absorb"@, "--from"@, old.saved_change()->0, "--into"@, old.selected_change()->0] + file_args(old.saved_file()));
    }
}

/// Comparing the saved change with the selected one queues `jj interdiff
/// --from <saved> --to <selected>`, with the saved file where there is one.
pub proof fn lemma_interdiff_from_saved_to_selected(old: Model, new: Model)
    requires
        old.jj_interdiff_done(new, InterdiffMode::FromSelectionToDestination),
    ensures
        one_command_or_invalid(
            old,
            new,
            old.saved_change() is Some && old.selected_change() is Some,
            seq!["interdiff"@, "--from"@, old.saved_change()->0, "--to"@, old.selected_change()->0] + file_args(
                old.saved_file(),
            ),
        ),
{
    if old.saved_change() is Some && old.selected_change() is Some {
        assert(new.queued()[0].args =~= seq!["interdiff"@, "--from"@, old.saved_change()->0, "--to"@, old.selected_change()->0] + file_args(old.saved_file()));
    }
}

/// Viewing the diff from the saved change to the selected one queues `jj
/// diff --from <saved> --to <selected>`, with the selected file where there is
/// one.
pub proof fn lemma_view_from_saved_to_selected(old: Model, new: Model)
    requires
        old.jj_view_done(new, ViewMode::FromSelectionToDestination),
    ensures
        one_command_or_invalid(
            old,
            new,
            old.saved_change() is Some && old.selected_change() is Some,
            seq!["diff"@, "--from"@, old.saved_change()->0, "--to"@, old.selected_change()->0] + file_args(
                old.selected_file(),
            ),
        ),
{
    if old.saved_change() is Some && old.selected_change() is Some {
        assert(new.queued()[0].args =~= seq!["diff"@, "--from"@, old.saved_change()->0, "--to"@, old.selected_change()->0] + file_args(old.selected_file()));
    }
}

/// Rebasing moves the saved change, named after the source flag (`--branch`,
/// `--source` or `--revisions`), to the destination, named after the
/// destination flag (`--insert-after`, `--insert-before` or `--onto`): the
/// selected change, `trunk()` or `@`.
pub proof fn lemma_rebase_moves_saved_change(
    old: Model,
    new: Model,
    source_type: RebaseSourceType,
    destination_type: RebaseDestinationType,
    destination: RebaseDestination,
)
    requires
        old.jj_rebase_done(new, source_type, destination_type, destination),
    ensures
        ({
            let target = match destination {
                RebaseDestination::Selection => old.selected_change(),
                RebaseDestination::Trunk => Some("trunk()"@),
                RebaseDestination::Current => Some("@"@),
            };
            let source_flag = match source_type {
                RebaseSourceType::Branch => "--branch"@,
                RebaseSourceType::Source => "--source"@,
                RebaseSourceType::Revisions => "--revisions"@,
            };
            let destination_flag = match destination_type {
                RebaseDestinationType::InsertAfter => "--insert-after"@,
                RebaseDestinationType::InsertBefore => "--insert-before"@,
                RebaseDestinationType::Onto => "--onto"@,
            };
            one_command_or_invalid(
                old,
                new,
                old.saved_change() is Some && target is Some,
                seq!["rebase"@, source_flag, old.saved_change()->0, destination_flag, target->0],
            )
        }),
{
    let target = match destination {
        RebaseDestination::Selection => old.selected_change(),
        RebaseDestination::Trunk => Some("trunk()"@),
        RebaseDestination::Current => Some("@"@),
    };
    if old.saved_change() is Some && target is Some {
        assert(new.queued()[0].args =~= seq![
            "rebase"@,
            rebase_source_flag(source_type),
            old.saved_change()->0,
            rebase_destination_flag(destination_type),
            target->0,
        ]);
    }
}

/// Reverting queues `jj revert -r <reverted> <flag> <target>`: the saved or
/// the selected change is reverted, placed by `--onto`, `--insert-after` or
/// `--insert-before` at `@` or the selected change.
pub proof fn lemma_revert_names_reverted_and_target(
    old: Model,
    new: Model,
    revision: RevertRevision,
    destination_type: RevertDestinationType,
    destination: RevertDestination,
)
    requires
        old.jj_revert_done(new, revision, destination_type, destination),
    ensures
        ({
            let reverted = match revision {
                RevertRevision::Saved => old.saved_change(),
                RevertRevision::Selection => old.selected_change(),
            };
            let target = match destination {
                RevertDestination::Current => Some("@"@),
                RevertDestination::Selection => old.selected_change(),
            };
            let flag = match destination_type {
                RevertDestinationType::Onto => "--onto"@,
                RevertDestinationType::InsertAfter => "--insert-after"@,
                RevertDestinationType::InsertBefore => "--insert-before"@,
            };
            one_command_or_invalid(
                old,
                new,
                reverted is Some && target is Some,
                seq!["revert"@, "-r"@, reverted->0, flag, target->0],
            )
        }),
{
    let reverted = match revision {
        RevertRevision::Saved => old.saved_change(),
        RevertRevision::Selection => old.selected_change(),
    };
    let target = match destination {
        RevertDestination::Current => Some("@"@),
        RevertDestination::Selection => old.selected_change(),
    };
    if reverted is Some && target is Some {
        assert(new.queued()[0].args =~= seq![
            "revert"@,
            "-r"@,
            reverted->0,
            revert_destination_flag(destination_type),
            target->0,
        ]);
    }
}

/// Parallelizing a range queues `jj parallelize <saved>::<selected>`.
pub proof fn lemma_parallelize_range_from_saved_to_selected(old: Model, new: Model)
    requires
        old.jj_parallelize_done(new, ParallelizeSource::Range),
    ensures
        one_command_or_invalid(
            old,
            new,
            old.saved_change() is Some && old.selected_change() is Some,
            seq!["parallelize"@, old.saved_change()->0 + "::"@ + old.selected_change()->0],
        ),
{
    if old.saved_change() is Some && old.selected_change() is Some {
        assert(new.queued()[0].args =~= seq!["parallelize"@, old.saved_change()->0 + "::"@ + old.selected_change()->0]);
    }
}

/// Signing a range queues `jj sign -r <saved>::<selected>` (or `unsign`);
/// signing one change, `jj sign -r <selected>`.
pub proof fn lemma_sign_names_its_revisions(old: Model, new: Model, action: SignAction, range: bool)
    requires
        old.jj_sign_done(new, action, range),
    ensures
        ({
            let sub = if action == SignAction::Sign {
                "sign"@
            } else {
                "unsign"@
            };
            if range {
                one_command_or_invalid(
                    old,
                    new,
                    old.saved_change() is Some && old.selected_change() is Some,
                    seq![sub, "-r"@, old.saved_change()->0 + "::"@ + old.selected_change()->0],
                )
            } else {
                one_command_or_invalid(
                    old,
                    new,
                    old.selected_change() is Some,
                    seq![sub, "-r"@, old.selected_change()->0],
                )
            }
        }),
{
}


/// `jj new` goes after `trunk()`, or after, before or in front of the
/// selected change: `new trunk()`, `new --no-edit --insert-before
/// <selected>`, `new --insert-after <selected>`, `new <selected>`.
pub proof fn lemma_new_places_the_change(old: Model, new: Model, mode: NewMode)
    requires
        old.jj_new_done(new, mode),
    ensures
        mode == NewMode::AfterTrunk ==> one_command_or_invalid(old, new, true, seq!["new"@, "trunk()"@]),
        mode == NewMode::Before ==> one_command_or_invalid(
            old,
            new,
            old.selected_change() is Some,
            seq!["new"@, "--no-edit"@, "--insert-before"@, old.selected_change()->0],
        ),
        mode == NewMode::InsertAfter ==> one_command_or_invalid(
            old,
            new,
            old.selected_change() is Some,
            seq!["new"@, "--insert-after"@, old.selected_change()->0],
        ),
        mode == NewMode::Default ==> one_command_or_invalid(
            old,
            new,
            old.selected_change() is Some,
            seq!["new"@, old.selected_change()->0],
        ),
{
    if mode == NewMode::AfterTrunk {
        assert(new.queued()[0].args =~= seq!["new"@, "trunk()"@]);
    } else if old.selected_change() is Some {
        let c = old.selected_change()->0;
        if mode == NewMode::Before {
            assert(new.queued()[0].args =~= seq!["new"@, "--no-edit"@, "--insert-before"@, c]);
        } else if mode == NewMode::InsertAfter {
            assert(new.queued()[0].args =~= seq!["new"@, "--insert-after"@, c]);
        } else {
            assert(new.queued()[0].args =~= seq!["new"@, c]);
        }
    }
}

/// `jj duplicate` copies the selected change where jj puts it, or the saved
/// change placed by `--onto`, `--insert-after` or `--insert-before` at the
/// selected change.
pub proof fn lemma_duplicate_copies_and_places(
    old: Model,
    new: Model,
    destination_type: DuplicateDestinationType,
    destination: DuplicateDestination,
)
    requires
        old.jj_duplicate_done(new, destination_type, destination),
    ensures
        destination_type == DuplicateDestinationType::Default && destination == DuplicateDestination::Default
            ==> one_command_or_invalid(
            old,
            new,
            old.selected_change() is Some,
            seq!["duplicate"@, old.selected_change()->0],
        ),
        destination_type != DuplicateDestinationType::Default && destination == DuplicateDestination::Selection
            ==> one_command_or_invalid(
            old,
            new,
            old.saved_change() is Some && old.selected_change() is Some,
            seq![
                "duplicate"@,
                old.saved_change()->0,
                if destination_type == DuplicateDestinationType::Onto {
                    "--onto"@
                } else if destination_type == DuplicateDestinationType::InsertAfter {
                    "--insert-after"@
                } else {
                    "--insert-before"@
                },
                old.selected_change()->0,
            ],
        ),
{
    if destination_type == DuplicateDestinationType::Default && destination == DuplicateDestination::Default
        && old.selected_change() is Some {
        assert(new.queued()[0].args =~= seq!["duplicate"@, old.selected_change()->0]);
    }
    if destination_type != DuplicateDestinationType::Default && destination == DuplicateDestination::Selection
        && old.saved_change() is Some && old.selected_change() is Some {
        assert(new.queued()[0].args =~= seq![
            "duplicate"@,
            old.saved_change()->0,
            duplicate_flag(destination_type)->0,
            old.selected_change()->0,
        ]);
    }
}


/// Abandoning queues `jj abandon`, the flag of the mode (none,
/// `--retain-bookmarks` or `--restore-descendants`), then the selected change.
pub proof fn lemma_abandon_names_selected(old: Model, new: Model, mode: AbandonMode)
    requires
        old.jj_abandon_done(new, mode),
    ensures
        one_command_or_invalid(
            old,
            new,
            old.selected_change() is Some,
            match mode {
                AbandonMode::Default => seq!["abandon"@, old.selected_change()->0],
                AbandonMode::RetainBookmarks => seq!["abandon"@, "--retain-bookmarks"@, old.selected_change()->0],
                AbandonMode::RestoreDescendants => seq![
                    "abandon"@,
                    "--restore-descendants"@,
                    old.selected_change()->0,
                ],
            },
        ),
{
    if old.selected_change() is Some {
        let c = old.selected_change()->0;
        assert(new.queued()[0].args =~= match mode {
            AbandonMode::Default => seq!["abandon"@, c],
            AbandonMode::RetainBookmarks => seq!["abandon"@, "--retain-bookmarks"@, c],
            AbandonMode::RestoreDescendants => seq!["abandon"@, "--restore-descendants"@, c],
        });
    }
}

/// Editing, describing and showing the evolution of the selected change
/// queue `jj edit <change>`, `jj describe <change>` and `jj evolog -r
/// <change>` (with `--patch` where asked).
pub proof fn lemma_selected_change_commands(old: Model, e: Model, d: Model, v: Model, patch: bool)
    requires
        old.jj_edit_done(e),
        old.jj_describe_done(d),
        old.jj_evolog_done(v, patch),
    ensures
        one_command_or_invalid(old, e, old.selected_change() is Some, seq!["edit"@, old.selected_change()->0]),
        one_command_or_invalid(old, d, old.selected_change() is Some, seq!["describe"@, old.selected_change()->0]),
        one_command_or_invalid(
            old,
            v,
            old.selected_change() is Some,
            seq!["evolog"@, "-r"@, old.selected_change()->0] + if patch {
                seq!["--patch"@]
            } else {
                Seq::<Seq<char>>::empty()
            },
        ),
{
    if old.selected_change() is Some {
        let c = old.selected_change()->0;
        assert(v.queued()[0].args =~= seq!["evolog"@, "-r"@, c] + if patch {
            seq!["--patch"@]
        } else {
            Seq::<Seq<char>>::empty()
        });
    }
}

/// Restoring with one change names the selected change: `--changes-in`
/// (then `--restore-descendants` where asked), `--from` or `--into`, with the
/// selected file where there is one.
pub proof fn lemma_restore_names_selected(old: Model, new: Model, mode: RestoreMode)
    requires
        old.jj_restore_done(new, mode),
        mode != RestoreMode::FromInto,
    ensures
        one_command_or_invalid(
            old,
            new,
            old.selected_change() is Some,
            match mode {
                RestoreMode::ChangesIn => seq!["restore"@, "--changes-in"@, old.selected_change()->0],
                RestoreMode::ChangesInRestoreDescendants => seq![
                    "restore"@,
                    "--changes-in"@,
                    old.selected_change()->0,
                    "--restore-descendants"@,
                ],
                RestoreMode::From => seq!["restore"@, "--from"@, old.selected_change()->0],
                _ => seq!["restore"@, "--into"@, old.selected_change()->0],
            } + file_args(old.selected_file()),
        ),
{
    if old.selected_change() is Some {
        let c = old.selected_change()->0;
        assert(new.queued()[0].args =~= match mode {
            RestoreMode::ChangesIn => seq!["restore"@, "--changes-in"@, c],
            RestoreMode::ChangesInRestoreDescendants => seq!["restore"@, "--changes-in"@, c, "--restore-descendants"@],
            RestoreMode::From => seq!["restore"@, "--from"@, c],
            _ => seq!["restore"@, "--into"@, c],
        } + file_args(old.selected_file()));
    }
}

/// Absorbing the selected change queues `jj absorb --from <selected>`, with
/// the selected file where there is one.
pub proof fn lemma_absorb_from_selected(old: Model, new: Model)
    requires
        old.jj_absorb_done(new, AbsorbMode::Default),
    ensures
        one_command_or_invalid(
            old,
            new,
            old.selected_change() is Some,
            seq!["absorb"@, "--from"@, old.selected_change()->0] + file_args(old.selected_file()),
        ),
{
    if old.selected_change() is Some {
        assert(new.queued()[0].args =~= seq!["absorb"@, "--from"@, old.selected_change()->0] + file_args(
            old.selected_file(),
        ));
    }
}

/// Comparing with `@` names the selected change on its side: `jj interdiff
/// --from <selected> --to @` and `jj interdiff --from @ --to <selected>`;
/// the same for the diff of `jj diff`, which also goes from `trunk()` to the
/// selected change.
pub proof fn lemma_compare_with_working_copy(
    old: Model,
    from_sel: Model,
    to_sel: Model,
    view_from: Model,
    view_to: Model,
    view_trunk: Model,
)
    requires
        old.jj_interdiff_done(from_sel, InterdiffMode::FromSelection),
        old.jj_interdiff_done(to_sel, InterdiffMode::ToSelection),
        old.jj_view_done(view_from, ViewMode::FromSelection),
        old.jj_view_done(view_to, ViewMode::ToSelection),
        old.jj_view_done(view_trunk, ViewMode::FromTrunkToSelection),
    ensures
        one_command_or_invalid(
            old,
            from_sel,
            old.selected_change() is Some,
            seq!["interdiff"@, "--from"@, old.selected_change()->0, "--to"@, "@"@] + file_args(old.selected_file()),
        ),
        one_command_or_invalid(
            old,
            to_sel,
            old.selected_change() is Some,
            seq!["interdiff"@, "--from"@, "@"@, "--to"@, old.selected_change()->0] + file_args(old.selected_file()),
        ),
        one_command_or_invalid(
            old,
            view_from,
            old.selected_change() is Some,
            seq!["diff"@, "--from"@, old.selected_change()->0, "--to"@, "@"@] + file_args(old.selected_file()),
        ),
        one_command_or_invalid(
            old,
            view_to,
            old.selected_change() is Some,
            seq!["diff"@, "--from"@, "@"@, "--to"@, old.selected_change()->0] + file_args(old.selected_file()),
        ),
        one_command_or_invalid(
            old,
            view_trunk,
            old.selected_change() is Some,
            seq!["diff"@, "--from"@, "trunk()"@, "--to"@, old.selected_change()->0] + file_args(
                old.selected_file(),
            ),
        ),
{
    if old.selected_change() is Some {
        let c = old.selected_change()->0;
        let f = file_args(old.selected_file());
        assert(from_sel.queued()[0].args =~= seq!["interdiff"@, "--from"@, c, "--to"@, "@"@] + f);
        assert(to_sel.queued()[0].args =~= seq!["interdiff"@, "--from"@, "@"@, "--to"@, c] + f);
        assert(view_from.queued()[0].args =~= seq!["diff"@, "--from"@, c, "--to"@, "@"@] + f);
        assert(view_to.queued()[0].args =~= seq!["diff"@, "--from"@, "@"@, "--to"@, c] + f);
        assert(view_trunk.queued()[0].args =~= seq!["diff"@, "--from"@, "trunk()"@, "--to"@, c] + f);
    }
}

/// Squashing the selected change queues `jj squash --revision <selected>`,
/// with the selected file where there is one: interactively where the change
/// has a description, else not.
pub proof fn lemma_squash_selected(old: Model, new: Model)
    requires
        old.jj_squash_done(new, SquashMode::Default),
    ensures
        one_command_or_invalid(
            old,
            new,
            old.selected_change() is Some,
            seq!["squash"@, "--revision"@, old.selected_change()->0] + file_args(old.selected_file()),
        ),
        old.selected_entry().commit matches Some(c) ==> new.queued()[0].interactive
            == (c.description_first_line is Some),
{
    if old.selected_change() is Some {
        assert(new.queued()[0].args =~= seq!["squash"@, "--revision"@, old.selected_change()->0] + file_args(
            old.selected_file(),
        ));
    }
}


/// Viewing the selected change queues `jj diff --revisions <selected>
/// <file>` on a file's node, else `jj show <selected>`.
pub proof fn lemma_view_selected(old: Model, new: Model)
    requires
        old.jj_view_done(new, ViewMode::Default),
    ensures
        one_command_or_invalid(
            old,
            new,
            old.selected_change() is Some,
            match old.selected_file() {
                Some(f) => seq!["diff"@, "--revisions"@, old.selected_change()->0, f],
                None => seq!["show"@, old.selected_change()->0],
            },
        ),
{
}

} // verus!
