//! What a key press does: in a prompt, closing or submitting it, moving the
//! finder's selection or typing; elsewhere, a navigation or general binding,
//! or the next key of a command sequence. And what each message does to the
//! model, with what is left for the caller.
use crate::command_tree::{can_compare_first_line, node_at};
use crate::fuzzy::{FuzzyFinderState, selection_down, selection_page_down, selection_page_up, selection_up};
use crate::keys::Key;
use crate::listing::Listing;
use crate::message::{GitFetchMode, GitPushMode, Message, navigation_key_message, navigation_message};
use crate::model::{Model, State, command_key_handled};
use crate::prompt::{ApplyOutcome, finder_selection_moved, fuzzy_of, selects_by_number};
use vstd::prelude::*;

verus! {

/// What a key press asks of the caller.
#[derive(Debug, PartialEq, Eq, Structural, Clone, Copy)]
pub enum KeyOutcome {
    /// Handle this message.
    Message(Message),
    /// Nothing more: the key was handled or is not bound.
    Handled,
    /// Hand the key to the prompt's text; where `refilter` says so, filter the
    /// finder by the new first line afterwards.
    ForwardToPrompt { refilter: bool },
}

/// What a key does in a prompt with a finder, other than moving its
/// selection.
pub open spec fn fuzzy_prompt_key(key: Key) -> KeyOutcome {
    match key {
        Key::Esc => KeyOutcome::Message(Message::Clear),
        Key::Enter => KeyOutcome::Message(Message::SubmitTextInput),
        Key::Up | Key::Tab | Key::Down | Key::BackTab | Key::PageUp | Key::PageDown => KeyOutcome::Handled,
        _ => KeyOutcome::ForwardToPrompt { refilter: true },
    }
}

/// What a key does in a prompt without a finder.
pub open spec fn plain_prompt_key(key: Key) -> KeyOutcome {
    match key {
        Key::Esc => KeyOutcome::Message(Message::Clear),
        Key::Enter => KeyOutcome::Message(Message::SubmitTextInput),
        _ => KeyOutcome::ForwardToPrompt { refilter: false },
    }
}

/// Handles `key`, pressed with Control where `ctrl` holds.
pub fn handle_key(model: &mut Model, key: Key, ctrl: bool) -> (o: KeyOutcome)
    requires
        old(model).wf(),
        old(model).state != State::EnteringText && navigation_message(key, ctrl) is None && node_at(
            old(model).command_tree.root(),
            old(model).command_keys@.push(key),
        ) is None ==> can_compare_first_line(old(model).info()),
    ensures
        final(model).wf(),
        old(model).state == State::EnteringText && fuzzy_of(*old(model)) is Some ==> {
            &&& o == fuzzy_prompt_key(key)
            &&& match key {
                Key::Up | Key::Tab => finder_selection_moved(
                    *old(model),
                    *final(model),
                    |f: FuzzyFinderState| selection_up(f),
                ),
                Key::Down | Key::BackTab => finder_selection_moved(
                    *old(model),
                    *final(model),
                    |f: FuzzyFinderState| selection_down(f),
                ),
                Key::PageUp => finder_selection_moved(
                    *old(model),
                    *final(model),
                    |f: FuzzyFinderState| selection_page_up(f, old(model).fuzzy_viewport_height as int),
                ),
                Key::PageDown => finder_selection_moved(
                    *old(model),
                    *final(model),
                    |f: FuzzyFinderState| selection_page_down(f, old(model).fuzzy_viewport_height as int),
                ),
                _ => *final(model) == *old(model),
            }
        },
        old(model).state == State::EnteringText && fuzzy_of(*old(model)) is None ==> {
            &&& o == plain_prompt_key(key)
            &&& *final(model) == *old(model)
        },
        old(model).state != State::EnteringText && navigation_message(key, ctrl) is Some ==> {
            &&& o == KeyOutcome::Message(navigation_message(key, ctrl)->0)
            &&& *final(model) == *old(model)
        },
        old(model).state != State::EnteringText && navigation_message(key, ctrl) is None ==> {
            let r = match o {
                KeyOutcome::Message(m) => Some(m),
                _ => None,
            };
            &&& command_key_handled(*old(model), *final(model), key, r)
            &&& o is Message || o is Handled
        },
{
    if model.state == State::EnteringText {
        if model.has_active_fuzzy() {
            return match key {
                Key::Esc => KeyOutcome::Message(Message::Clear),
                Key::Enter => KeyOutcome::Message(Message::SubmitTextInput),
                Key::Up | Key::Tab => {
                    model.move_fuzzy_selection_up();
                    KeyOutcome::Handled
                },
                Key::Down | Key::BackTab => {
                    model.move_fuzzy_selection_down();
                    KeyOutcome::Handled
                },
                Key::PageUp => {
                    model.page_fuzzy_selection_up();
                    KeyOutcome::Handled
                },
                Key::PageDown => {
                    model.page_fuzzy_selection_down();
                    KeyOutcome::Handled
                },
                _ => KeyOutcome::ForwardToPrompt { refilter: true },
            };
        }
        return match key {
            Key::Esc => KeyOutcome::Message(Message::Clear),
            Key::Enter => KeyOutcome::Message(Message::SubmitTextInput),
            _ => KeyOutcome::ForwardToPrompt { refilter: false },
        };
    }
    match navigation_key_message(key, ctrl) {
        Some(m) => KeyOutcome::Message(m),
        None => match model.handle_command_key(key) {
            Some(m) => KeyOutcome::Message(m),
            None => KeyOutcome::Handled,
        },
    }
}

/// What is left for the caller once the model has handled a message.
#[derive(Debug)]
pub enum MsgStep {
    /// Nothing.
    Done,
    /// Reload the log: [`Model::begin_refresh`], then [`Model::finish_refresh`].
    Refresh,
    /// Open the selected file: [`Model::plan_open_file`] says how.
    OpenFile,
    /// What applying a prompt's value or a revset choice left.
    Applied(ApplyOutcome),
    /// The click selected the row it fell on; toggling that row's fold needs
    /// a tree of the log, which this library does not have, and is not done.
    ClickedWithoutFold,
    /// The message needs what this library does not have (a tree of the log,
    /// or a `jj` command that it does not build); the model is unchanged.
    Unavailable,
}

/// The listing that the finder of `msg` offers, where it opens one.
pub open spec fn message_listing(m: Model, msg: Message) -> Option<Listing> {
    match msg {
        Message::BookmarkDelete | Message::BookmarkForget { .. } | Message::BookmarkRename => Some(
            Listing::BookmarkNames,
        ),
        Message::BookmarkSet { .. } => if m.selected_change() is Some {
            Some(Listing::BookmarkNames)
        } else {
            None
        },
        Message::BookmarkTrack => Some(Listing::UntrackedRemoteBookmarks),
        Message::BookmarkUntrack => Some(Listing::TrackedRemoteBookmarks),
        Message::EditTarget | Message::NewAtTarget => Some(Listing::RevisionTargets),
        Message::FileTrack => Some(Listing::Files),
        Message::GitFetch { mode } => match mode {
            GitFetchMode::Branch => Some(Listing::BookmarkNames),
            GitFetchMode::Remote => Some(Listing::GitRemotes),
            _ => None,
        },
        Message::GitPush { mode } => if mode == GitPushMode::Bookmark {
            Some(Listing::BookmarkNames)
        } else {
            None
        },
        _ => None,
    }
}

/// Whether the model is in a state to handle `msg`: scrolling and clicks need
/// the first node shown to be one of the log's, and the help needs the
/// command tree's root to have children.
pub open spec fn message_ready(m: Model, msg: Message) -> bool {
    match msg {
        Message::ScrollDownPage
        | Message::ScrollUpPage
        | Message::ScrollDown
        | Message::ScrollUp
        | Message::LeftMouseClick { .. }
        | Message::RightMouseClick { .. } => m.list_offset() < m.entries().len(),
        Message::ShowHelp => m.command_tree.root().children is Some,
        _ => true,
    }
}

/// `new` and `step` are the model and what is left after handling `msg`, with
/// `first_line` the first line of an open prompt and `names` the listing that
/// the message's finder offers.
pub open spec fn message_handled(
    old: Model,
    new: Model,
    msg: Message,
    first_line: Seq<char>,
    names: Seq<Seq<char>>,
    step: MsgStep,
) -> bool {
    match msg {
        Message::Clear => step is Done && old.clear_done(new),
        Message::Quit => step is Done && old.quit_done(new),
        Message::Refresh => step is Refresh && new == old,
        Message::SetRevset { mode } => step matches MsgStep::Applied(o) && old.set_revset_done(new, mode, o),
        Message::SubmitTextInput => step matches MsgStep::Applied(o) && old.submit_text_input_done(
            new,
            first_line,
            o,
        ),
        Message::ShowHelp => step is Done && old.show_help_done(new),
        Message::ToggleIgnoreImmutable => step is Done && old.toggle_ignore_immutable_done(new),
        Message::ScrollDownPage => step is Done && old.scroll_down_page_done(new),
        Message::ScrollUpPage => step is Done && old.scroll_up_page_done(new),
        Message::SelectByBookmark => step is Done && old.select_by_bookmark_done(new),
        Message::SelectByDescription => step is Done && old.select_by_description_done(new),
        Message::SelectCurrentWorkingCopy => step is Done && old.select_current_working_copy_done(new),
        Message::SelectInRevset => step is Done && old.select_in_revset_done(new),
        Message::SelectNextNode => step is Done && old.select_next_node_done(new),
        Message::SelectPrevNode => step is Done && old.select_prev_node_done(new),
        Message::LeftMouseClick { row, column } => step is Done && old.handle_mouse_click_done(new, row, column),
        Message::RightMouseClick { row, column } => step is ClickedWithoutFold && old.handle_mouse_click_done(
            new,
            row,
            column,
        ),
        Message::ScrollDown => step is Done && old.scroll_down_once_done(new),
        Message::ScrollUp => step is Done && old.scroll_up_once_done(new),
        Message::Abandon { mode } => step is Done && old.jj_abandon_done(new, mode),
        Message::Absorb { mode } => step is Done && old.jj_absorb_done(new, mode),
        Message::BookmarkCreate => step is Done && old.jj_bookmark_create_done(new),
        Message::BookmarkDelete => step is Done && old.jj_bookmark_delete_done(new, names),
        Message::BookmarkForget { include_remotes } => step is Done && old.jj_bookmark_forget_done(
            new,
            include_remotes,
            names,
        ),
        Message::BookmarkMove { mode } => step is Done && old.jj_bookmark_move_done(new, mode),
        Message::BookmarkRename => step is Done && old.jj_bookmark_rename_done(new, names),
        Message::BookmarkSet { .. } => step is Done && old.jj_bookmark_set_done(new, names),
        Message::BookmarkTrack => step is Done && old.jj_bookmark_track_done(new, names),
        Message::BookmarkUntrack => step is Done && old.jj_bookmark_untrack_done(new, names),
        Message::Commit => step is Done && old.jj_commit_done(new),
        Message::Describe => step is Done && old.jj_describe_done(new),
        Message::DescribeInline => step is Done && old.start_describe_input_done(new),
        Message::Duplicate { destination_type, destination } => step is Done && old.jj_duplicate_done(
            new,
            destination_type,
            destination,
        ),
        Message::Edit => step is Done && old.jj_edit_done(new),
        Message::EditTarget => step is Done && old.jj_edit_target_done(new, names),
        Message::Evolog { patch } => step is Done && old.jj_evolog_done(new, patch),
        Message::FileTrack => step is Done && old.jj_file_track_done(new, names),
        Message::FileUntrack => step is Done && old.jj_file_untrack_done(new),
        Message::GitFetch { mode } => step is Done && old.jj_git_fetch_done(new, mode, names),
        Message::GitPush { mode } => step is Done && old.jj_git_push_done(new, mode, names),
        Message::Interdiff { mode } => step is Done && old.jj_interdiff_done(new, mode),
        Message::Metaedit { action } => step is Done && old.jj_metaedit_done(new, action),
        Message::New { mode } => step is Done && old.jj_new_done(new, mode),
        Message::NewAfterTrunkSync => step is Done && old.jj_new_after_trunk_sync_done(new),
        Message::NewAtTarget => step is Done && old.jj_new_at_target_done(new, names),
        Message::NextPrev { direction, mode, offset } => step is Done && old.jj_next_prev_done(
            new,
            direction,
            mode,
            offset,
        ),
        Message::Open => step is OpenFile && new == old,
        Message::Parallelize { source } => step is Done && old.jj_parallelize_done(new, source),
        Message::Rebase { source_type, destination_type, destination } => step is Done
            && old.jj_rebase_done(new, source_type, destination_type, destination),
        Message::RebaseSelectedBranchOntoTrunk => step is Done
            && old.jj_rebase_selected_branch_onto_trunk_done(new),
        Message::RebaseSelectedBranchOntoTrunkSync => step is Done
            && old.jj_rebase_selected_branch_onto_trunk_sync_done(new),
        Message::RebaseTargetFuzzy { source_type, destination_type } => step is Done
            && old.jj_rebase_target_fuzzy_done(new, source_type, destination_type),
        Message::Redo => step is Done && old.jj_redo_done(new),
        Message::Resolve => step is Done && old.jj_resolve_done(new),
        Message::Restore { mode } => step is Done && old.jj_restore_done(new, mode),
        Message::Revert { revision, destination_type, destination } => step is Done
            && old.jj_revert_done(new, revision, destination_type, destination),
        Message::SaveSelection => step is Done && old.save_selection_done(new),
        Message::Sign { action, range } => step is Done && old.jj_sign_done(new, action, range),
        Message::SimplifyParents { mode } => step is Done && old.jj_simplify_parents_done(new, mode),
        Message::Squash { mode } => step is Done && old.jj_squash_done(new, mode),
        Message::Status => step is Done && old.jj_status_done(new),
        Message::Undo => step is Done && old.jj_undo_done(new),
        Message::View { mode } => step is Done && old.jj_view_done(new, mode),
        Message::WorkspaceAddPathOnly => step is Done && old.jj_workspace_add_path_only_done(new),
        Message::WorkspaceAddNamed => step is Done && old.jj_workspace_add_named_done(new),
        Message::SelectNextSiblingNode
        | Message::SelectParentNode
        | Message::SelectPrevSiblingNode
        | Message::ToggleLogListFold
        | Message::BookmarkListAll
        | Message::BookmarkListLocal
        | Message::BookmarkListTracked
        | Message::BookmarkListUntracked
        | Message::BookmarkListConflicted
        | Message::Custom
        | Message::NewRevsets
        | Message::RebaseCustom
        | Message::WorkspaceForgetAtSelection
        | Message::WorkspaceForgetCurrent
        | Message::WorkspaceForgetFuzzy
        | Message::WorkspaceList
        | Message::WorkspaceRename
        | Message::WorkspaceUpdateStale => step is Unavailable && new == old,
    }
}

/// The part of [`Model::handle_msg`] that handles `msg`.
spec fn message_part(msg: Message) -> int {
    match msg {
        Message::Clear
        | Message::Quit
        | Message::Refresh
        | Message::SetRevset { .. }
        | Message::SubmitTextInput
        | Message::ShowHelp
        | Message::ToggleIgnoreImmutable
        | Message::ScrollDownPage
        | Message::ScrollUpPage
        | Message::SelectByBookmark
        | Message::SelectByDescription
        | Message::SelectCurrentWorkingCopy
        | Message::SelectInRevset
        | Message::SelectNextNode
        | Message::SelectPrevNode
        | Message::LeftMouseClick { .. }
        | Message::RightMouseClick { .. }
        | Message::ScrollDown
        | Message::ScrollUp
        | Message::Open
        | Message::SaveSelection => 0,
        Message::Abandon { .. }
        | Message::Absorb { .. }
        | Message::BookmarkCreate
        | Message::BookmarkDelete
        | Message::BookmarkForget { .. }
        | Message::BookmarkMove { .. }
        | Message::BookmarkRename
        | Message::BookmarkSet { .. }
        | Message::BookmarkTrack
        | Message::BookmarkUntrack
        | Message::Commit
        | Message::Describe
        | Message::DescribeInline
        | Message::Duplicate { .. }
        | Message::Edit
        | Message::EditTarget
        | Message::Evolog { .. }
        | Message::FileTrack
        | Message::FileUntrack
        | Message::GitFetch { .. }
        | Message::GitPush { .. } => 1,
        Message::Interdiff { .. }
        | Message::Metaedit { .. }
        | Message::New { .. }
        | Message::NewAfterTrunkSync
        | Message::NewAtTarget
        | Message::NextPrev { .. }
        | Message::Parallelize { .. }
        | Message::Rebase { .. }
        | Message::RebaseSelectedBranchOntoTrunk
        | Message::RebaseSelectedBranchOntoTrunkSync
        | Message::RebaseTargetFuzzy { .. }
        | Message::Redo
        | Message::Resolve
        | Message::Restore { .. }
        | Message::Revert { .. }
        | Message::Sign { .. }
        | Message::SimplifyParents { .. }
        | Message::Squash { .. }
        | Message::Status
        | Message::Undo
        | Message::View { .. }
        | Message::WorkspaceAddPathOnly
        | Message::WorkspaceAddNamed => 2,
        _ => 3,
    }
}

impl Model {
    /// The listing that the finder of `msg` offers, where it opens one: the
    /// caller fetches it and hands it to [`Model::handle_msg`].
    pub fn listing_for(&self, msg: &Message) -> (r: Option<Listing>)
        requires
            self.wf(),
        ensures
            r == message_listing(*self, *msg),
    {
        match msg {
            Message::BookmarkDelete | Message::BookmarkForget { .. } | Message::BookmarkRename => Some(
                Listing::BookmarkNames,
            ),
            Message::BookmarkSet { .. } => if self.has_selected_change() {
                Some(Listing::BookmarkNames)
            } else {
                None
            },
            Message::BookmarkTrack => Some(Listing::UntrackedRemoteBookmarks),
            Message::BookmarkUntrack => Some(Listing::TrackedRemoteBookmarks),
            Message::EditTarget | Message::NewAtTarget => Some(Listing::RevisionTargets),
            Message::FileTrack => Some(Listing::Files),
            Message::GitFetch { mode } => match mode {
                GitFetchMode::Branch => Some(Listing::BookmarkNames),
                GitFetchMode::Remote => Some(Listing::GitRemotes),
                _ => None,
            },
            Message::GitPush { mode } => match mode {
                GitPushMode::Bookmark => Some(Listing::BookmarkNames),
                _ => None,
            },
            _ => None,
        }
    }

    /// Whether the model is in a state to handle `msg`.
    pub fn can_handle(&self, msg: &Message) -> (b: bool)
        ensures
            b == message_ready(*self, *msg),
    {
        match msg {
            Message::ScrollDownPage
            | Message::ScrollUpPage
            | Message::ScrollDown
            | Message::ScrollUp
            | Message::LeftMouseClick { .. }
            | Message::RightMouseClick { .. } => self.log_list_offset < self.log_list.len(),
            Message::ShowHelp => self.command_tree.root_has_children(),
            _ => true,
        }
    }

    /// Handles `msg`: `first_line` is the first line of an open prompt, and
    /// `names` the listing that [`Model::listing_for`] asked for (else
    /// nothing is read from it).
    pub fn handle_msg(&mut self, msg: Message, first_line: &str, names: Vec<String>) -> (step: MsgStep)
        requires
            old(self).wf(),
            message_ready(*old(self), msg),
        ensures
            final(self).wf_but_selection(),
            !(msg == Message::SubmitTextInput && selects_by_number(*old(self))) ==> final(self).wf(),
            message_handled(*old(self), *final(self), msg, first_line@, names.deep_view(), step),
    {
        if Self::is_general_msg(&msg) {
            self.handle_general_msg(msg, first_line, names)
        } else if Self::is_first_command_msg(&msg) {
            self.handle_first_commands(msg, first_line, names)
        } else if Self::is_second_command_msg(&msg) {
            self.handle_second_commands(msg, first_line, names)
        } else {
            MsgStep::Unavailable
        }
    }

    /// Handles the general, navigation and mouse messages, and opening a file.
    #[verifier::spinoff_prover]
    fn handle_general_msg(&mut self, msg: Message, first_line: &str, names: Vec<String>) -> (step: MsgStep)
        requires
            old(self).wf(),
            message_ready(*old(self), msg),
            message_part(msg) == 0,
        ensures
            final(self).wf_but_selection(),
            !(msg == Message::SubmitTextInput && selects_by_number(*old(self))) ==> final(self).wf(),
            message_handled(*old(self), *final(self), msg, first_line@, names.deep_view(), step),
    {
        match msg {
            // General
            Message::Clear => self.clear(),
            Message::Quit => self.quit(),
            Message::Refresh => return MsgStep::Refresh,
            Message::SetRevset { mode } => return MsgStep::Applied(self.set_revset(mode)),
            Message::SubmitTextInput => return MsgStep::Applied(self.submit_text_input(first_line)),
            Message::ShowHelp => self.show_help(),
            Message::ToggleIgnoreImmutable => self.toggle_ignore_immutable(),
            // Navigation
            Message::ScrollDownPage => self.scroll_down_page(),
            Message::ScrollUpPage => self.scroll_up_page(),
            Message::SelectByBookmark => self.select_by_bookmark(),
            Message::SelectByDescription => self.select_by_description(),
            Message::SelectCurrentWorkingCopy => self.select_current_working_copy(),
            Message::SelectInRevset => self.select_in_revset(),
            Message::SelectNextNode => self.select_next_node(),
            Message::SelectPrevNode => self.select_prev_node(),
            // Mouse
            Message::LeftMouseClick { row, column } => self.handle_mouse_click(row, column),
            Message::RightMouseClick { row, column } => {
                self.handle_mouse_click(row, column);
                return MsgStep::ClickedWithoutFold;
            },
            Message::ScrollDown => {
                assert(self.log_list.len() <= usize::MAX);
                self.scroll_down_once()
            },
            Message::ScrollUp => self.scroll_up_once(),
            Message::Open => return MsgStep::OpenFile,
            Message::SaveSelection => self.save_selection(),
            _ => {},
        }
        MsgStep::Done
    }

    /// Handles the command messages from `Abandon` to `GitPush`.
    #[verifier::spinoff_prover]
    fn handle_first_commands(&mut self, msg: Message, first_line: &str, names: Vec<String>) -> (step: MsgStep)
        requires
            old(self).wf(),
            message_ready(*old(self), msg),
            message_part(msg) == 1,
        ensures
            final(self).wf(),
            message_handled(*old(self), *final(self), msg, first_line@, names.deep_view(), step),
    {
        match msg {
            Message::Abandon { mode } => self.jj_abandon(mode),
            Message::Absorb { mode } => self.jj_absorb(mode),
            Message::BookmarkCreate => self.jj_bookmark_create(),
            Message::BookmarkDelete => self.jj_bookmark_delete(names),
            Message::BookmarkForget { include_remotes } => self.jj_bookmark_forget(include_remotes, names),
            Message::BookmarkMove { mode } => self.jj_bookmark_move(mode),
            Message::BookmarkRename => self.jj_bookmark_rename(names),
            Message::BookmarkSet { .. } => self.jj_bookmark_set(names),
            Message::BookmarkTrack => self.jj_bookmark_track(names),
            Message::BookmarkUntrack => self.jj_bookmark_untrack(names),
            Message::Commit => self.jj_commit(),
            Message::Describe => self.jj_describe(),
            Message::DescribeInline => self.start_describe_input(),
            Message::Duplicate { destination_type, destination } => self.jj_duplicate(destination_type, destination),
            Message::Edit => self.jj_edit(),
            Message::EditTarget => self.jj_edit_target(names),
            Message::Evolog { patch } => self.jj_evolog(patch),
            Message::FileTrack => self.jj_file_track(names),
            Message::FileUntrack => self.jj_file_untrack(),
            Message::GitFetch { mode } => self.jj_git_fetch(mode, names),
            Message::GitPush { mode } => self.jj_git_push(mode, names),
            _ => {},
        }
        MsgStep::Done
    }

    /// Handles the command messages from `Interdiff` on.
    #[verifier::spinoff_prover]
    fn handle_second_commands(&mut self, msg: Message, first_line: &str, names: Vec<String>) -> (step: MsgStep)
        requires
            old(self).wf(),
            message_ready(*old(self), msg),
            message_part(msg) == 2,
        ensures
            final(self).wf(),
            message_handled(*old(self), *final(self), msg, first_line@, names.deep_view(), step),
    {
        match msg {
            Message::Interdiff { mode } => self.jj_interdiff(mode),
            Message::Metaedit { action } => self.jj_metaedit(action),
            Message::New { mode } => self.jj_new(mode),
            Message::NewAfterTrunkSync => self.jj_new_after_trunk_sync(),
            Message::NewAtTarget => self.jj_new_at_target(names),
            Message::NextPrev { direction, mode, offset } => self.jj_next_prev(direction, mode, offset),
            Message::Parallelize { source } => self.jj_parallelize(source),
            Message::Rebase { source_type, destination_type, destination } => {
                self.jj_rebase(source_type, destination_type, destination)
            },
            Message::RebaseSelectedBranchOntoTrunk => self.jj_rebase_selected_branch_onto_trunk(),
            Message::RebaseSelectedBranchOntoTrunkSync => self.jj_rebase_selected_branch_onto_trunk_sync(),
            Message::RebaseTargetFuzzy { source_type, destination_type } => {
                self.jj_rebase_target_fuzzy(source_type, destination_type)
            },
            Message::Redo => self.jj_redo(),
            Message::Resolve => self.jj_resolve(),
            Message::Restore { mode } => self.jj_restore(mode),
            Message::Revert { revision, destination_type, destination } => {
                self.jj_revert(revision, destination_type, destination)
            },
            Message::Sign { action, range } => self.jj_sign(action, range),
            Message::SimplifyParents { mode } => self.jj_simplify_parents(mode),
            Message::Squash { mode } => self.jj_squash(mode),
            Message::Status => self.jj_status(),
            Message::Undo => self.jj_undo(),
            Message::View { mode } => self.jj_view(mode),
            Message::WorkspaceAddPathOnly => self.jj_workspace_add_path_only(),
            Message::WorkspaceAddNamed => self.jj_workspace_add_named(),
            _ => {},
        }
        MsgStep::Done
    }

    fn is_general_msg(msg: &Message) -> (b: bool)
        ensures
            b == (message_part(*msg) == 0),
    {
        match msg {
            Message::Clear
            | Message::Quit
            | Message::Refresh
            | Message::SetRevset { .. }
            | Message::SubmitTextInput
            | Message::ShowHelp
            | Message::ToggleIgnoreImmutable
            | Message::ScrollDownPage
            | Message::ScrollUpPage
            | Message::SelectByBookmark
            | Message::SelectByDescription
            | Message::SelectCurrentWorkingCopy
            | Message::SelectInRevset
            | Message::SelectNextNode
            | Message::SelectPrevNode
            | Message::LeftMouseClick { .. }
            | Message::RightMouseClick { .. }
            | Message::ScrollDown
            | Message::ScrollUp
            | Message::Open
            | Message::SaveSelection => true,
            _ => false,
        }
    }

    fn is_first_command_msg(msg: &Message) -> (b: bool)
        ensures
            b == (message_part(*msg) == 1),
    {
        match msg {
            Message::Abandon { .. }
            | Message::Absorb { .. }
            | Message::BookmarkCreate
            | Message::BookmarkDelete
            | Message::BookmarkForget { .. }
            | Message::BookmarkMove { .. }
            | Message::BookmarkRename
            | Message::BookmarkSet { .. }
            | Message::BookmarkTrack
            | Message::BookmarkUntrack
            | Message::Commit
            | Message::Describe
            | Message::DescribeInline
            | Message::Duplicate { .. }
            | Message::Edit
            | Message::EditTarget
            | Message::Evolog { .. }
            | Message::FileTrack
            | Message::FileUntrack
            | Message::GitFetch { .. }
            | Message::GitPush { .. } => true,
            _ => false,
        }
    }

    fn is_second_command_msg(msg: &Message) -> (b: bool)
        ensures
            b == (message_part(*msg) == 2),
    {
        match msg {
            Message::Interdiff { .. }
            | Message::Metaedit { .. }
            | Message::New { .. }
            | Message::NewAfterTrunkSync
            | Message::NewAtTarget
            | Message::NextPrev { .. }
            | Message::Parallelize { .. }
            | Message::Rebase { .. }
            | Message::RebaseSelectedBranchOntoTrunk
            | Message::RebaseSelectedBranchOntoTrunkSync
            | Message::RebaseTargetFuzzy { .. }
            | Message::Redo
            | Message::Resolve
            | Message::Restore { .. }
            | Message::Revert { .. }
            | Message::Sign { .. }
            | Message::SimplifyParents { .. }
            | Message::Squash { .. }
            | Message::Status
            | Message::Undo
            | Message::View { .. }
            | Message::WorkspaceAddPathOnly
            | Message::WorkspaceAddNamed => true,
            _ => false,
        }
    }
}


/// Up and `k` select the previous node, Down and `j` the next one, with or
/// without Control, outside a prompt.
pub proof fn lemma_vertical_navigation_keys(ctrl: bool)
    ensures
        navigation_message(Key::Up, ctrl) == Some(Message::SelectPrevNode),
        navigation_message(Key::Char('k'), ctrl) == Some(Message::SelectPrevNode),
        navigation_message(Key::Down, ctrl) == Some(Message::SelectNextNode),
        navigation_message(Key::Char('j'), ctrl) == Some(Message::SelectNextNode),
{
}

/// The other navigation and general keys outside a prompt: `q` and Control
/// with `c` quit (`c` alone does nothing); Page Down and Page Up scroll by a
/// page; Left or `h` and Right or `l` go to the previous and next sibling,
/// `K` to the parent; Space or Backspace refresh; Tab folds; Esc clears; `@`
/// selects the working copy; `I` toggles rewriting immutable revisions; `?`
/// shows the help.
pub proof fn lemma_general_keys(ctrl: bool)
    ensures
        navigation_message(Key::Char('q'), ctrl) == Some(Message::Quit),
        navigation_message(Key::Char('c'), true) == Some(Message::Quit),
        navigation_message(Key::Char('c'), false) is None,
        navigation_message(Key::PageDown, ctrl) == Some(Message::ScrollDownPage),
        navigation_message(Key::PageUp, ctrl) == Some(Message::ScrollUpPage),
        navigation_message(Key::Left, ctrl) == Some(Message::SelectPrevSiblingNode),
        navigation_message(Key::Char('h'), ctrl) == Some(Message::SelectPrevSiblingNode),
        navigation_message(Key::Right, ctrl) == Some(Message::SelectNextSiblingNode),
        navigation_message(Key::Char('l'), ctrl) == Some(Message::SelectNextSiblingNode),
        navigation_message(Key::Char('K'), ctrl) == Some(Message::SelectParentNode),
        navigation_message(Key::Char(' '), ctrl) == Some(Message::Refresh),
        navigation_message(Key::Backspace, ctrl) == Some(Message::Refresh),
        navigation_message(Key::Tab, ctrl) == Some(Message::ToggleLogListFold),
        navigation_message(Key::Esc, ctrl) == Some(Message::Clear),
        navigation_message(Key::Char('@'), ctrl) == Some(Message::SelectCurrentWorkingCopy),
        navigation_message(Key::Char('I'), ctrl) == Some(Message::ToggleIgnoreImmutable),
        navigation_message(Key::Char('?'), ctrl) == Some(Message::ShowHelp),
{
}

/// Handling what Up or `k` asks for moves the selection up one node, or
/// keeps it on the first; handling what Down or `j` asks for moves it down
/// one node, or keeps it on the last. The log stays as it was.
pub proof fn lemma_vertical_keys_move_selection(
    old: Model,
    new: Model,
    key: Key,
    ctrl: bool,
    first_line: Seq<char>,
    names: Seq<Seq<char>>,
    step: MsgStep,
)
    requires
        old.wf(),
        key == Key::Up || key == Key::Char('k') || key == Key::Down || key == Key::Char('j'),
        message_handled(old, new, navigation_message(key, ctrl)->0, first_line, names, step),
    ensures
        key == Key::Up || key == Key::Char('k') ==> new.selected() == (if old.selected() > 0 {
            old.selected() - 1
        } else {
            0
        }),
        key == Key::Down || key == Key::Char('j') ==> new.selected() == (if old.selected() + 1
            < old.entries().len() {
            old.selected() + 1
        } else {
            old.selected() as int
        }),
        new.entries() == old.entries(),
{
}


/// In a prompt, Esc closes it and Enter submits it, with or without a
/// finder; with a finder, the keys that move its selection do nothing more,
/// and any other key goes to the text and filters the finder again; without
/// one, any other key goes to the text.
pub proof fn lemma_prompt_keys(key: Key)
    ensures
        fuzzy_prompt_key(Key::Esc) == KeyOutcome::Message(Message::Clear),
        plain_prompt_key(Key::Esc) == KeyOutcome::Message(Message::Clear),
        fuzzy_prompt_key(Key::Enter) == KeyOutcome::Message(Message::SubmitTextInput),
        plain_prompt_key(Key::Enter) == KeyOutcome::Message(Message::SubmitTextInput),
        key == Key::Up || key == Key::Down || key == Key::Tab || key == Key::BackTab || key == Key::PageUp
            || key == Key::PageDown ==> (fuzzy_prompt_key(key) == KeyOutcome::Handled),
        key != Key::Esc && key != Key::Enter && key != Key::Up && key != Key::Down && key != Key::Tab && key
            != Key::BackTab && key != Key::PageUp && key != Key::PageDown ==> (fuzzy_prompt_key(key)
            == (KeyOutcome::ForwardToPrompt { refilter: true })),
        key != Key::Esc && key != Key::Enter ==> (plain_prompt_key(key) == (KeyOutcome::ForwardToPrompt {
            refilter: false,
        })),
{
}

} // verus!
