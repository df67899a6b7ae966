//! The state of the interface between key presses: the log list and its
//! selection, the saved selection of two-step commands, the text prompt, the
//! queue of `jj` commands and the info area, and how each message changes them.
use crate::command_tree::{
    CommandTree, can_compare_first_line, display_unbound_error_lines, has_entries, info_view,
    node_at, rendered_help, sorted_help, unbound_reported,
};
use crate::fuzzy::{CandidateView, FuzzyFinderState, all_unscored, candidates_view, filtered_view, sort_desc};
use crate::keys::{Key, key_label_matches};
use crate::message::{Message, NextPrevDirection, NextPrevMode, RebaseDestinationType, RebaseSourceType};
use crate::shell_out::{
    GlobalArgs, GlobalArgsView, JjCommand, JjCommandError, JjCommandView, command_lines, opt_view,
};
use crate::styled::{LineView, SpanView, StyledLine, StyledSpan, ansi_lines, lines_view, spans_view, text_lines};
use crate::text::{strip_prefix, strip_prefix_of};
use vstd::prelude::*;

verus! {

broadcast use vstd::string::group_string_axioms;

/// The revset the log shows unless another is chosen.
pub const DEFAULT_REVSET: &'static str = "present(@) | ancestors(immutable_heads().., 32) | remote_bookmarks() | root()";

/// How many log nodes stay visible above and below the selection.
pub const LOG_LIST_SCROLL_PADDING: usize = 5;

/// Whether the interface runs, waits for text, or quits.
#[derive(Debug, PartialEq, Eq, Structural, Clone, Copy)]
pub enum State {
    Running,
    EnteringText,
    Quit,
}

impl Default for State {
    fn default() -> (s: Self)
        ensures
            s == State::Running,
    {
        State::Running
    }
}


/// What a submitted prompt does.
#[derive(Debug)]
pub enum TextInputAction {
    SetRevset,
    Describe,
    BookmarkCreate,
    BookmarkDelete,
    BookmarkForget { include_remotes: bool },
    BookmarkRenameFrom,
    BookmarkRenameTo { old_name: String },
    BookmarkSet,
    BookmarkTrack,
    BookmarkUntrack,
    EditTarget,
    FileTrack,
    GitFetchBranch,
    GitFetchRemote,
    GitPushNamed { change_id: String },
    GitPushBookmark,
    MetaeditAuthor { change_id: String },
    MetaeditAuthorTimestamp { change_id: String },
    NewAtTarget,
    NextPrevOffset { direction: NextPrevDirection, mode: NextPrevMode },
    ParallelizeRevset,
    RebaseTarget { source_type: RebaseSourceType, destination_type: RebaseDestinationType },
    SelectInRevset,
    WorkspaceAddPathOnly,
    WorkspaceAddNamePrompt,
    WorkspaceAddPathPrompt { name: String },
    WorkspaceForget,
    WorkspaceList,
    WorkspaceRename,
}

/// The plain-value view of a [`TextInputAction`].
pub enum ActionView {
    SetRevset,
    Describe,
    BookmarkCreate,
    BookmarkDelete,
    BookmarkForget { include_remotes: bool },
    BookmarkRenameFrom,
    BookmarkRenameTo { old_name: Seq<char> },
    BookmarkSet,
    BookmarkTrack,
    BookmarkUntrack,
    EditTarget,
    FileTrack,
    GitFetchBranch,
    GitFetchRemote,
    GitPushNamed { change_id: Seq<char> },
    GitPushBookmark,
    MetaeditAuthor { change_id: Seq<char> },
    MetaeditAuthorTimestamp { change_id: Seq<char> },
    NewAtTarget,
    NextPrevOffset { direction: NextPrevDirection, mode: NextPrevMode },
    ParallelizeRevset,
    RebaseTarget { source_type: RebaseSourceType, destination_type: RebaseDestinationType },
    SelectInRevset,
    WorkspaceAddPathOnly,
    WorkspaceAddNamePrompt,
    WorkspaceAddPathPrompt { name: Seq<char> },
    WorkspaceForget,
    WorkspaceList,
    WorkspaceRename,
}

impl View for TextInputAction {
    type V = ActionView;

    open spec fn view(&self) -> ActionView {
        match self {
            TextInputAction::SetRevset => ActionView::SetRevset,
            TextInputAction::Describe => ActionView::Describe,
            TextInputAction::BookmarkCreate => ActionView::BookmarkCreate,
            TextInputAction::BookmarkDelete => ActionView::BookmarkDelete,
            TextInputAction::BookmarkForget { include_remotes } => ActionView::BookmarkForget {
                include_remotes: *include_remotes,
            },
            TextInputAction::BookmarkRenameFrom => ActionView::BookmarkRenameFrom,
            TextInputAction::BookmarkRenameTo { old_name } => ActionView::BookmarkRenameTo {
                old_name: old_name@,
            },
            TextInputAction::BookmarkSet => ActionView::BookmarkSet,
            TextInputAction::BookmarkTrack => ActionView::BookmarkTrack,
            TextInputAction::BookmarkUntrack => ActionView::BookmarkUntrack,
            TextInputAction::EditTarget => ActionView::EditTarget,
            TextInputAction::FileTrack => ActionView::FileTrack,
            TextInputAction::GitFetchBranch => ActionView::GitFetchBranch,
            TextInputAction::GitFetchRemote => ActionView::GitFetchRemote,
            TextInputAction::GitPushNamed { change_id } => ActionView::GitPushNamed {
                change_id: change_id@,
            },
            TextInputAction::GitPushBookmark => ActionView::GitPushBookmark,
            TextInputAction::MetaeditAuthor { change_id } => ActionView::MetaeditAuthor {
                change_id: change_id@,
            },
            TextInputAction::MetaeditAuthorTimestamp { change_id } => ActionView::MetaeditAuthorTimestamp {
                change_id: change_id@,
            },
            TextInputAction::NewAtTarget => ActionView::NewAtTarget,
            TextInputAction::NextPrevOffset { direction, mode } => ActionView::NextPrevOffset {
                direction: *direction,
                mode: *mode,
            },
            TextInputAction::ParallelizeRevset => ActionView::ParallelizeRevset,
            TextInputAction::RebaseTarget { source_type, destination_type } => ActionView::RebaseTarget {
                source_type: *source_type,
                destination_type: *destination_type,
            },
            TextInputAction::SelectInRevset => ActionView::SelectInRevset,
            TextInputAction::WorkspaceAddPathOnly => ActionView::WorkspaceAddPathOnly,
            TextInputAction::WorkspaceAddNamePrompt => ActionView::WorkspaceAddNamePrompt,
            TextInputAction::WorkspaceAddPathPrompt { name } => ActionView::WorkspaceAddPathPrompt {
                name: name@,
            },
            TextInputAction::WorkspaceForget => ActionView::WorkspaceForget,
            TextInputAction::WorkspaceList => ActionView::WorkspaceList,
            TextInputAction::WorkspaceRename => ActionView::WorkspaceRename,
        }
    }
}

/// An open text prompt: its label, the text it starts with, what submitting
/// it does, and the fuzzy finder where it offers candidates.
#[derive(Debug)]
pub struct TextInputSession {
    pub prompt: String,
    pub initial_text: String,
    pub action: TextInputAction,
    pub fuzzy: Option<FuzzyFinderState>,
}

/// The commit a log entry belongs to, as the log shows it.
#[derive(Debug)]
pub struct CommitInfo {
    pub change_id: String,
    pub commit_id: String,
    pub bookmarks: Vec<String>,
    pub workspaces: Vec<String>,
    pub description_first_line: Option<String>,
    pub current_working_copy: bool,
}

/// One node of the flattened log: how many lines it takes, where it sits in
/// the log tree, whether it is a commit itself, the commit it belongs to, and
/// the file of the diff it belongs to.
#[derive(Debug)]
pub struct LogListEntry {
    pub line_count: usize,
    pub tree_position: Vec<usize>,
    pub commit_node: bool,
    pub commit: Option<CommitInfo>,
    pub file_path: Option<String>,
}

/// A rectangle of the terminal.
#[derive(Debug, Clone, Copy, PartialEq, Eq, Structural)]
pub struct Area {
    pub x: u16,
    pub y: u16,
    pub width: u16,
    pub height: u16,
}

/// The state of the interface.
#[derive(Debug)]
pub struct Model {
    pub global_args: GlobalArgs,
    pub display_repository: String,
    pub revset: String,
    pub state: State,
    pub command_tree: CommandTree,
    pub command_keys: Vec<Key>,
    pub queued_jj_commands: Vec<JjCommand>,
    pub accumulated_command_output: Vec<StyledLine>,
    pub saved_change_id: Option<String>,
    pub saved_file_path: Option<String>,
    pub saved_tree_position: Option<Vec<usize>>,
    pub log_list: Vec<LogListEntry>,
    pub log_list_selected: usize,
    pub log_list_offset: usize,
    pub log_list_layout: Area,
    pub log_list_scroll_padding: usize,
    pub fuzzy_viewport_height: usize,
    pub info_list: Option<Vec<StyledLine>>,
    pub text_input: Option<TextInputSession>,
}

/// A line of one unstyled span.
pub open spec fn raw_line(text: Seq<char>) -> LineView {
    LineView::Spans(seq![SpanView { content: text, color: None }])
}

/// An info area of one unstyled line.
pub open spec fn single_line_info(text: Seq<char>) -> Option<Seq<LineView>> {
    Some(seq![raw_line(text)])
}

/// What the info area shows while commands wait: the output so far, then the
/// next command and "Running...".
pub open spec fn queue_info(accumulated: Seq<LineView>, queue: Seq<JjCommandView>) -> Seq<LineView> {
    if queue.len() > 0 {
        accumulated + command_lines(queue[0]) + seq![raw_line("Running..."@)]
    } else {
        accumulated
    }
}

/// The views of commands.
pub open spec fn commands_view(cmds: Seq<JjCommand>) -> Seq<JjCommandView> {
    cmds.map_values(|c: JjCommand| c@)
}

/// The view of an optional session's action and prompt.
pub open spec fn opt_text(s: Option<String>) -> Option<Seq<char>> {
    match s {
        Some(t) => Some(t@),
        None => None,
    }
}

/// The views of the strings of a vector.
pub open spec fn strings_view(v: Seq<String>) -> Seq<Seq<char>> {
    v.map_values(|s: String| s@)
}

impl Model {
    /// The nodes of the log list.
    pub open spec fn entries(&self) -> Seq<LogListEntry> {
        self.log_list@
    }

    /// The index of the selected node.
    pub open spec fn selected(&self) -> usize {
        self.log_list_selected
    }

    /// The index of the first node shown.
    pub open spec fn list_offset(&self) -> usize {
        self.log_list_offset
    }

    /// The keys pressed so far of a command sequence.
    pub open spec fn command_keys_view(&self) -> Seq<Key> {
        self.command_keys@
    }

    /// The commands waiting to run.
    pub open spec fn queued(&self) -> Seq<JjCommandView> {
        commands_view(self.queued_jj_commands@)
    }

    /// The output of the commands of the queue that ran.
    pub open spec fn accumulated(&self) -> Seq<LineView> {
        lines_view(self.accumulated_command_output@)
    }

    /// The change saved by the first step of a two-step command.
    pub open spec fn saved_change(&self) -> Option<Seq<char>> {
        opt_text(self.saved_change_id)
    }

    /// The file saved with the change.
    pub open spec fn saved_file(&self) -> Option<Seq<char>> {
        opt_text(self.saved_file_path)
    }

    /// The log tree position saved with the change.
    pub open spec fn saved_position(&self) -> Option<Seq<usize>> {
        match self.saved_tree_position {
            Some(p) => Some(p@),
            None => None,
        }
    }

    /// The info area.
    pub open spec fn info(&self) -> Option<Seq<LineView>> {
        info_view(self.info_list)
    }

    /// The log list has a node and the selection is one of its nodes; an open
    /// fuzzy finder is well formed.
    pub open spec fn wf(&self) -> bool {
        &&& self.entries().len() > 0
        &&& self.selected() < self.entries().len()
        &&& self.text_input matches Some(s) ==> (s.fuzzy matches Some(f) ==> f.wf())
    }

    /// [`Model::wf`] but for the selection, which a choice of the finder may
    /// put past the last node until the list is next drawn.
    pub open spec fn wf_but_selection(&self) -> bool {
        &&& self.entries().len() > 0
        &&& self.text_input matches Some(s) ==> (s.fuzzy matches Some(f) ==> f.wf())
    }

    /// The selected node.
    pub open spec fn selected_entry(&self) -> LogListEntry {
        self.entries()[self.selected() as int]
    }

    /// The change of the selected node.
    pub open spec fn selected_change(&self) -> Option<Seq<char>> {
        match self.selected_entry().commit {
            Some(c) => Some(c.change_id@),
            None => None,
        }
    }

    /// The commit id of the selected node.
    pub open spec fn selected_commit_id(&self) -> Option<Seq<char>> {
        match self.selected_entry().commit {
            Some(c) => Some(c.commit_id@),
            None => None,
        }
    }

    /// The file of the selected node.
    pub open spec fn selected_file(&self) -> Option<Seq<char>> {
        opt_text(self.selected_entry().file_path)
    }

    /// Whether the selected node belongs to the working-copy commit.
    pub open spec fn selected_is_working_copy(&self) -> bool {
        self.selected_entry().commit matches Some(c) && c.current_working_copy
    }

    /// The same state but for the info area.
    pub open spec fn same_but_info(&self, other: &Model) -> bool {
        &&& self.same_but_queue(other)
        &&& self.queued_jj_commands == other.queued_jj_commands
        &&& self.accumulated_command_output == other.accumulated_command_output
    }

    /// The same state but for the info area and the command queue with its output.
    pub open spec fn same_but_queue(&self, other: &Model) -> bool {
        &&& self.same_but_prompt(other)
        &&& self.state == other.state
        &&& self.text_input == other.text_input
    }

    /// The same state but for the info area, the queue with its output, the
    /// run state and the prompt.
    pub open spec fn same_but_prompt(&self, other: &Model) -> bool {
        &&& self.same_selection_and_log(other)
        &&& self.saved_change_id == other.saved_change_id
        &&& self.saved_file_path == other.saved_file_path
        &&& self.saved_tree_position == other.saved_tree_position
        &&& self.command_keys == other.command_keys
    }

    /// The same options, log list, selection and layout.
    pub open spec fn same_selection_and_log(&self, other: &Model) -> bool {
        &&& self.same_log(other)
        &&& self.log_list_selected == other.log_list_selected
        &&& self.log_list_offset == other.log_list_offset
    }

    /// The same options, log list and layout, whatever the selection.
    pub open spec fn same_log(&self, other: &Model) -> bool {
        &&& self.global_args == other.global_args
        &&& self.display_repository == other.display_repository
        &&& self.revset == other.revset
        &&& self.command_tree == other.command_tree
        &&& self.log_list == other.log_list
        &&& self.log_list_layout == other.log_list_layout
        &&& self.log_list_scroll_padding == other.log_list_scroll_padding
        &&& self.fuzzy_viewport_height == other.fuzzy_viewport_height
    }
}

/// `new` reports an invalid selection and changes nothing else.
pub open spec fn invalid_selection_reported(old: Model, new: Model) -> bool {
    &&& new.same_but_info(&old)
    &&& new.info() == single_line_info("Invalid selection"@)
}

/// `new` reports a cancelled prompt and changes nothing else.
pub open spec fn cancelled_reported(old: Model, new: Model) -> bool {
    &&& new.same_but_info(&old)
    &&& new.info() == single_line_info("Cancelled"@)
}

/// `new` waits to run `cmds`, with no output yet, and shows the first.
pub open spec fn commands_queued(old: Model, new: Model, cmds: Seq<JjCommandView>) -> bool {
    &&& new.same_but_queue(&old)
    &&& new.queued() == cmds
    &&& new.accumulated() == Seq::<LineView>::empty()
    &&& new.info() == Some(queue_info(Seq::empty(), cmds))
}

/// `new` prompts for text labelled `prompt`, starting with `initial`, that
/// `action` takes, without a finder.
pub open spec fn text_prompted(
    old: Model,
    new: Model,
    prompt: Seq<char>,
    initial: Seq<char>,
    action: ActionView,
) -> bool {
    &&& new.same_but_prompt(&old)
    &&& new.queued_jj_commands == old.queued_jj_commands
    &&& new.accumulated_command_output == old.accumulated_command_output
    &&& new.state == State::EnteringText
    &&& new.info_list is None
    &&& match new.text_input {
        Some(s) => session_is(s, prompt, initial, action) && s.fuzzy is None,
        None => false,
    }
}

/// `new` prompts with a finder over `cands` labelled `prompt` for `action`:
/// without a finder where there are no candidates; else with the candidates
/// sorted by shown text, greatest first, all listed and the last selected.
pub open spec fn fuzzy_prompted(
    old: Model,
    new: Model,
    prompt: Seq<char>,
    cands: Seq<CandidateView>,
    action: ActionView,
) -> bool {
    if cands.len() == 0 {
        text_prompted(old, new, prompt, Seq::empty(), action)
    } else {
        &&& new.same_but_prompt(&old)
        &&& new.queued_jj_commands == old.queued_jj_commands
        &&& new.accumulated_command_output == old.accumulated_command_output
        &&& new.state == State::EnteringText
        &&& new.info_list is None
        &&& match new.text_input {
            Some(s) => session_is(s, prompt, Seq::empty(), action) && match s.fuzzy {
                Some(f) => finder_over(f, cands),
                None => false,
            },
            None => false,
        }
    }
}

/// `s` is labelled `prompt`, starts with `initial` and does `action`.
pub open spec fn session_is(
    s: TextInputSession,
    prompt: Seq<char>,
    initial: Seq<char>,
    action: ActionView,
) -> bool {
    s.prompt@ == prompt && s.initial_text@ == initial && s.action@ == action
}

/// `f` offers `cands` sorted by shown text, greatest first, all listed and
/// the last selected.
pub open spec fn finder_over(f: FuzzyFinderState, cands: Seq<CandidateView>) -> bool {
    &&& candidates_view(f.candidates@) == sort_desc(cands)
    &&& filtered_view(f.filtered@) == all_unscored(cands.len())
    &&& f.selected == cands.len() - 1
}

/// `repository` as the header shows it: `~` for the home directory and
/// `~/` for paths under it.
pub open spec fn repository_for_display(repository: Seq<char>, home: Option<Seq<char>>) -> Seq<
    char,
> {
    match home {
        None => repository,
        Some(h) => if repository == h {
            "~"@
        } else {
            match strip_prefix(repository, h + "/"@) {
                Some(rest) => "~/"@ + rest,
                None => repository,
            }
        },
    }
}

/// `repository` as the header shows it, given the home directory where it is known.
pub fn format_repository_for_display(repository: &str, home: Option<&str>) -> (r: String)
    ensures
        r@ == repository_for_display(repository@, opt_view(home)),
{
    let home_dir = match home {
        None => return String::from_str(repository),
        Some(h) => h,
    };
    let repo = String::from_str(repository);
    let home_string = String::from_str(home_dir);
    if repo == home_string {
        return String::from_str("~");
    }
    let mut home_prefix = String::from_str(home_dir);
    home_prefix.append("/");
    match strip_prefix_of(repository, home_prefix.as_str()) {
        Some(relative_path) => {
            let mut r = String::from_str("~/");
            r.append(relative_path.as_str());
            r
        },
        None => String::from_str(repository),
    }
}

/// A line of one unstyled span.
pub(crate) fn raw_text_line(text: &str) -> (l: StyledLine)
    ensures
        l@ == raw_line(text@),
{
    StyledLine::raw(String::from_str(text))
}

/// An info area of one unstyled line.
pub(crate) fn single_line(text: &str) -> (lines: Vec<StyledLine>)
    ensures
        Some(lines_view(lines@)) == single_line_info(text@),
{
    let mut lines: Vec<StyledLine> = Vec::new();
    lines.push(raw_text_line(text));
    assert(lines_view(lines@) =~= seq![raw_line(text@)]);
    lines
}

impl Model {
    /// The state for `repository` showing `revset`, before the log is loaded:
    /// running, nothing selected, saved or queued.
    pub fn new(repository: String, revset: String, home: Option<&str>) -> (m: Self)
        ensures
            m.global_args@ == (GlobalArgsView { repository: repository@, ignore_immutable: false }),
            m.display_repository@ == repository_for_display(repository@, opt_view(home)),
            m.revset@ == revset@,
            m.state == State::Running,
            m.entries().len() == 0,
            m.queued().len() == 0,
            m.saved_change() is None,
            m.info_list is None,
            m.text_input is None,
            m.log_list_scroll_padding == LOG_LIST_SCROLL_PADDING,
            m.command_tree.root().children is Some,
            m.command_keys_view() == Seq::<Key>::empty(),
            m.accumulated() == Seq::<LineView>::empty(),
            m.saved_file() is None,
            m.saved_position() is None,
            m.selected() == 0,
            m.list_offset() == 0,
            m.log_list_layout == (Area { x: 0, y: 0, width: 0, height: 0 }),
            m.fuzzy_viewport_height == 0,
    {
        let display_repository = format_repository_for_display(repository.as_str(), home);
        let m = Model {
            global_args: GlobalArgs { repository, ignore_immutable: false },
            display_repository,
            revset,
            state: State::Running,
            command_tree: CommandTree::new(),
            command_keys: Vec::new(),
            queued_jj_commands: Vec::new(),
            accumulated_command_output: Vec::new(),
            saved_change_id: None,
            saved_file_path: None,
            saved_tree_position: None,
            log_list: Vec::new(),
            log_list_selected: 0,
            log_list_offset: 0,
            log_list_layout: Area { x: 0, y: 0, width: 0, height: 0 },
            log_list_scroll_padding: LOG_LIST_SCROLL_PADDING,
            fuzzy_viewport_height: 0,
            info_list: None,
            text_input: None,
        };
        assert(commands_view(m.queued_jj_commands@) =~= Seq::<JjCommandView>::empty());
        m
    }

    /// `new` is this model after `quit`.
    pub open spec fn quit_done(self, new: Model) -> bool {
        &&& new.state == State::Quit
        &&& new.same_but_prompt(&self)
        &&& new.text_input == self.text_input
        &&& new.info_list == self.info_list
        &&& new.queued_jj_commands == self.queued_jj_commands
        &&& new.accumulated_command_output == self.accumulated_command_output
    }

    /// Asks the interface to quit.
    pub fn quit(&mut self)
        ensures
            old(self).quit_done(*final(self)),
    {
        self.state = State::Quit;
    }

    /// `new` is this model after `toggle_ignore_immutable`.
    pub open spec fn toggle_ignore_immutable_done(self, new: Model) -> bool {
        &&& new.global_args@.ignore_immutable == !self.global_args@.ignore_immutable
        &&& new.global_args@.repository == self.global_args@.repository
        &&& new == (Model { global_args: new.global_args, ..self })
    }

    /// Flips whether commands may rewrite immutable revisions.
    pub fn toggle_ignore_immutable(&mut self)
        ensures
            old(self).toggle_ignore_immutable_done(*final(self)),
    {
        self.global_args.ignore_immutable = !self.global_args.ignore_immutable;
    }

    /// Replaces the log list, as loading the log or folding a node makes it,
    /// and selects node `selected`.
    pub fn set_log_list(&mut self, log_list: Vec<LogListEntry>, selected: usize)
        requires
            selected < log_list.len(),
        ensures
            final(self).entries() == log_list@,
            final(self).selected() == selected,
            *final(self) == (Model {
                log_list: final(self).log_list,
                log_list_selected: final(self).log_list_selected,
                ..*old(self)
            }),
            old(self).text_input is None ==> final(self).wf(),
    {
        self.log_list = log_list;
        self.log_list_selected = selected;
    }

    /// Records the first node the list shows, as drawing the list decides it.
    pub fn set_list_offset(&mut self, offset: usize)
        ensures
            final(self).list_offset() == offset,
            *final(self) == (Model { log_list_offset: offset, ..*old(self) }),
    {
        self.log_list_offset = offset;
    }

    /// The index of the selected node.
    pub fn log_selected(&self) -> (i: usize)
        ensures
            i == self.selected(),
    {
        self.log_list_selected
    }

    /// The index of the first node shown.
    pub fn log_offset(&self) -> (i: usize)
        ensures
            i == self.list_offset(),
    {
        self.log_list_offset
    }

    /// The nodes of the log list.
    pub fn log_list(&self) -> (l: &Vec<LogListEntry>)
        ensures
            l@ == self.entries(),
    {
        &self.log_list
    }

    /// The change saved by the first step of a two-step command.
    pub fn saved_change_id(&self) -> (c: Option<&str>)
        ensures
            opt_view(c) == self.saved_change(),
    {
        match &self.saved_change_id {
            Some(c) => Some(c.as_str()),
            None => None,
        }
    }

    /// The log tree position saved with the change.
    pub fn saved_tree_position(&self) -> (p: Option<&Vec<usize>>)
        ensures
            match p {
                Some(v) => self.saved_position() == Some(v@),
                None => self.saved_position() is None,
            },
    {
        match &self.saved_tree_position {
            Some(p) => Some(p),
            None => None,
        }
    }

    /// The commands waiting to run.
    pub fn queued_commands(&self) -> (q: &Vec<JjCommand>)
        ensures
            commands_view(q@) == self.queued(),
    {
        &self.queued_jj_commands
    }

    /// Selects node `idx`.
    pub(crate) fn log_select(&mut self, idx: usize)
        ensures
            final(self).selected() == idx,
            final(self).same_log(old(self)),
            final(self).list_offset() == old(self).list_offset(),
            final(self).same_but_selection(old(self)),
    {
        self.log_list_selected = idx;
    }

    /// Keeps the selection on the list, as drawing the list does: a selection
    /// past the last node moves to the last node.
    pub fn clamp_selection(&mut self)
        requires
            old(self).entries().len() > 0,
        ensures
            final(self).selected() == (if old(self).selected() < old(self).entries().len() {
                old(self).selected() as int
            } else {
                old(self).entries().len() - 1
            }),
            final(self).same_but_selection(old(self)),
            final(self).list_offset() == old(self).list_offset(),
            old(self).wf_but_selection() ==> final(self).wf(),
    {
        if self.log_list_selected >= self.log_list.len() {
            let last = self.log_list.len() - 1;
            self.log_select(last);
        }
    }

    /// The same state but for the selection.
    pub open spec fn same_but_selection(&self, other: &Model) -> bool {
        &&& self.same_log(other)
        &&& self.log_list_offset == other.log_list_offset
        &&& self.saved_change_id == other.saved_change_id
        &&& self.saved_file_path == other.saved_file_path
        &&& self.saved_tree_position == other.saved_tree_position
        &&& self.command_keys == other.command_keys
        &&& self.state == other.state
        &&& self.text_input == other.text_input
        &&& self.queued_jj_commands == other.queued_jj_commands
        &&& self.accumulated_command_output == other.accumulated_command_output
        &&& self.info_list == other.info_list
    }

    /// The change of the selected node.
    pub(crate) fn get_selected_change_id(&self) -> (c: Option<&str>)
        requires
            self.wf(),
        ensures
            opt_view(c) == self.selected_change(),
    {
        match &self.log_list[self.log_list_selected].commit {
            Some(commit) => Some(commit.change_id.as_str()),
            None => None,
        }
    }

    /// The commit id of the selected node.
    pub(crate) fn get_selected_commit_id(&self) -> (c: Option<&str>)
        requires
            self.wf(),
        ensures
            opt_view(c) == self.selected_commit_id(),
    {
        match &self.log_list[self.log_list_selected].commit {
            Some(commit) => Some(commit.commit_id.as_str()),
            None => None,
        }
    }

    /// The file of the selected node.
    pub(crate) fn get_selected_file_path(&self) -> (f: Option<&str>)
        requires
            self.wf(),
        ensures
            opt_view(f) == self.selected_file(),
    {
        match &self.log_list[self.log_list_selected].file_path {
            Some(f) => Some(f.as_str()),
            None => None,
        }
    }

    /// The saved change.
    pub(crate) fn get_saved_change_id(&self) -> (c: Option<&str>)
        ensures
            opt_view(c) == self.saved_change(),
    {
        match &self.saved_change_id {
            Some(c) => Some(c.as_str()),
            None => None,
        }
    }

    /// The saved file.
    pub(crate) fn get_saved_file_path(&self) -> (f: Option<&str>)
        ensures
            opt_view(f) == self.saved_file(),
    {
        match &self.saved_file_path {
            Some(f) => Some(f.as_str()),
            None => None,
        }
    }

    /// Whether the selected node belongs to the working-copy commit.
    pub(crate) fn is_selected_working_copy(&self) -> (b: bool)
        requires
            self.wf(),
        ensures
            b == self.selected_is_working_copy(),
    {
        match &self.log_list[self.log_list_selected].commit {
            Some(commit) => commit.current_working_copy,
            None => false,
        }
    }

    /// Reports an invalid selection.
    pub(crate) fn invalid_selection(&mut self)
        ensures
            invalid_selection_reported(*old(self), *final(self)),
    {
        self.info_list = Some(single_line("Invalid selection"));
    }

    /// Reports a cancelled prompt.
    pub(crate) fn cancelled(&mut self)
        ensures
            cancelled_reported(*old(self), *final(self)),
    {
        self.info_list = Some(single_line("Cancelled"));
    }

    /// Shows what the queue waits for: the output so far, then the next
    /// command and "Running...".
    pub(crate) fn update_info_list_for_queue(&mut self)
        ensures
            final(self).same_but_info(old(self)),
            final(self).info() == Some(queue_info(old(self).accumulated(), old(self).queued())),
    {
        let mut lines = crate::styled::duplicate_lines(&self.accumulated_command_output);
        if self.queued_jj_commands.len() > 0 {
            let ghost before = lines_view(lines@);
            let cmd_lines = self.queued_jj_commands[0].to_lines();
            crate::styled::extend_lines(&mut lines, cmd_lines);
            let mut running: Vec<StyledLine> = Vec::new();
            running.push(raw_text_line("Running..."));
            assert(lines_view(running@) =~= seq![raw_line("Running..."@)]);
            crate::styled::extend_lines(&mut lines, running);
            assert(self.queued()[0] == self.queued_jj_commands@[0]@);
        }
        self.info_list = Some(lines);
    }

    /// Drops the output so far and waits to run `cmds`.
    pub(crate) fn queue_jj_commands(&mut self, cmds: Vec<JjCommand>)
        ensures
            commands_queued(*old(self), *final(self), commands_view(cmds@)),
    {
        self.accumulated_command_output = Vec::new();
        self.queued_jj_commands = cmds;
        assert(lines_view(self.accumulated_command_output@) =~= Seq::<LineView>::empty());
        self.update_info_list_for_queue();
    }

    /// Drops the output so far and waits to run `cmd`.
    pub(crate) fn queue_jj_command(&mut self, cmd: JjCommand)
        ensures
            commands_queued(*old(self), *final(self), seq![cmd@]),
    {
        let mut cmds: Vec<JjCommand> = Vec::new();
        cmds.push(cmd);
        assert(commands_view(cmds@) =~= seq![cmd@]);
        self.queue_jj_commands(cmds);
    }

    /// `new` is this model after `clear`.
    pub open spec fn clear_done(self, new: Model) -> bool {
        &&& new.same_selection_and_log(&self)
        &&& new.state == State::Running
        &&& new.text_input is None
        &&& new.info_list is None
        &&& new.saved_change() is None
        &&& new.saved_file() is None
        &&& new.saved_position() is None
        &&& new.command_keys_view() == Seq::<Key>::empty()
        &&& new.queued() == Seq::<JjCommandView>::empty()
        &&& new.accumulated() == Seq::<LineView>::empty()
    }

    /// Clears the info area, the prompt, the saved selection, the keys
    /// pressed and the queue.
    pub fn clear(&mut self)
        ensures
            old(self).clear_done(*final(self)),
    {
        self.state = State::Running;
        self.text_input = None;
        self.info_list = None;
        self.saved_tree_position = None;
        self.saved_change_id = None;
        self.saved_file_path = None;
        self.command_keys = Vec::new();
        self.queued_jj_commands = Vec::new();
        self.accumulated_command_output = Vec::new();
        assert(commands_view(self.queued_jj_commands@) =~= Seq::<JjCommandView>::empty());
        assert(lines_view(self.accumulated_command_output@) =~= Seq::<LineView>::empty());
    }

    /// `new` is this model after `save_selection`.
    pub open spec fn save_selection_done(self, new: Model) -> bool {
        &&& match self.selected_change() {
            None => finished_with(self, new, seq![raw_line("Invalid selection"@)]),
            Some(c) => {
                &&& new.saved_change() == Some(c)
                &&& new.saved_file() == self.selected_file()
                &&& new.saved_position() == Some(self.selected_entry().tree_position@)
                &&& new == Model {
                    saved_change_id: new.saved_change_id,
                    saved_file_path: new.saved_file_path,
                    saved_tree_position: new.saved_tree_position,
                    ..self
                }
            },
        }
    }

    /// Saves the selected change, its file and its log position for the
    /// second step of a command; where nothing is selected, clears and
    /// reports an invalid selection.
    pub fn save_selection(&mut self)
        requires
            old(self).wf(),
        ensures
            final(self).wf(),
            old(self).save_selection_done(*final(self)),
    {
        let change_id = match self.get_selected_change_id() {
            Some(c) => String::from_str(c),
            None => {
                self.clear();
                self.invalid_selection();
                return;
            },
        };
        let file_path = match self.get_selected_file_path() {
            Some(f) => Some(String::from_str(f)),
            None => None,
        };
        let position = self.log_list[self.log_list_selected].tree_position.clone();
        self.saved_change_id = Some(change_id);
        self.saved_file_path = file_path;
        self.saved_tree_position = Some(position);
    }

    /// `new` is this model after `show_help`.
    pub open spec fn show_help_done(self, new: Model) -> bool {
        &&& new.same_but_info(&self)
        &&& new.info() == Some(
            rendered_help(
                crate::command_tree::insert_group(
                    crate::command_tree::insert_group(
                        sorted_help(self.command_tree.root().children->0.help_view()),
                        "Navigation"@,
                        crate::command_tree::navigation_help(),
                    ),
                    "General"@,
                    crate::command_tree::general_help(),
                ),
            ),
        )
    }

    /// Shows the help of the whole command tree.
    pub fn show_help(&mut self)
        requires
            old(self).command_tree.root().children is Some,
        ensures
            old(self).show_help_done(*final(self)),
    {
        self.info_list = Some(self.command_tree.get_help());
    }
}


/// Which way a scroll goes through the log list.
#[derive(Debug, Clone, Copy, PartialEq, Eq, Structural)]
pub(crate) enum ScrollDirection {
    Up,
    Down,
}

/// The node reached from `node` going down (or up) the list whose nodes take
/// `counts` lines, with `traversed` lines already behind: the walk stops at
/// the last (first) node, or at the node whose lines take the total past
/// `line_dist`.
pub open spec fn dest_node(counts: Seq<usize>, line_dist: int, node: int, traversed: int, down: bool) -> int
    decreases (if down { counts.len() - node } else { node }),
{
    if node < 0 || node >= counts.len() {
        node
    } else {
        let total = traversed + counts[node];
        if (down && node == counts.len() - 1) || (!down && node == 0) || total > line_dist {
            node
        } else {
            dest_node(counts, line_dist, if down { node + 1 } else { node - 1 }, total, down)
        }
    }
}

/// The walk of [`dest_node`] ends on a node of the list.
pub proof fn lemma_dest_node_in_list(counts: Seq<usize>, line_dist: int, node: int, traversed: int, down: bool)
    requires
        0 <= node < counts.len(),
    ensures
        0 <= dest_node(counts, line_dist, node, traversed, down) < counts.len(),
        down ==> dest_node(counts, line_dist, node, traversed, down) >= node,
        !down ==> dest_node(counts, line_dist, node, traversed, down) <= node,
    decreases (if down { counts.len() - node } else { node }),
{
    let total = traversed + counts[node];
    if (down && node == counts.len() - 1) || (!down && node == 0) || total > line_dist {
    } else {
        lemma_dest_node_in_list(counts, line_dist, if down { node + 1 } else { node - 1 }, total, down);
    }
}

/// The first node of the working-copy commit, from `from` on.
pub open spec fn working_copy_node_from(entries: Seq<LogListEntry>, from: int) -> Option<int>
    decreases entries.len() - from,
{
    if from < 0 || from >= entries.len() {
        None
    } else if entries[from].commit_node && (entries[from].commit matches Some(c)
        && c.current_working_copy) {
        Some(from)
    } else {
        working_copy_node_from(entries, from + 1)
    }
}

/// The node of the working-copy commit, where the list has one.
pub open spec fn working_copy_node(entries: Seq<LogListEntry>) -> Option<int> {
    working_copy_node_from(entries, 0)
}

impl Model {
    /// How many lines each node of the list takes.
    pub open spec fn line_counts(&self) -> Seq<usize> {
        self.log_list@.map_values(|e: LogListEntry| e.line_count)
    }

    /// The node `line_dist` lines away from `starting_node`, counting the lines
    /// of each node: the walk stops at the end of the list, or at the node
    /// whose lines reach past `line_dist`.
    pub(crate) fn line_dist_to_dest_node(&self, line_dist: usize, starting_node: usize, direction: ScrollDirection) -> (n: usize)
        requires
            starting_node < self.entries().len(),
        ensures
            n == dest_node(self.line_counts(), line_dist as int, starting_node as int, 0, direction == ScrollDirection::Down),
            n < self.entries().len(),
    {
        let ghost down = direction == ScrollDirection::Down;
        let ghost counts = self.line_counts();
        proof {
            lemma_dest_node_in_list(counts, line_dist as int, starting_node as int, 0, down);
        }
        let mut current_node = starting_node;
        let mut lines_traversed: usize = 0;
        loop
            invariant
                current_node < self.log_list@.len(),
                lines_traversed <= line_dist,
                counts == self.line_counts(),
                down == (direction == ScrollDirection::Down),
                dest_node(counts, line_dist as int, starting_node as int, 0, down) == dest_node(
                    counts,
                    line_dist as int,
                    current_node as int,
                    lines_traversed as int,
                    down,
                ),
            decreases (if down { self.log_list@.len() - current_node } else { current_node as int }),
        {
            let lines_in_node = self.log_list[current_node].line_count;
            let at_end = match direction {
                ScrollDirection::Down => current_node == self.log_list.len() - 1,
                ScrollDirection::Up => current_node == 0,
            };
            if at_end || lines_in_node > line_dist - lines_traversed {
                return current_node;
            }
            lines_traversed = lines_traversed + lines_in_node;
            match direction {
                ScrollDirection::Down => current_node = current_node + 1,
                ScrollDirection::Up => current_node = current_node - 1,
            }
        }
    }

    /// `new` is this model after `select_next_node`.
    pub open spec fn select_next_node_done(self, new: Model) -> bool {
        &&& new.selected() == (if self.selected() + 1 < self.entries().len() {
            self.selected() + 1
        } else {
            self.selected() as int
        })
        &&& new.same_but_selection(&self)
    }

    /// Moves the selection to the next node, unless it is on the last.
    pub fn select_next_node(&mut self)
        requires
            old(self).wf(),
        ensures
            final(self).wf(),
            old(self).select_next_node_done(*final(self)),
    {
        if self.log_list_selected < self.log_list.len() - 1 {
            self.log_select(self.log_list_selected + 1);
        }
    }

    /// `new` is this model after `select_prev_node`.
    pub open spec fn select_prev_node_done(self, new: Model) -> bool {
        &&& new.selected() == (if self.selected() > 0 {
            self.selected() - 1
        } else {
            0
        })
        &&& new.same_but_selection(&self)
    }

    /// Moves the selection to the previous node, unless it is on the first.
    pub fn select_prev_node(&mut self)
        requires
            old(self).wf(),
        ensures
            final(self).wf(),
            old(self).select_prev_node_done(*final(self)),
    {
        if self.log_list_selected > 0 {
            self.log_select(self.log_list_selected - 1);
        }
    }

    /// `new` is this model after `select_current_working_copy`.
    pub open spec fn select_current_working_copy_done(self, new: Model) -> bool {
        &&& new.selected() == (match working_copy_node(self.entries()) {
            Some(i) => i,
            None => self.selected() as int,
        })
        &&& new.same_but_selection(&self)
    }

    /// Selects the node of the working-copy commit, where the list shows it.
    pub fn select_current_working_copy(&mut self)
        requires
            old(self).wf(),
        ensures
            final(self).wf(),
            old(self).select_current_working_copy_done(*final(self)),
    {
        let mut i: usize = 0;
        while i < self.log_list.len()
            invariant
                i <= self.log_list@.len(),
                *self == *old(self),
                self.wf(),
                working_copy_node(self.entries()) == working_copy_node_from(self.entries(), i as int),
            decreases self.log_list@.len() - i,
        {
            let entry = &self.log_list[i];
            let found = entry.commit_node && match &entry.commit {
                Some(c) => c.current_working_copy,
                None => false,
            };
            if found {
                self.log_select(i);
                return;
            }
            i = i + 1;
        }
    }

    /// `new` is this model after `scroll_down_once`.
    pub open spec fn scroll_down_once_done(self, new: Model) -> bool {
        &&& new.list_offset() == self.list_offset() + 1
        &&& new.selected() == (if self.selected() <= self.list_offset() + self.log_list_scroll_padding
            && self.selected() + 1 < self.entries().len() {
            self.selected() + 1
        } else {
            self.selected() as int
        })
        &&& new.same_log(&self)
    }

    /// Scrolls the list down a line: the selection follows while it is near
    /// the top of the window.
    pub fn scroll_down_once(&mut self)
        requires
            old(self).wf(),
            old(self).list_offset() < usize::MAX,
        ensures
            final(self).wf(),
            old(self).scroll_down_once_done(*final(self)),
    {
        if self.log_list_selected <= self.log_list_offset.saturating_add(self.log_list_scroll_padding) {
            self.select_next_node();
        }
        self.log_list_offset = self.log_list_offset + 1;
    }

    /// `new` is this model after `scroll_up_once`.
    pub open spec fn scroll_up_once_done(self, new: Model) -> bool {
        &&& self.list_offset() == 0 ==> new == self
        &&& self.list_offset() > 0 ==> {
            let last_visible = dest_node(
                self.line_counts(),
                if self.log_list_layout.height > 0 { self.log_list_layout.height - 1 } else { 0 },
                self.list_offset() as int,
                0,
                true,
            );
            &&& new.list_offset() == self.list_offset() - 1
            &&& new.selected() == (if self.selected() + 1
                + self.log_list_scroll_padding >= last_visible && self.selected() > 0 {
                self.selected() - 1
            } else {
                self.selected() as int
            })
        }
        &&& new.same_log(&self)
    }

    /// Scrolls the list up a line, unless it shows the first node: the
    /// selection follows while it is near the bottom of the window. A window
    /// of no rows counts as one row.
    pub fn scroll_up_once(&mut self)
        requires
            old(self).wf(),
            old(self).list_offset() < old(self).entries().len(),
        ensures
            final(self).wf(),
            old(self).scroll_up_once_done(*final(self)),
    {
        if self.log_list_offset == 0 {
            return;
        }
        let rows = (self.log_list_layout.height as usize).saturating_sub(1);
        let last_node_visible = self.line_dist_to_dest_node(rows, self.log_list_offset, ScrollDirection::Down);
        if self.log_list_selected.saturating_add(1).saturating_add(self.log_list_scroll_padding) >= last_node_visible {
            self.select_prev_node();
        }
        self.log_list_offset = self.log_list_offset - 1;
    }
}


/// The selection and the first node shown after scrolling `num_lines` lines
/// down (or up) from the window that starts at `offset`: the window moves to
/// the node that many lines away and the selection keeps its place in it;
/// where the window cannot move down, the selection goes to the last node,
/// and where it is at the top already, to the first. The selection stays on
/// the list.
pub open spec fn page_scroll(counts: Seq<usize>, selected: int, offset: int, num_lines: int, down: bool) -> (int, int) {
    let dist = if selected >= offset { selected - offset } else { 0 };
    let target_offset = dest_node(counts, num_lines, offset, 0, down);
    let node_and_offset = if down && target_offset == counts.len() - 1 {
        (target_offset, offset)
    } else if !down && target_offset == 0 && offset == 0 {
        (0, target_offset)
    } else {
        (target_offset + dist, target_offset)
    };
    (if node_and_offset.0 < counts.len() { node_and_offset.0 } else { counts.len() - 1 }, node_and_offset.1)
}

/// Whether (`row`, `column`) falls inside `area`.
pub open spec fn area_contains(area: Area, row: int, column: int) -> bool {
    &&& area.y <= row < area.y + area.height
    &&& area.x <= column < area.x + area.width
}

impl Model {
    /// Scrolls the list `num_lines` lines down or up, as [`page_scroll`] says.
    fn scroll_lines(&mut self, num_lines: usize, direction: ScrollDirection)
        requires
            old(self).wf(),
            old(self).list_offset() < old(self).entries().len(),
        ensures
            final(self).wf(),
            (final(self).selected() as int, final(self).list_offset() as int) == page_scroll(
                old(self).line_counts(),
                old(self).selected() as int,
                old(self).list_offset() as int,
                num_lines as int,
                direction == ScrollDirection::Down,
            ),
            final(self).same_log(old(self)),
    {
        let selected_node_dist_from_offset = self.log_list_selected.saturating_sub(self.log_list_offset);
        let mut target_offset = self.line_dist_to_dest_node(num_lines, self.log_list_offset, direction);
        let mut target_node = target_offset.saturating_add(selected_node_dist_from_offset);
        match direction {
            ScrollDirection::Down => {
                if target_offset == self.log_list.len() - 1 {
                    target_node = target_offset;
                    target_offset = self.log_list_offset;
                }
            },
            ScrollDirection::Up => {
                if target_offset == 0 && target_offset == self.log_list_offset {
                    target_node = 0;
                }
            },
        }
        if target_node > self.log_list.len() - 1 {
            target_node = self.log_list.len() - 1;
        }
        self.log_select(target_node);
        self.log_list_offset = target_offset;
    }

    /// `new` is this model after `scroll_down_page`.
    pub open spec fn scroll_down_page_done(self, new: Model) -> bool {
        &&& (new.selected() as int, new.list_offset() as int) == page_scroll(
            self.line_counts(),
            self.selected() as int,
            self.list_offset() as int,
            self.log_list_layout.height as int,
            true,
        )
        &&& new.same_log(&self)
    }

    /// Scrolls the list down by the height of its window.
    pub fn scroll_down_page(&mut self)
        requires
            old(self).wf(),
            old(self).list_offset() < old(self).entries().len(),
        ensures
            final(self).wf(),
            old(self).scroll_down_page_done(*final(self)),
    {
        self.scroll_lines(self.log_list_layout.height as usize, ScrollDirection::Down);
    }

    /// `new` is this model after `scroll_up_page`.
    pub open spec fn scroll_up_page_done(self, new: Model) -> bool {
        &&& (new.selected() as int, new.list_offset() as int) == page_scroll(
            self.line_counts(),
            self.selected() as int,
            self.list_offset() as int,
            self.log_list_layout.height as int,
            false,
        )
        &&& new.same_log(&self)
    }

    /// Scrolls the list up by the height of its window.
    pub fn scroll_up_page(&mut self)
        requires
            old(self).wf(),
            old(self).list_offset() < old(self).entries().len(),
        ensures
            final(self).wf(),
            old(self).scroll_up_page_done(*final(self)),
    {
        self.scroll_lines(self.log_list_layout.height as usize, ScrollDirection::Up);
    }

    /// `new` is this model after `handle_mouse_click`.
    pub open spec fn handle_mouse_click_done(self, new: Model, row: u16, column: u16) -> bool {
        &&& new.same_but_selection(&self)
        &&& new.selected() == (if area_contains(self.log_list_layout, row as int, column as int) {
            dest_node(
                self.line_counts(),
                row - self.log_list_layout.y,
                self.list_offset() as int,
                0,
                true,
            )
        } else {
            self.selected() as int
        })
    }

    /// Selects the node under a click at (`row`, `column`), where the click
    /// falls inside the list.
    pub fn handle_mouse_click(&mut self, row: u16, column: u16)
        requires
            old(self).wf(),
            old(self).list_offset() < old(self).entries().len(),
        ensures
            final(self).wf(),
            old(self).handle_mouse_click_done(*final(self), row, column),
    {
        let area = self.log_list_layout;
        if (row as u32) < (area.y as u32) || (row as u32) >= (area.y as u32) + (area.height as u32)
            || (column as u32) < (area.x as u32) || (column as u32) >= (area.x as u32) + (area.width as u32) {
            return;
        }
        let target_node = self.line_dist_to_dest_node((row - area.y) as usize, self.log_list_offset, ScrollDirection::Down);
        self.log_select(target_node);
    }
}


/// The info area after the keys pressed reach `node`: the help of the keys
/// that continue from it, where there are any, or the info area as it was.
pub open spec fn info_after_node(info: Option<Seq<LineView>>, node: crate::command_tree::CommandTreeNode) -> Option<Seq<LineView>> {
    match node.children {
        Some(c) => if has_entries(sorted_help(c.help_view())) {
            Some(rendered_help(sorted_help(c.help_view())))
        } else {
            info
        },
        None => info,
    }
}


/// What following `key` of a command sequence does, from `old` to `new`
/// with result `r`: an unbound key is reported and forgotten; a bound one
/// shows the help of the keys that continue from it, returns its action, and
/// ends the sequence where it has an action and nothing continues from it.
pub open spec fn command_key_handled(old: Model, new: Model, key: Key, r: Option<Message>) -> bool {
    let path = old.command_keys@.push(key);
    match node_at(old.command_tree.root(), path) {
        None => {
            &&& r is None
            &&& exists|label: Seq<char>|
                key_label_matches(key, label) && new.info() == unbound_reported(old.info(), label, false)
            &&& new.command_keys@ == old.command_keys@
            &&& new == Model { info_list: new.info_list, command_keys: new.command_keys, ..old }
        },
        Some(n) => {
            &&& r == n.action
            &&& new.info() == info_after_node(old.info(), n)
            &&& new.command_keys@ == (if n.action is Some && n.children is None {
                Seq::<Key>::empty()
            } else {
                path
            })
            &&& new == Model { info_list: new.info_list, command_keys: new.command_keys, ..old }
        },
    }
}

impl Model {
    /// Whether the info area can take the report of an unbound key: it is
    /// empty, or its first line starts with something to compare.
    pub fn can_report_unbound(&self) -> (b: bool)
        ensures
            b == can_compare_first_line(self.info()),
    {
        match &self.info_list {
            None => true,
            Some(lines) => {
                if lines.len() == 0 {
                    false
                } else {
                    match &lines[0] {
                        StyledLine::Spans(spans) => spans.len() > 0,
                        StyledLine::Ansi(text) => !text.as_str().is_empty(),
                    }
                }
            },
        }
    }

    /// Follows a key of a command sequence. An unbound key is reported and
    /// forgotten. Where the sequence reaches a group, its help is shown; where
    /// it reaches an action, the action is returned, and the sequence ends
    /// unless keys continue from there.
    pub fn handle_command_key(&mut self, key_code: Key) -> (r: Option<Message>)
        requires
            old(self).wf(),
            node_at(old(self).command_tree.root(), old(self).command_keys@.push(key_code)) is None
                ==> can_compare_first_line(old(self).info()),
        ensures
            final(self).wf(),
            command_key_handled(*old(self), *final(self), key_code, r),
    {
        self.command_keys.push(key_code);
        let node = match self.command_tree.get_node(self.command_keys.as_slice()) {
            None => {
                self.command_keys.pop();
                assert(self.command_keys@ =~= old(self).command_keys@);
                display_unbound_error_lines(&mut self.info_list, &key_code, false);
                return None;
            },
            Some(node) => node,
        };
        let action = node.action;
        let has_children = node.children.is_some();
        if let Some(children) = &node.children {
            if children.has_help() {
                self.info_list = Some(children.get_help());
            }
        }
        if let Some(message) = action {
            if !has_children {
                self.command_keys = Vec::new();
                assert(self.command_keys@ =~= Seq::<Key>::empty());
            }
            return Some(message);
        }
        None
    }
}


/// What is left for the caller once the result of a queued command is
/// recorded.
#[derive(Debug)]
pub enum QueueStep {
    /// More commands wait; the next one is shown.
    More,
    /// The queue is done and its output shown; the log is to be reloaded
    /// where `sync` says so.
    Finished { sync: bool },
    /// The command could not run; the error ends the interface.
    Aborted { err: anyhow::Error },
}

/// The output so far with the lines announcing `cmd` after it, a blank line
/// between them where there was output.
pub open spec fn with_command_lines(accumulated: Seq<LineView>, cmd: JjCommandView) -> Seq<LineView> {
    (if accumulated.len() > 0 {
        accumulated.push(LineView::Spans(Seq::empty()))
    } else {
        accumulated
    }) + command_lines(cmd)
}

/// `new` shows `lines` and is otherwise cleared as [`Model::clear`] leaves it.
pub open spec fn finished_with(old: Model, new: Model, lines: Seq<LineView>) -> bool {
    &&& new.same_selection_and_log(&old)
    &&& new.state == State::Running
    &&& new.text_input is None
    &&& new.saved_change() is None
    &&& new.saved_file() is None
    &&& new.saved_position() is None
    &&& new.command_keys_view() == Seq::<Key>::empty()
    &&& new.queued() == Seq::<JjCommandView>::empty()
    &&& new.accumulated() == Seq::<LineView>::empty()
    &&& new.info() == Some(lines)
}

impl Model {
    /// Takes the next queued command out of the queue, to be run.
    pub fn take_next_command(&mut self) -> (c: Option<JjCommand>)
        ensures
            old(self).queued().len() == 0 ==> c is None && *final(self) == *old(self),
            old(self).queued().len() > 0 ==> (c matches Some(cmd) && cmd@ == old(self).queued()[0]),
            old(self).queued().len() > 0 ==> final(self).queued() == old(self).queued().drop_first(),
            *final(self) == (Model { queued_jj_commands: final(self).queued_jj_commands, ..*old(self) }),
    {
        if self.queued_jj_commands.len() == 0 {
            return None;
        }
        let cmd = self.queued_jj_commands.remove(0);
        assert(commands_view(self.queued_jj_commands@) =~= commands_view(old(self).queued_jj_commands@).drop_first());
        Some(cmd)
    }

    /// Records what running `cmd`, taken from the queue, gave: its lines and
    /// its output after the output so far. On success the next command is
    /// shown, or, where none waits, the state is cleared with all the output
    /// shown; a failure is shown the same way with what the command printed;
    /// an error of a command that could not run is handed back.
    pub fn record_command_result(&mut self, cmd: &JjCommand, result: Result<String, JjCommandError>) -> (step: QueueStep)
        ensures
            ({
                let acc = with_command_lines(old(self).accumulated(), cmd@);
                match result {
                    Ok(out) => if old(self).queued().len() == 0 {
                        &&& finished_with(*old(self), *final(self), acc + ansi_lines(out@))
                        &&& step == (QueueStep::Finished { sync: cmd@.sync })
                    } else {
                        &&& final(self).accumulated() == acc + ansi_lines(out@)
                        &&& final(self).info() == Some(queue_info(acc + ansi_lines(out@), old(self).queued()))
                        &&& *final(self) == Model {
                            accumulated_command_output: final(self).accumulated_command_output,
                            info_list: final(self).info_list,
                            ..*old(self)
                        }
                        &&& step is More
                    },
                    Err(JjCommandError::Failed { stderr }) => {
                        &&& finished_with(*old(self), *final(self), acc + ansi_lines(stderr@))
                        &&& step == (QueueStep::Finished { sync: false })
                    },
                    Err(JjCommandError::Other { err }) => {
                        &&& final(self).accumulated() == acc
                        &&& *final(self) == Model {
                            accumulated_command_output: final(self).accumulated_command_output,
                            ..*old(self)
                        }
                        &&& step == (QueueStep::Aborted { err })
                    },
                }
            }),
    {
        let ghost before = lines_view(self.accumulated_command_output@);
        if self.accumulated_command_output.len() > 0 {
            self.accumulated_command_output.push(StyledLine::empty());
        }
        crate::styled::extend_lines(&mut self.accumulated_command_output, cmd.to_lines());
        assert(lines_view(self.accumulated_command_output@) =~= with_command_lines(before, cmd@));
        match result {
            Ok(output) => {
                crate::styled::extend_lines(&mut self.accumulated_command_output, text_lines(output.as_str()));
                if self.queued_jj_commands.len() == 0 {
                    let final_output = crate::styled::duplicate_lines(&self.accumulated_command_output);
                    self.clear();
                    self.info_list = Some(final_output);
                    QueueStep::Finished { sync: cmd.is_sync() }
                } else {
                    self.update_info_list_for_queue();
                    QueueStep::More
                }
            },
            Err(JjCommandError::Failed { stderr }) => {
                crate::styled::extend_lines(&mut self.accumulated_command_output, text_lines(stderr.as_str()));
                let final_output = crate::styled::duplicate_lines(&self.accumulated_command_output);
                self.clear();
                self.info_list = Some(final_output);
                QueueStep::Finished { sync: false }
            },
            Err(JjCommandError::Other { err }) => QueueStep::Aborted { err },
        }
    }
}


/// The text of spans, one after another.
pub open spec fn spans_text(spans: Seq<SpanView>) -> Seq<char>
    decreases spans.len(),
{
    if spans.len() == 0 {
        Seq::empty()
    } else {
        spans_text(spans.drop_last()) + spans.last().content
    }
}

/// The text of a line: its spans' text, or the text `jj` printed.
pub open spec fn line_text(line: LineView) -> Seq<char> {
    match line {
        LineView::Spans(spans) => spans_text(spans),
        LineView::Ansi(text) => text,
    }
}

/// The text of lines, joined by newlines, as displaying them writes it.
pub open spec fn lines_text(lines: Seq<LineView>) -> Seq<char> {
    crate::text::join(lines.map_values(|l: LineView| line_text(l)), "\n"@)
}

/// How many times `c` occurs in `s`.
pub open spec fn char_count(s: Seq<char>, c: char) -> nat
    decreases s.len(),
{
    if s.len() == 0 {
        0
    } else {
        char_count(s.drop_last(), c) + if s.last() == c { 1nat } else { 0nat }
    }
}

/// The number of periods after "Refreshed" in the next refresh message:
/// three more than the last one had, where the info area shows one; else
/// none. The count saturates at the largest `usize`.
pub open spec fn refresh_periods(info: Option<Seq<LineView>>) -> nat {
    match info {
        Some(lines) => {
            let t = lines_text(lines);
            if strip_prefix(t, "Refreshed"@) is Some {
                if char_count(t, '.') + 3 <= usize::MAX {
                    char_count(t, '.') + 3
                } else {
                    usize::MAX as nat
                }
            } else {
                0
            }
        },
        None => 0,
    }
}

/// `n` periods.
pub open spec fn periods(n: nat) -> Seq<char> {
    Seq::new(n, |i: int| '.')
}

/// The text of `spans`.
fn spans_string(spans: &Vec<StyledSpan>) -> (s: String)
    ensures
        s@ == spans_text(spans_view(spans@)),
{
    let mut s = String::new();
    for i in 0..spans.len()
        invariant
            s@ == spans_text(spans_view(spans@.take(i as int))),
    {
        assert(spans_view(spans@.take(i + 1)).drop_last() =~= spans_view(spans@.take(i as int)));
        s.append(spans[i].content.as_str());
    }
    assert(spans@.take(spans.len() as int) =~= spans@);
    s
}

/// The text of `lines`, joined by newlines.
fn lines_string(lines: &Vec<StyledLine>) -> (s: String)
    ensures
        s@ == lines_text(lines_view(lines@)),
{
    let mut parts: Vec<String> = Vec::new();
    for i in 0..lines.len()
        invariant
            parts.deep_view() == lines_view(lines@.take(i as int)).map_values(|l: LineView| line_text(l)),
    {
        let part = match &lines[i] {
            StyledLine::Spans(spans) => spans_string(spans),
            StyledLine::Ansi(text) => text.clone(),
        };
        assert(part@ == line_text(lines@[i as int]@));
        let ghost before = parts.deep_view();
        parts.push(part);
        assert(parts.deep_view() =~= before.push(line_text(lines@[i as int]@)));
        assert(lines_view(lines@.take(i + 1)) =~= lines_view(lines@.take(i as int)).push(lines@[i as int]@));
        assert(parts.deep_view() =~= lines_view(lines@.take(i + 1)).map_values(|l: LineView| line_text(l)));
    }
    assert(lines@.take(lines.len() as int) =~= lines@);
    crate::text::join_strings(&parts, "\n")
}

/// How many times `c` occurs in `s`.
fn count_char(s: &str, c: char) -> (n: usize)
    ensures
        n == char_count(s@, c),
{
    let chars = crate::text::chars_of(s);
    let mut n: usize = 0;
    for i in 0..chars.len()
        invariant
            chars@ == s@,
            n == char_count(s@.take(i as int), c),
            n <= i,
    {
        assert(s@.take(i + 1).drop_last() =~= s@.take(i as int));
        if chars[i] == c {
            n = n + 1;
        }
    }
    assert(s@.take(chars.len() as int) =~= s@);
    n
}

impl Model {
    /// The first step of a refresh: counts the periods of the next refresh
    /// message and clears the state, as [`Model::clear`] does; the log is then
    /// reloaded and [`Model::finish_refresh`] called with the count.
    pub fn begin_refresh(&mut self) -> (n: usize)
        ensures
            n == refresh_periods(old(self).info()),
            final(self).same_selection_and_log(old(self)),
            final(self).state == State::Running,
            final(self).text_input is None,
            final(self).info_list is None,
            final(self).saved_change() is None,
            final(self).saved_file() is None,
            final(self).saved_position() is None,
            final(self).command_keys_view() == Seq::<Key>::empty(),
            final(self).queued() == Seq::<JjCommandView>::empty(),
            final(self).accumulated() == Seq::<LineView>::empty(),
    {
        let n = match &self.info_list {
            Some(lines) => {
                let text = lines_string(lines);
                if strip_prefix_of(text.as_str(), "Refreshed").is_some() {
                    count_char(text.as_str(), '.').saturating_add(3)
                } else {
                    0
                }
            },
            None => 0,
        };
        self.clear();
        n
    }

    /// The last step of a refresh: shows "Refreshed" with `count` periods.
    pub fn finish_refresh(&mut self, count: usize)
        ensures
            final(self).info() == single_line_info("Refreshed"@ + periods(count as nat)),
            final(self).same_but_info(old(self)),
    {
        let mut message = String::from_str("Refreshed");
        let ghost start = message@;
        for i in 0..count
            invariant
                message@ == start + periods(i as nat),
                start == "Refreshed"@,
        {
            message.append(".");
            proof {
                reveal_strlit(".");
            }
            assert(message@ =~= start + periods((i + 1) as nat));
        }
        self.info_list = Some(single_line(message.as_str()));
    }
}

/// How a selected file is opened in the editor.
#[derive(Debug)]
pub enum OpenFile {
    /// The file of the working copy, at `path` under the repository.
    WorkingCopy { path: String, file: String },
    /// A read-only copy of the file as change `change_id` (commit
    /// `commit_id`) has it: `show` prints its contents, which go in a
    /// temporary directory whose name starts with `temp_prefix`.
    ReadOnly { file: String, change_id: String, commit_id: String, temp_prefix: String, show: JjCommand },
}

impl Model {
    /// Decides how the selected file is opened: where it is in the working
    /// copy, the file itself; else a read-only copy of it at its change.
    /// Reports an invalid selection where no file of a commit is selected.
    pub fn plan_open_file(&mut self) -> (p: Option<OpenFile>)
        requires
            old(self).wf(),
        ensures
            final(self).wf(),
            match old(self).selected_file() {
                None => p is None && invalid_selection_reported(*old(self), *final(self)),
                Some(f) => if old(self).selected_is_working_copy() {
                    &&& *final(self) == *old(self)
                    &&& p matches Some(OpenFile::WorkingCopy { path, file }) && file@ == f && path@
                        == old(self).global_args@.repository + "/"@ + f
                } else {
                    match (old(self).selected_change(), old(self).selected_commit_id()) {
                        (Some(c), Some(id)) => {
                            &&& *final(self) == *old(self)
                            &&& p matches Some(OpenFile::ReadOnly { file, change_id, commit_id, temp_prefix, show })
                                && file@ == f && change_id@ == c && commit_id@ == id && temp_prefix@
                                == "majjit-"@ + c + "-"@ + id + "-"@ && show@
                                == crate::shell_out::jj_file_show_view(c, f, old(self).global_args@)
                        },
                        _ => p is None && invalid_selection_reported(*old(self), *final(self)),
                    }
                },
            },
    {
        let file = match self.get_selected_file_path() {
            None => {
                self.invalid_selection();
                return None;
            },
            Some(f) => String::from_str(f),
        };
        if self.is_selected_working_copy() {
            let mut path = self.global_args.repository.clone();
            path.append("/");
            path.append(file.as_str());
            return Some(OpenFile::WorkingCopy { path, file });
        }
        let (change_id, commit_id) = match (self.get_selected_change_id(), self.get_selected_commit_id()) {
            (Some(c), Some(id)) => (String::from_str(c), String::from_str(id)),
            _ => {
                self.invalid_selection();
                return None;
            },
        };
        let mut temp_prefix = String::from_str("majjit-");
        temp_prefix.append(change_id.as_str());
        temp_prefix.append("-");
        temp_prefix.append(commit_id.as_str());
        temp_prefix.append("-");
        let show = JjCommand::jj_file_show(change_id.as_str(), file.as_str(), self.global_args.clone());
        Some(OpenFile::ReadOnly { file, change_id, commit_id, temp_prefix, show })
    }

    /// Reports that the file of `plan` was opened in the editor.
    pub fn finish_open_file(&mut self, plan: &OpenFile)
        ensures
            final(self).same_but_info(old(self)),
            final(self).info() == single_line_info(match plan {
                OpenFile::WorkingCopy { file, .. } => "Opened "@ + file@,
                OpenFile::ReadOnly { file, change_id, .. } => "Opened "@ + file@ + " @ "@ + change_id@
                    + " (read-only copy)"@,
            }),
    {
        let mut message = String::from_str("Opened ");
        match plan {
            OpenFile::WorkingCopy { file, .. } => {
                message.append(file.as_str());
            },
            OpenFile::ReadOnly { file, change_id, .. } => {
                message.append(file.as_str());
                message.append(" @ ");
                message.append(change_id.as_str());
                message.append(" (read-only copy)");
            },
        }
        self.info_list = Some(single_line(message.as_str()));
    }
}


impl Model {
    /// Whether the state is well formed: the log list has a node, the
    /// selection is on it, and an open finder is well formed.
    pub fn is_wf(&self) -> (b: bool)
        ensures
            b == self.wf(),
    {
        if self.log_list.len() == 0 || self.log_list_selected >= self.log_list.len() {
            return false;
        }
        match &self.text_input {
            None => true,
            Some(s) => match &s.fuzzy {
                None => true,
                Some(f) => {
                    if f.filtered.len() == 0 {
                        return f.selected == 0;
                    }
                    if f.selected >= f.filtered.len() {
                        return false;
                    }
                    let mut i: usize = 0;
                    while i < f.filtered.len()
                        invariant
                            i <= f.filtered.len(),
                            self.text_input is Some,
                            self.text_input->0.fuzzy == Some(*f),
                            forall|k: int| 0 <= k < i ==> (#[trigger] f.filtered@[k]).candidate_index < f.candidates.len(),
                        decreases f.filtered.len() - i,
                    {
                        if f.filtered[i].candidate_index >= f.candidates.len() {
                            assert(!f.wf()) by {
                                assert(f.filtered@[i as int].candidate_index >= f.candidates.len());
                            }
                            return false;
                        }
                        i = i + 1;
                    }
                    true
                },
            },
        }
    }
}


impl Model {
    /// Whether the selected node belongs to a change.
    pub fn has_selected_change(&self) -> (b: bool)
        requires
            self.wf(),
        ensures
            b == self.selected_change() is Some,
    {
        self.get_selected_change_id().is_some()
    }
}


/// A command refused for want of a selected or saved change queues nothing,
/// changes nothing else, and says why.
pub proof fn lemma_refused_command_queues_nothing(old: Model, new: Model)
    requires
        invalid_selection_reported(old, new),
    ensures
        new.queued() == old.queued(),
        new.accumulated() == old.accumulated(),
        new.selected() == old.selected(),
        new.saved_change() == old.saved_change(),
        new.info() == Some(seq![raw_line("Invalid selection"@)]),
{
}

/// Queued commands wait in order, the first one shown as running.
pub proof fn lemma_queue_shows_first_command(old: Model, new: Model, cmds: Seq<JjCommandView>)
    requires
        commands_queued(old, new, cmds),
        cmds.len() > 0,
    ensures
        new.queued() == cmds,
        new.info() == Some(command_lines(cmds[0]) + seq![raw_line("Running..."@)]),
{
    assert(Seq::<LineView>::empty() + command_lines(cmds[0]) =~= command_lines(cmds[0]));
}

/// A page scroll keeps the selection and the window on the list.
pub proof fn lemma_page_scroll_in_list(counts: Seq<usize>, selected: int, offset: int, num_lines: int, down: bool)
    requires
        0 <= offset < counts.len(),
    ensures
        0 <= page_scroll(counts, selected, offset, num_lines, down).0 < counts.len(),
        0 <= page_scroll(counts, selected, offset, num_lines, down).1 < counts.len(),
{
    lemma_dest_node_in_list(counts, num_lines, offset, 0, down);
}


/// A workspace's name as the log shows it, without the `@` that follows it.
pub open spec fn workspace_name(shown: Seq<char>) -> Seq<char> {
    if shown.len() > 0 && shown.last() == '@' {
        shown.drop_last()
    } else {
        shown
    }
}

/// The workspaces of the selected node's commit, by name.
pub open spec fn selected_workspaces_view(m: Model) -> Seq<Seq<char>> {
    match m.selected_entry().commit {
        Some(c) => strings_view(c.workspaces@).map_values(|w: Seq<char>| workspace_name(w)),
        None => Seq::empty(),
    }
}

/// The name of a workspace shown as `shown`.
fn workspace_name_of(shown: &String) -> (n: String)
    ensures
        n@ == workspace_name(shown@),
{
    let chars = crate::text::chars_of(shown.as_str());
    if chars.len() > 0 && chars[chars.len() - 1] == '@' {
        String::from_str(shown.as_str().substring_char(0, chars.len() - 1))
    } else {
        shown.clone()
    }
}

impl Model {
    /// The workspaces of the selected node's commit, by name.
    pub fn get_selected_workspaces(&self) -> (r: Vec<String>)
        requires
            self.wf(),
        ensures
            r.deep_view() == selected_workspaces_view(*self),
    {
        let mut r: Vec<String> = Vec::new();
        let commit = match &self.log_list[self.log_list_selected].commit {
            None => return r,
            Some(c) => c,
        };
        for i in 0..commit.workspaces.len()
            invariant
                r.deep_view() == strings_view(commit.workspaces@.take(i as int)).map_values(
                    |w: Seq<char>| workspace_name(w),
                ),
        {
            let name = workspace_name_of(&commit.workspaces[i]);
            let ghost before = r.deep_view();
            r.push(name);
            assert(r.deep_view() =~= before.push(workspace_name(commit.workspaces@[i as int]@)));
            assert(commit.workspaces@.take(i + 1) =~= commit.workspaces@.take(i as int).push(commit.workspaces@[i as int]));
            assert(strings_view(commit.workspaces@.take(i + 1)) =~= strings_view(commit.workspaces@.take(i as int)).push(
                commit.workspaces@[i as int]@,
            ));
            assert(r.deep_view() =~= strings_view(commit.workspaces@.take(i + 1)).map_values(
                |w: Seq<char>| workspace_name(w),
            ));
        }
        assert(commit.workspaces@.take(commit.workspaces.len() as int) =~= commit.workspaces@);
        r
    }
}


/// A page scroll that moves the window keeps the distance between the
/// selection and the window's first node, as far as the list goes: the
/// selection lands that far below the window's new first node, or on the last
/// node where the list ends sooner. A page scroll that leaves the window
/// where it was keeps the selection, or moves it to the last node (down) or
/// the first (up). The selection stays on the list.
pub proof fn lemma_page_scroll_keeps_place(old: Model, new: Model)
    requires
        old.wf(),
        old.list_offset() <= old.selected(),
        old.scroll_down_page_done(new) || old.scroll_up_page_done(new),
    ensures
        new.list_offset() != old.list_offset() ==> new.selected() == (if new.list_offset() + (old.selected()
            - old.list_offset()) < old.entries().len() {
            new.list_offset() + (old.selected() - old.list_offset())
        } else {
            old.entries().len() - 1
        }),
        new.list_offset() == old.list_offset() && old.scroll_down_page_done(new) ==> new.selected()
            == old.selected() || new.selected() == old.entries().len() - 1,
        new.list_offset() == old.list_offset() && old.scroll_up_page_done(new) ==> new.selected()
            == old.selected() || new.selected() == 0,
        0 <= new.selected() < old.entries().len(),
{
    assert(old.line_counts().len() == old.entries().len());
}


/// The first working-copy node from `from` on is one, and none comes before
/// it; where there is none, no node from `from` on is one.
proof fn lemma_working_copy_node_from(entries: Seq<LogListEntry>, from: int)
    requires
        0 <= from,
    ensures
        working_copy_node_from(entries, from) matches Some(i) ==> {
            &&& from <= i < entries.len()
            &&& entries[i].commit_node && (entries[i].commit matches Some(c) && c.current_working_copy)
            &&& forall|k: int|
                from <= k < i ==> !(#[trigger] entries[k].commit_node && (entries[k].commit matches Some(c)
                    && c.current_working_copy))
        },
        working_copy_node_from(entries, from) is None ==> forall|k: int|
            from <= k < entries.len() ==> !(#[trigger] entries[k].commit_node && (entries[k].commit matches Some(c)
                && c.current_working_copy)),
    decreases entries.len() - from,
{
    if from < entries.len() {
        lemma_working_copy_node_from(entries, from + 1);
    }
}

/// Going to the working copy selects the first node of the working-copy
/// commit; where the list shows no such node, the selection stays.
pub proof fn lemma_working_copy_selection(old: Model, new: Model)
    requires
        old.select_current_working_copy_done(new),
    ensures
        (exists|k: int|
            0 <= k < old.entries().len() && #[trigger] old.entries()[k].commit_node && (old.entries()[k].commit matches Some(
                c,
            ) && c.current_working_copy)) ==> {
            &&& 0 <= new.selected() < old.entries().len()
            &&& old.entries()[new.selected() as int].commit_node
            &&& old.entries()[new.selected() as int].commit matches Some(c) && c.current_working_copy
            &&& forall|k: int|
                0 <= k < new.selected() ==> !(#[trigger] old.entries()[k].commit_node && (
                old.entries()[k].commit matches Some(c) && c.current_working_copy))
        },
        !(exists|k: int|
            0 <= k < old.entries().len() && #[trigger] old.entries()[k].commit_node && (old.entries()[k].commit matches Some(
                c,
            ) && c.current_working_copy)) ==> new.selected() == old.selected(),
{
    lemma_working_copy_node_from(old.entries(), 0);
}

} // verus!
