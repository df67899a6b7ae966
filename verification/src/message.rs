//! The messages that drive the interface, and the key and mouse events that
//! produce them outside text entry.
use crate::keys::{Key, MouseAction};
use vstd::prelude::*;

verus! {

/// What the interface is asked to do: by a key, a key sequence of the command tree, a mouse event or a submitted prompt.
#[derive(Debug, PartialEq, Eq, Structural, Clone, Copy)]
#[allow(inconsistent_fields)]
pub enum Message {
    Abandon {
        mode: AbandonMode,
    },
    Absorb {
        mode: AbsorbMode,
    },
    BookmarkCreate,
    BookmarkDelete,
    BookmarkForget {
        include_remotes: bool,
    },
    BookmarkListAll,
    BookmarkListLocal,
    BookmarkListTracked,
    BookmarkListUntracked,
    BookmarkListConflicted,
    BookmarkMove {
        mode: BookmarkMoveMode,
    },
    BookmarkRename,
    BookmarkSet {
        mode: BookmarkSetMode,
    },
    BookmarkTrack,
    BookmarkUntrack,
    Clear,
    Custom,
    Commit,
    Describe,
    DescribeInline,
    Duplicate {
        destination_type: DuplicateDestinationType,
        destination: DuplicateDestination,
    },
    Edit,
    EditTarget,
    Evolog {
        patch: bool,
    },
    FileTrack,
    FileUntrack,
    GitFetch {
        mode: GitFetchMode,
    },
    GitPush {
        mode: GitPushMode,
    },
    Interdiff {
        mode: InterdiffMode,
    },
    LeftMouseClick {
        row: u16,
        column: u16,
    },
    Metaedit {
        action: MetaeditAction,
    },
    New {
        mode: NewMode,
    },
    NewAfterTrunkSync,
    NewAtTarget,
    NewRevsets,
    NextPrev {
        direction: NextPrevDirection,
        mode: NextPrevMode,
        offset: bool,
    },
    Open,
    Parallelize {
        source: ParallelizeSource,
    },
    Quit,
    Rebase {
        source_type: RebaseSourceType,
        destination_type: RebaseDestinationType,
        destination: RebaseDestination,
    },
    RebaseSelectedBranchOntoTrunk,
    RebaseSelectedBranchOntoTrunkSync,
    RebaseCustom,
    RebaseTargetFuzzy {
        source_type: RebaseSourceType,
        destination_type: RebaseDestinationType,
    },
    Redo,
    Refresh,
    Resolve,
    Restore {
        mode: RestoreMode,
    },
    Revert {
        revision: RevertRevision,
        destination_type: RevertDestinationType,
        destination: RevertDestination,
    },
    RightMouseClick {
        row: u16,
        column: u16,
    },
    SaveSelection,
    ScrollDown,
    ScrollDownPage,
    ScrollUp,
    ScrollUpPage,
    SelectByBookmark,
    SelectByDescription,
    SelectCurrentWorkingCopy,
    SelectInRevset,
    SelectNextNode,
    SelectNextSiblingNode,
    SelectParentNode,
    SelectPrevNode,
    SelectPrevSiblingNode,
    SetRevset {
        mode: SetRevsetMode,
    },
    ShowHelp,
    Sign {
        action: SignAction,
        range: bool,
    },
    SimplifyParents {
        mode: SimplifyParentsMode,
    },
    Squash {
        mode: SquashMode,
    },
    Status,
    SubmitTextInput,
    ToggleIgnoreImmutable,
    ToggleLogListFold,
    Undo,
    View {
        mode: ViewMode,
    },
    WorkspaceAddPathOnly,
    WorkspaceAddNamed,
    WorkspaceForgetAtSelection,
    WorkspaceForgetCurrent,
    WorkspaceForgetFuzzy,
    WorkspaceList,
    WorkspaceRename,
    WorkspaceUpdateStale,
}

/// How `jj abandon` treats bookmarks and descendants.
#[derive(Debug, PartialEq, Eq, Structural, Clone, Copy)]
pub enum AbandonMode {
    Default,
    RetainBookmarks,
    RestoreDescendants,
}

/// Where `jj absorb` moves changes to.
#[derive(Debug, PartialEq, Eq, Structural, Clone, Copy)]
pub enum AbsorbMode {
    Default,
    Into,
}

/// Which bookmarks `jj bookmark move` moves, and whether backwards.
#[derive(Debug, PartialEq, Eq, Structural, Clone, Copy)]
pub enum BookmarkMoveMode {
    AllowBackwards,
    Default,
    Tug,
}

/// Whether `jj bookmark set` may move a bookmark backwards.
#[derive(Debug, PartialEq, Eq, Structural, Clone, Copy)]
pub enum BookmarkSetMode {
    AllowBackwards,
    Default,
}

/// Where a duplicate goes: where jj puts it, or relative to the selection.
#[derive(Debug, PartialEq, Eq, Structural, Clone, Copy)]
pub enum DuplicateDestination {
    Default,
    Selection,
}

/// How a duplicate is placed relative to its destination.
#[derive(Debug, PartialEq, Eq, Structural, Clone, Copy)]
pub enum DuplicateDestinationType {
    Default,
    InsertAfter,
    InsertBefore,
    Onto,
}

/// What `jj git fetch` fetches.
#[derive(Debug, PartialEq, Eq, Structural, Clone, Copy)]
pub enum GitFetchMode {
    AllRemotes,
    Branch,
    Default,
    Remote,
    AllTracked,
}

/// What `jj git push` pushes.
#[derive(Debug, PartialEq, Eq, Structural, Clone, Copy)]
pub enum GitPushMode {
    All,
    Bookmark,
    Change,
    Default,
    Deleted,
    Named,
    Revision,
    AllTracked,
}

/// Which two revisions `jj interdiff` compares.
#[derive(Debug, PartialEq, Eq, Structural, Clone, Copy)]
pub enum InterdiffMode {
    FromSelection,
    FromSelectionToDestination,
    ToSelection,
}

/// Which metadata `jj metaedit` changes.
#[derive(Debug, PartialEq, Eq, Structural, Clone, Copy)]
pub enum MetaeditAction {
    ForceRewrite,
    SetAuthor,
    SetAuthorTimestamp,
    UpdateAuthor,
    UpdateAuthorTimestamp,
    UpdateChangeId,
}

/// Where `jj new` creates the change.
#[derive(Debug, PartialEq, Eq, Structural, Clone, Copy)]
pub enum NewMode {
    AfterTrunk,
    Before,
    Default,
    InsertAfter,
}

/// The direction of `jj next` or `jj prev`.
#[derive(Debug, PartialEq, Eq, Structural, Clone, Copy)]
pub enum NextPrevDirection {
    Next,
    Prev,
}

/// The mode flag of `jj next` or `jj prev`.
#[derive(Debug, PartialEq, Eq, Structural, Clone, Copy)]
pub enum NextPrevMode {
    Conflict,
    Default,
    Edit,
    NoEdit,
}

/// Which revisions `jj parallelize` acts on.
#[derive(Debug, PartialEq, Eq, Structural, Clone, Copy)]
pub enum ParallelizeSource {
    Range,
    Revset,
    Selection,
}

/// The revision a rebase goes relative to.
#[derive(Debug, PartialEq, Eq, Structural, Clone, Copy)]
pub enum RebaseDestination {
    Current,
    Selection,
    Trunk,
}

/// How a rebase places the revisions relative to the destination.
#[derive(Debug, PartialEq, Eq, Structural, Clone, Copy)]
pub enum RebaseDestinationType {
    InsertAfter,
    InsertBefore,
    Onto,
}

/// Which revisions a rebase moves.
#[derive(Debug, PartialEq, Eq, Structural, Clone, Copy)]
pub enum RebaseSourceType {
    Branch,
    Revisions,
    Source,
}

/// Which changes `jj restore` restores, and where.
#[derive(Debug, PartialEq, Eq, Structural, Clone, Copy)]
pub enum RestoreMode {
    ChangesIn,
    ChangesInRestoreDescendants,
    From,
    FromInto,
    Into,
}

/// The revision a revert goes relative to.
#[derive(Debug, PartialEq, Eq, Structural, Clone, Copy)]
pub enum RevertDestination {
    Current,
    Selection,
}

/// How a revert is placed relative to its destination.
#[derive(Debug, PartialEq, Eq, Structural, Clone, Copy)]
pub enum RevertDestinationType {
    InsertAfter,
    InsertBefore,
    Onto,
}

/// Which revision is reverted.
#[derive(Debug, PartialEq, Eq, Structural, Clone, Copy)]
pub enum RevertRevision {
    Saved,
    Selection,
}

/// Which revset the log shows.
#[derive(Debug, PartialEq, Eq, Structural, Clone, Copy)]
pub enum SetRevsetMode {
    All,
    Bookmarks,
    Conflicts,
    Custom,
    Default,
    JjDefault,
    Mine,
    Mutable,
    Recent,
    Stack,
    WorkingCopyAncestry,
}

/// Whether to sign or unsign.
#[derive(Debug, PartialEq, Eq, Structural, Clone, Copy)]
pub enum SignAction {
    Sign,
    Unsign,
}

/// Which revisions `jj simplify-parents` acts on.
#[derive(Debug, PartialEq, Eq, Structural, Clone, Copy)]
pub enum SimplifyParentsMode {
    Revisions,
    Source,
}

/// Where a squash goes.
#[derive(Debug, PartialEq, Eq, Structural, Clone, Copy)]
pub enum SquashMode {
    Default,
    Into,
}

/// What a diff view compares.
#[derive(Debug, PartialEq, Eq, Structural, Clone, Copy)]
pub enum ViewMode {
    Default,
    FromSelection,
    FromSelectionToDestination,
    FromTrunkToSelection,
    ToSelection,
}

/// The message of a mouse event at `row` and `column`: scrolling, or a click
/// of the left or right button there.
pub fn handle_mouse(action: MouseAction, row: u16, column: u16) -> (m: Option<Message>)
    ensures
        m == (match action {
            MouseAction::ScrollDown => Some(Message::ScrollDown),
            MouseAction::ScrollUp => Some(Message::ScrollUp),
            MouseAction::LeftDown => Some(Message::LeftMouseClick { row, column }),
            MouseAction::RightDown => Some(Message::RightMouseClick { row, column }),
            MouseAction::Other => None,
        }),
{
    match action {
        MouseAction::ScrollDown => Some(Message::ScrollDown),
        MouseAction::ScrollUp => Some(Message::ScrollUp),
        MouseAction::LeftDown => Some(Message::LeftMouseClick { row, column }),
        MouseAction::RightDown => Some(Message::RightMouseClick { row, column }),
        MouseAction::Other => None,
    }
}

/// The message of a key pressed outside text entry that is bound outside the
/// command tree; keys that are not are looked up in the command tree.
pub open spec fn navigation_message(key: Key, ctrl: bool) -> Option<Message> {
    match key {
        Key::Char('q') => Some(Message::Quit),
        Key::Char('c') if ctrl => Some(Message::Quit),
        Key::Down | Key::Char('j') => Some(Message::SelectNextNode),
        Key::Up | Key::Char('k') => Some(Message::SelectPrevNode),
        Key::PageDown => Some(Message::ScrollDownPage),
        Key::PageUp => Some(Message::ScrollUpPage),
        Key::Left | Key::Char('h') => Some(Message::SelectPrevSiblingNode),
        Key::Right | Key::Char('l') => Some(Message::SelectNextSiblingNode),
        Key::Char('K') => Some(Message::SelectParentNode),
        Key::Char(' ') | Key::Backspace => Some(Message::Refresh),
        Key::Tab => Some(Message::ToggleLogListFold),
        Key::Esc => Some(Message::Clear),
        Key::Char('@') => Some(Message::SelectCurrentWorkingCopy),
        Key::Char('I') => Some(Message::ToggleIgnoreImmutable),
        Key::Char('?') => Some(Message::ShowHelp),
        _ => None,
    }
}

/// The message of `key`, pressed with Control where `ctrl` holds, among the
/// bindings for navigation and general actions.
pub fn navigation_key_message(key: Key, ctrl: bool) -> (m: Option<Message>)
    ensures
        m == navigation_message(key, ctrl),
{
    match key {
        Key::Char('q') => Some(Message::Quit),
        Key::Char('c') if ctrl => Some(Message::Quit),
        Key::Down | Key::Char('j') => Some(Message::SelectNextNode),
        Key::Up | Key::Char('k') => Some(Message::SelectPrevNode),
        Key::PageDown => Some(Message::ScrollDownPage),
        Key::PageUp => Some(Message::ScrollUpPage),
        Key::Left | Key::Char('h') => Some(Message::SelectPrevSiblingNode),
        Key::Right | Key::Char('l') => Some(Message::SelectNextSiblingNode),
        Key::Char('K') => Some(Message::SelectParentNode),
        Key::Char(' ') | Key::Backspace => Some(Message::Refresh),
        Key::Tab => Some(Message::ToggleLogListFold),
        Key::Esc => Some(Message::Clear),
        Key::Char('@') => Some(Message::SelectCurrentWorkingCopy),
        Key::Char('I') => Some(Message::ToggleIgnoreImmutable),
        Key::Char('?') => Some(Message::ShowHelp),
        _ => None,
    }
}

} // verus!
