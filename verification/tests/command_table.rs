use majjit::command_tree::CommandTree;
use majjit::keys::Key;
use majjit::message::{
    AbandonMode,
    AbsorbMode,
    BookmarkMoveMode,
    BookmarkSetMode,
    DuplicateDestination,
    DuplicateDestinationType,
    GitFetchMode,
    GitPushMode,
    InterdiffMode,
    Message,
    MetaeditAction,
    NewMode,
    NextPrevDirection,
    NextPrevMode,
    ParallelizeSource,
    RebaseDestination,
    RebaseDestinationType,
    RebaseSourceType,
    RestoreMode,
    RevertDestination,
    RevertDestinationType,
    RevertRevision,
    SetRevsetMode,
    SignAction,
    SimplifyParentsMode,
    SquashMode,
    ViewMode,
};

/// Every key sequence of the command table, with the action of its node
/// (none for a group).
fn table() -> Vec<(Vec<Key>, Option<Message>)> {
    vec![
        (vec![Key::Char('a')], None),
        (vec![Key::Char('a'), Key::Char('a')], Some(Message::Abandon { mode: AbandonMode::Default })),
        (vec![Key::Char('a'), Key::Char('b')], Some(Message::Abandon { mode: AbandonMode::RetainBookmarks })),
        (vec![Key::Char('a'), Key::Char('d')], Some(Message::Abandon { mode: AbandonMode::RestoreDescendants })),
        (vec![Key::Char('A')], None),
        (vec![Key::Char('A'), Key::Char('a')], Some(Message::Absorb { mode: AbsorbMode::Default })),
        (vec![Key::Char('A'), Key::Char('i')], Some(Message::SaveSelection)),
        (vec![Key::Char('A'), Key::Char('i'), Key::Enter], Some(Message::Absorb { mode: AbsorbMode::Into })),
        (vec![Key::Char('b')], None),
        (vec![Key::Char('C')], Some(Message::Custom)),
        (vec![Key::Char('b'), Key::Char('c')], Some(Message::BookmarkCreate)),
        (vec![Key::Char('b'), Key::Char('L')], None),
        (vec![Key::Char('b'), Key::Char('L'), Key::Char('a')], Some(Message::BookmarkListAll)),
        (vec![Key::Char('b'), Key::Char('L'), Key::Char('L')], Some(Message::BookmarkListLocal)),
        (vec![Key::Char('b'), Key::Char('L'), Key::Char('t')], Some(Message::BookmarkListTracked)),
        (vec![Key::Char('b'), Key::Char('L'), Key::Char('u')], Some(Message::BookmarkListUntracked)),
        (vec![Key::Char('b'), Key::Char('L'), Key::Char('c')], Some(Message::BookmarkListConflicted)),
        (vec![Key::Char('b'), Key::Char('m')], None),
        (vec![Key::Char('b'), Key::Char('m'), Key::Char('m')], Some(Message::SaveSelection)),
        (vec![Key::Char('b'), Key::Char('m'), Key::Char('m'), Key::Enter,], Some(Message::BookmarkMove { mode: BookmarkMoveMode::Default })),
        (vec![Key::Char('b'), Key::Char('m'), Key::Char('M')], Some(Message::SaveSelection)),
        (vec![Key::Char('b'), Key::Char('m'), Key::Char('M'), Key::Enter,], Some(Message::BookmarkMove { mode: BookmarkMoveMode::AllowBackwards })),
        (vec![Key::Char('b'), Key::Char('m'), Key::Char('t')], Some(Message::BookmarkMove { mode: BookmarkMoveMode::Tug })),
        (vec![Key::Char('b'), Key::Char('r')], Some(Message::BookmarkRename)),
        (vec![Key::Char('b'), Key::Char('t')], Some(Message::BookmarkTrack)),
        (vec![Key::Char('b'), Key::Char('u')], Some(Message::BookmarkUntrack)),
        (vec![Key::Char('b'), Key::Char('d')], Some(Message::BookmarkDelete)),
        (vec![Key::Char('b'), Key::Char('f')], Some(Message::BookmarkForget { include_remotes: false })),
        (vec![Key::Char('b'), Key::Char('F')], Some(Message::BookmarkForget { include_remotes: true })),
        (vec![Key::Char('b'), Key::Char('s')], Some(Message::BookmarkSet { mode: BookmarkSetMode::Default })),
        (vec![Key::Char('b'), Key::Char('S')], Some(Message::BookmarkSet { mode: BookmarkSetMode::AllowBackwards })),
        (vec![Key::Char('c')], None),
        (vec![Key::Char('c'), Key::Char('c')], Some(Message::Commit)),
        (vec![Key::Char('d')], None),
        (vec![Key::Char('d'), Key::Char('d')], Some(Message::DescribeInline)),
        (vec![Key::Char('d'), Key::Char('D')], Some(Message::Describe)),
        (vec![Key::Char('D')], None),
        (vec![Key::Char('D'), Key::Char('d')], Some(Message::Duplicate { destination_type: DuplicateDestinationType::Default, destination: DuplicateDestination::Default })),
        (vec![Key::Char('/')], None),
        (vec![Key::Char('/'), Key::Char('/')], Some(Message::SelectInRevset)),
        (vec![Key::Char('/'), Key::Char('b')], Some(Message::SelectByBookmark)),
        (vec![Key::Char('/'), Key::Char('d')], Some(Message::SelectByDescription)),
        (vec![Key::Char('D'), Key::Char('o')], Some(Message::SaveSelection)),
        (vec![Key::Char('D'), Key::Char('o'), Key::Enter], Some(Message::Duplicate { destination_type: DuplicateDestinationType::Onto, destination: DuplicateDestination::Selection })),
        (vec![Key::Char('D'), Key::Char('a')], Some(Message::SaveSelection)),
        (vec![Key::Char('D'), Key::Char('a'), Key::Enter], Some(Message::Duplicate { destination_type: DuplicateDestinationType::InsertAfter, destination: DuplicateDestination::Selection })),
        (vec![Key::Char('D'), Key::Char('b')], Some(Message::SaveSelection)),
        (vec![Key::Char('D'), Key::Char('b'), Key::Enter], Some(Message::Duplicate { destination_type: DuplicateDestinationType::InsertBefore, destination: DuplicateDestination::Selection })),
        (vec![Key::Char('e')], None),
        (vec![Key::Char('e'), Key::Char('e')], Some(Message::Edit)),
        (vec![Key::Char('e'), Key::Char('/')], Some(Message::EditTarget)),
        (vec![Key::Char('E')], None),
        (vec![Key::Char('E'), Key::Char('e')], Some(Message::Evolog { patch: false })),
        (vec![Key::Char('E'), Key::Char('E')], Some(Message::Evolog { patch: true })),
        (vec![Key::Char('f')], None),
        (vec![Key::Char('f'), Key::Char('t')], Some(Message::FileTrack)),
        (vec![Key::Char('f'), Key::Char('u')], Some(Message::FileUntrack)),
        (vec![Key::Char('g')], None),
        (vec![Key::Char('g'), Key::Char('f')], None),
        (vec![Key::Char('g'), Key::Char('f'), Key::Char('f')], Some(Message::GitFetch { mode: GitFetchMode::Default })),
        (vec![Key::Char('g'), Key::Char('f'), Key::Char('a')], Some(Message::GitFetch { mode: GitFetchMode::AllRemotes })),
        (vec![Key::Char('g'), Key::Char('f'), Key::Char('t')], Some(Message::GitFetch { mode: GitFetchMode::AllTracked })),
        (vec![Key::Char('g'), Key::Char('f'), Key::Char('b')], Some(Message::GitFetch { mode: GitFetchMode::Branch })),
        (vec![Key::Char('g'), Key::Char('f'), Key::Char('r')], Some(Message::GitFetch { mode: GitFetchMode::Remote })),
        (vec![Key::Char('g'), Key::Char('p')], None),
        (vec![Key::Char('g'), Key::Char('p'), Key::Char('p')], Some(Message::GitPush { mode: GitPushMode::Default })),
        (vec![Key::Char('g'), Key::Char('p'), Key::Char('a')], Some(Message::GitPush { mode: GitPushMode::All })),
        (vec![Key::Char('g'), Key::Char('p'), Key::Char('r')], Some(Message::GitPush { mode: GitPushMode::Revision })),
        (vec![Key::Char('g'), Key::Char('p'), Key::Char('t')], Some(Message::GitPush { mode: GitPushMode::AllTracked })),
        (vec![Key::Char('g'), Key::Char('p'), Key::Char('d')], Some(Message::GitPush { mode: GitPushMode::Deleted })),
        (vec![Key::Char('g'), Key::Char('p'), Key::Char('c')], Some(Message::GitPush { mode: GitPushMode::Change })),
        (vec![Key::Char('g'), Key::Char('p'), Key::Char('n')], Some(Message::GitPush { mode: GitPushMode::Named })),
        (vec![Key::Char('g'), Key::Char('p'), Key::Char('b')], Some(Message::GitPush { mode: GitPushMode::Bookmark })),
        (vec![Key::Char('i')], None),
        (vec![Key::Char('i'), Key::Char('t')], Some(Message::Interdiff { mode: InterdiffMode::ToSelection })),
        (vec![Key::Char('i'), Key::Char('f')], Some(Message::Interdiff { mode: InterdiffMode::FromSelection })),
        (vec![Key::Char('i'), Key::Char('i')], Some(Message::SaveSelection)),
        (vec![Key::Char('i'), Key::Char('i'), Key::Enter], Some(Message::Interdiff { mode: InterdiffMode::FromSelectionToDestination })),
        (vec![Key::Char('m')], None),
        (vec![Key::Char('m'), Key::Char('c')], Some(Message::Metaedit { action: MetaeditAction::UpdateChangeId })),
        (vec![Key::Char('m'), Key::Char('t')], Some(Message::Metaedit { action: MetaeditAction::UpdateAuthorTimestamp })),
        (vec![Key::Char('m'), Key::Char('a')], Some(Message::Metaedit { action: MetaeditAction::UpdateAuthor })),
        (vec![Key::Char('m'), Key::Char('A')], Some(Message::Metaedit { action: MetaeditAction::SetAuthor })),
        (vec![Key::Char('m'), Key::Char('T')], Some(Message::Metaedit { action: MetaeditAction::SetAuthorTimestamp })),
        (vec![Key::Char('m'), Key::Char('r')], Some(Message::Metaedit { action: MetaeditAction::ForceRewrite })),
        (vec![Key::Char('L')], None),
        (vec![Key::Char('L'), Key::Char('d')], Some(Message::SetRevset { mode: SetRevsetMode::Default })),
        (vec![Key::Char('L'), Key::Char('D')], Some(Message::SetRevset { mode: SetRevsetMode::JjDefault })),
        (vec![Key::Char('L'), Key::Char('L')], Some(Message::SetRevset { mode: SetRevsetMode::Custom })),
        (vec![Key::Char('L'), Key::Char('a')], Some(Message::SetRevset { mode: SetRevsetMode::All })),
        (vec![Key::Char('L'), Key::Char('m')], Some(Message::SetRevset { mode: SetRevsetMode::Mutable })),
        (vec![Key::Char('L'), Key::Char('s')], Some(Message::SetRevset { mode: SetRevsetMode::Stack })),
        (vec![Key::Char('L'), Key::Char('c')], Some(Message::SetRevset { mode: SetRevsetMode::Conflicts })),
        (vec![Key::Char('L'), Key::Char('w')], Some(Message::SetRevset { mode: SetRevsetMode::WorkingCopyAncestry })),
        (vec![Key::Char('L'), Key::Char('i')], Some(Message::SetRevset { mode: SetRevsetMode::Mine })),
        (vec![Key::Char('L'), Key::Char('b')], Some(Message::SetRevset { mode: SetRevsetMode::Bookmarks })),
        (vec![Key::Char('L'), Key::Char('r')], Some(Message::SetRevset { mode: SetRevsetMode::Recent })),
        (vec![Key::Char('n')], None),
        (vec![Key::Char('n'), Key::Char('n')], Some(Message::New { mode: NewMode::Default })),
        (vec![Key::Char('n'), Key::Char('a')], Some(Message::New { mode: NewMode::InsertAfter })),
        (vec![Key::Char('n'), Key::Char('b')], Some(Message::New { mode: NewMode::Before })),
        (vec![Key::Char('n'), Key::Char('m')], Some(Message::New { mode: NewMode::AfterTrunk })),
        (vec![Key::Char('n'), Key::Char('M')], Some(Message::NewAfterTrunkSync)),
        (vec![Key::Char('n'), Key::Char('/')], Some(Message::NewAtTarget)),
        (vec![Key::Char('n'), Key::Char('r')], Some(Message::NewRevsets)),
        (vec![Key::Char('N')], None),
        (vec![Key::Char('o')], Some(Message::Open)),
        (vec![Key::Char('O')], Some(Message::Resolve)),
        (vec![Key::Char('p')], None),
        (vec![Key::Char('p'), Key::Char('p')], Some(Message::Parallelize { source: ParallelizeSource::Selection })),
        (vec![Key::Char('p'), Key::Char('P')], Some(Message::SaveSelection)),
        (vec![Key::Char('p'), Key::Char('P'), Key::Enter], Some(Message::Parallelize { source: ParallelizeSource::Range })),
        (vec![Key::Char('p'), Key::Char('r')], Some(Message::Parallelize { source: ParallelizeSource::Revset })),
        (vec![Key::Char('N'), Key::Char('n')], Some(Message::NextPrev { direction: NextPrevDirection::Next, mode: NextPrevMode::Default, offset: false })),
        (vec![Key::Char('N'), Key::Char('N')], Some(Message::NextPrev { direction: NextPrevDirection::Next, mode: NextPrevMode::Default, offset: true })),
        (vec![Key::Char('N'), Key::Char('e')], Some(Message::NextPrev { direction: NextPrevDirection::Next, mode: NextPrevMode::Edit, offset: false })),
        (vec![Key::Char('N'), Key::Char('E')], Some(Message::NextPrev { direction: NextPrevDirection::Next, mode: NextPrevMode::Edit, offset: true })),
        (vec![Key::Char('N'), Key::Char('x')], Some(Message::NextPrev { direction: NextPrevDirection::Next, mode: NextPrevMode::NoEdit, offset: false })),
        (vec![Key::Char('N'), Key::Char('X')], Some(Message::NextPrev { direction: NextPrevDirection::Next, mode: NextPrevMode::NoEdit, offset: true })),
        (vec![Key::Char('N'), Key::Char('c')], Some(Message::NextPrev { direction: NextPrevDirection::Next, mode: NextPrevMode::Conflict, offset: false })),
        (vec![Key::Char('P')], None),
        (vec![Key::Char('P'), Key::Char('p')], Some(Message::NextPrev { direction: NextPrevDirection::Prev, mode: NextPrevMode::Default, offset: false })),
        (vec![Key::Char('P'), Key::Char('P')], Some(Message::NextPrev { direction: NextPrevDirection::Prev, mode: NextPrevMode::Default, offset: true })),
        (vec![Key::Char('P'), Key::Char('e')], Some(Message::NextPrev { direction: NextPrevDirection::Prev, mode: NextPrevMode::Edit, offset: false })),
        (vec![Key::Char('P'), Key::Char('E')], Some(Message::NextPrev { direction: NextPrevDirection::Prev, mode: NextPrevMode::Edit, offset: true })),
        (vec![Key::Char('P'), Key::Char('x')], Some(Message::NextPrev { direction: NextPrevDirection::Prev, mode: NextPrevMode::NoEdit, offset: false })),
        (vec![Key::Char('P'), Key::Char('X')], Some(Message::NextPrev { direction: NextPrevDirection::Prev, mode: NextPrevMode::NoEdit, offset: true })),
        (vec![Key::Char('P'), Key::Char('c')], Some(Message::NextPrev { direction: NextPrevDirection::Prev, mode: NextPrevMode::Conflict, offset: false })),
        (vec![Key::Char('s')], None),
        (vec![Key::Char('s'), Key::Char('s')], Some(Message::Squash { mode: SquashMode::Default })),
        (vec![Key::Char('s'), Key::Char('i')], Some(Message::SaveSelection)),
        (vec![Key::Char('s'), Key::Char('i'), Key::Enter], Some(Message::Squash { mode: SquashMode::Into })),
        (vec![Key::Char('t')], Some(Message::Status)),
        (vec![Key::Char('S')], None),
        (vec![Key::Char('S'), Key::Char('s')], Some(Message::Sign { action: SignAction::Sign, range: false })),
        (vec![Key::Char('S'), Key::Char('S')], Some(Message::SaveSelection)),
        (vec![Key::Char('S'), Key::Char('S'), Key::Enter], Some(Message::Sign { action: SignAction::Sign, range: true })),
        (vec![Key::Char('S'), Key::Char('u')], Some(Message::Sign { action: SignAction::Unsign, range: false })),
        (vec![Key::Char('S'), Key::Char('U')], Some(Message::SaveSelection)),
        (vec![Key::Char('S'), Key::Char('U'), Key::Enter], Some(Message::Sign { action: SignAction::Unsign, range: true })),
        (vec![Key::Char('y')], None),
        (vec![Key::Char('y'), Key::Char('y')], Some(Message::SimplifyParents { mode: SimplifyParentsMode::Revisions })),
        (vec![Key::Char('y'), Key::Char('Y')], Some(Message::SimplifyParents { mode: SimplifyParentsMode::Source })),
        (vec![Key::Char('r')], None),
        (vec![Key::Char('r'), Key::Char('b')], Some(Message::SaveSelection)),
        (vec![Key::Char('r'), Key::Char('m')], Some(Message::RebaseSelectedBranchOntoTrunk)),
        (vec![Key::Char('r'), Key::Char('M')], Some(Message::RebaseSelectedBranchOntoTrunkSync)),
        (vec![Key::Char('r'), Key::Char('s')], Some(Message::SaveSelection)),
        (vec![Key::Char('r'), Key::Char('r')], Some(Message::SaveSelection)),
        (vec![Key::Char('r'), Key::Char('c')], Some(Message::RebaseCustom)),
        (vec![Key::Char('r'), Key::Char('b'), Key::Char('a')], None),
        (vec![Key::Char('r'), Key::Char('b'), Key::Char('b')], None),
        (vec![Key::Char('r'), Key::Char('b'), Key::Char('o')], None),
        (vec![Key::Char('r'), Key::Char('b'), Key::Char('a'), Key::Enter,], Some(Message::Rebase { source_type: RebaseSourceType::Branch, destination_type: RebaseDestinationType::InsertAfter, destination: RebaseDestination::Selection })),
        (vec![Key::Char('r'), Key::Char('b'), Key::Char('a'), Key::Char('m'),], Some(Message::Rebase { source_type: RebaseSourceType::Branch, destination_type: RebaseDestinationType::InsertAfter, destination: RebaseDestination::Trunk })),
        (vec![Key::Char('r'), Key::Char('b'), Key::Char('a'), Key::Char('c'),], Some(Message::Rebase { source_type: RebaseSourceType::Branch, destination_type: RebaseDestinationType::InsertAfter, destination: RebaseDestination::Current })),
        (vec![Key::Char('r'), Key::Char('b'), Key::Char('a'), Key::Char('/'),], Some(Message::RebaseTargetFuzzy { source_type: RebaseSourceType::Branch, destination_type: RebaseDestinationType::InsertAfter })),
        (vec![Key::Char('r'), Key::Char('b'), Key::Char('b'), Key::Enter,], Some(Message::Rebase { source_type: RebaseSourceType::Branch, destination_type: RebaseDestinationType::InsertBefore, destination: RebaseDestination::Selection })),
        (vec![Key::Char('r'), Key::Char('b'), Key::Char('b'), Key::Char('m'),], Some(Message::Rebase { source_type: RebaseSourceType::Branch, destination_type: RebaseDestinationType::InsertBefore, destination: RebaseDestination::Trunk })),
        (vec![Key::Char('r'), Key::Char('b'), Key::Char('b'), Key::Char('c'),], Some(Message::Rebase { source_type: RebaseSourceType::Branch, destination_type: RebaseDestinationType::InsertBefore, destination: RebaseDestination::Current })),
        (vec![Key::Char('r'), Key::Char('b'), Key::Char('b'), Key::Char('/'),], Some(Message::RebaseTargetFuzzy { source_type: RebaseSourceType::Branch, destination_type: RebaseDestinationType::InsertBefore })),
        (vec![Key::Char('r'), Key::Char('b'), Key::Char('o'), Key::Enter,], Some(Message::Rebase { source_type: RebaseSourceType::Branch, destination_type: RebaseDestinationType::Onto, destination: RebaseDestination::Selection })),
        (vec![Key::Char('r'), Key::Char('b'), Key::Char('o'), Key::Char('m'),], Some(Message::Rebase { source_type: RebaseSourceType::Branch, destination_type: RebaseDestinationType::Onto, destination: RebaseDestination::Trunk })),
        (vec![Key::Char('r'), Key::Char('b'), Key::Char('o'), Key::Char('c'),], Some(Message::Rebase { source_type: RebaseSourceType::Branch, destination_type: RebaseDestinationType::Onto, destination: RebaseDestination::Current })),
        (vec![Key::Char('r'), Key::Char('b'), Key::Char('o'), Key::Char('/'),], Some(Message::RebaseTargetFuzzy { source_type: RebaseSourceType::Branch, destination_type: RebaseDestinationType::Onto })),
        (vec![Key::Char('r'), Key::Char('s'), Key::Char('a')], None),
        (vec![Key::Char('r'), Key::Char('s'), Key::Char('b')], None),
        (vec![Key::Char('r'), Key::Char('s'), Key::Char('o')], None),
        (vec![Key::Char('r'), Key::Char('s'), Key::Char('a'), Key::Enter,], Some(Message::Rebase { source_type: RebaseSourceType::Source, destination_type: RebaseDestinationType::InsertAfter, destination: RebaseDestination::Selection })),
        (vec![Key::Char('r'), Key::Char('s'), Key::Char('a'), Key::Char('m'),], Some(Message::Rebase { source_type: RebaseSourceType::Source, destination_type: RebaseDestinationType::InsertAfter, destination: RebaseDestination::Trunk })),
        (vec![Key::Char('r'), Key::Char('s'), Key::Char('a'), Key::Char('c'),], Some(Message::Rebase { source_type: RebaseSourceType::Source, destination_type: RebaseDestinationType::InsertAfter, destination: RebaseDestination::Current })),
        (vec![Key::Char('r'), Key::Char('s'), Key::Char('a'), Key::Char('/'),], Some(Message::RebaseTargetFuzzy { source_type: RebaseSourceType::Source, destination_type: RebaseDestinationType::InsertAfter })),
        (vec![Key::Char('r'), Key::Char('s'), Key::Char('b'), Key::Enter,], Some(Message::Rebase { source_type: RebaseSourceType::Source, destination_type: RebaseDestinationType::InsertBefore, destination: RebaseDestination::Selection })),
        (vec![Key::Char('r'), Key::Char('s'), Key::Char('b'), Key::Char('m'),], Some(Message::Rebase { source_type: RebaseSourceType::Source, destination_type: RebaseDestinationType::InsertBefore, destination: RebaseDestination::Trunk })),
        (vec![Key::Char('r'), Key::Char('s'), Key::Char('b'), Key::Char('c'),], Some(Message::Rebase { source_type: RebaseSourceType::Source, destination_type: RebaseDestinationType::InsertBefore, destination: RebaseDestination::Current })),
        (vec![Key::Char('r'), Key::Char('s'), Key::Char('b'), Key::Char('/'),], Some(Message::RebaseTargetFuzzy { source_type: RebaseSourceType::Source, destination_type: RebaseDestinationType::InsertBefore })),
        (vec![Key::Char('r'), Key::Char('s'), Key::Char('o'), Key::Enter,], Some(Message::Rebase { source_type: RebaseSourceType::Source, destination_type: RebaseDestinationType::Onto, destination: RebaseDestination::Selection })),
        (vec![Key::Char('r'), Key::Char('s'), Key::Char('o'), Key::Char('m'),], Some(Message::Rebase { source_type: RebaseSourceType::Source, destination_type: RebaseDestinationType::Onto, destination: RebaseDestination::Trunk })),
        (vec![Key::Char('r'), Key::Char('s'), Key::Char('o'), Key::Char('c'),], Some(Message::Rebase { source_type: RebaseSourceType::Source, destination_type: RebaseDestinationType::Onto, destination: RebaseDestination::Current })),
        (vec![Key::Char('r'), Key::Char('s'), Key::Char('o'), Key::Char('/'),], Some(Message::RebaseTargetFuzzy { source_type: RebaseSourceType::Source, destination_type: RebaseDestinationType::Onto })),
        (vec![Key::Char('r'), Key::Char('r'), Key::Char('a')], None),
        (vec![Key::Char('r'), Key::Char('r'), Key::Char('b')], None),
        (vec![Key::Char('r'), Key::Char('r'), Key::Char('o')], None),
        (vec![Key::Char('r'), Key::Char('r'), Key::Char('a'), Key::Enter,], Some(Message::Rebase { source_type: RebaseSourceType::Revisions, destination_type: RebaseDestinationType::InsertAfter, destination: RebaseDestination::Selection })),
        (vec![Key::Char('r'), Key::Char('r'), Key::Char('a'), Key::Char('m'),], Some(Message::Rebase { source_type: RebaseSourceType::Revisions, destination_type: RebaseDestinationType::InsertAfter, destination: RebaseDestination::Trunk })),
        (vec![Key::Char('r'), Key::Char('r'), Key::Char('a'), Key::Char('c'),], Some(Message::Rebase { source_type: RebaseSourceType::Revisions, destination_type: RebaseDestinationType::InsertAfter, destination: RebaseDestination::Current })),
        (vec![Key::Char('r'), Key::Char('r'), Key::Char('a'), Key::Char('/'),], Some(Message::RebaseTargetFuzzy { source_type: RebaseSourceType::Revisions, destination_type: RebaseDestinationType::InsertAfter })),
        (vec![Key::Char('r'), Key::Char('r'), Key::Char('b'), Key::Enter,], Some(Message::Rebase { source_type: RebaseSourceType::Revisions, destination_type: RebaseDestinationType::InsertBefore, destination: RebaseDestination::Selection })),
        (vec![Key::Char('r'), Key::Char('r'), Key::Char('b'), Key::Char('m'),], Some(Message::Rebase { source_type: RebaseSourceType::Revisions, destination_type: RebaseDestinationType::InsertBefore, destination: RebaseDestination::Trunk })),
        (vec![Key::Char('r'), Key::Char('r'), Key::Char('b'), Key::Char('c'),], Some(Message::Rebase { source_type: RebaseSourceType::Revisions, destination_type: RebaseDestinationType::InsertBefore, destination: RebaseDestination::Current })),
        (vec![Key::Char('r'), Key::Char('r'), Key::Char('b'), Key::Char('/'),], Some(Message::RebaseTargetFuzzy { source_type: RebaseSourceType::Revisions, destination_type: RebaseDestinationType::InsertBefore })),
        (vec![Key::Char('r'), Key::Char('r'), Key::Char('o'), Key::Enter,], Some(Message::Rebase { source_type: RebaseSourceType::Revisions, destination_type: RebaseDestinationType::Onto, destination: RebaseDestination::Selection })),
        (vec![Key::Char('r'), Key::Char('r'), Key::Char('o'), Key::Char('m'),], Some(Message::Rebase { source_type: RebaseSourceType::Revisions, destination_type: RebaseDestinationType::Onto, destination: RebaseDestination::Trunk })),
        (vec![Key::Char('r'), Key::Char('r'), Key::Char('o'), Key::Char('c'),], Some(Message::Rebase { source_type: RebaseSourceType::Revisions, destination_type: RebaseDestinationType::Onto, destination: RebaseDestination::Current })),
        (vec![Key::Char('r'), Key::Char('r'), Key::Char('o'), Key::Char('/'),], Some(Message::RebaseTargetFuzzy { source_type: RebaseSourceType::Revisions, destination_type: RebaseDestinationType::Onto })),
        (vec![Key::Char('R')], None),
        (vec![Key::Char('R'), Key::Char('r')], Some(Message::Restore { mode: RestoreMode::ChangesIn })),
        (vec![Key::Char('R'), Key::Char('d')], Some(Message::Restore { mode: RestoreMode::ChangesInRestoreDescendants })),
        (vec![Key::Char('R'), Key::Char('f')], Some(Message::Restore { mode: RestoreMode::From })),
        (vec![Key::Char('R'), Key::Char('i')], Some(Message::Restore { mode: RestoreMode::Into })),
        (vec![Key::Char('R'), Key::Char('R')], Some(Message::SaveSelection)),
        (vec![Key::Char('R'), Key::Char('R'), Key::Enter], Some(Message::Restore { mode: RestoreMode::FromInto })),
        (vec![Key::Char('v')], None),
        (vec![Key::Char('v'), Key::Char('v')], Some(Message::View { mode: ViewMode::Default })),
        (vec![Key::Char('v'), Key::Char('f')], Some(Message::View { mode: ViewMode::FromSelection })),
        (vec![Key::Char('v'), Key::Char('m')], Some(Message::View { mode: ViewMode::FromTrunkToSelection })),
        (vec![Key::Char('v'), Key::Char('t')], Some(Message::View { mode: ViewMode::ToSelection })),
        (vec![Key::Char('v'), Key::Char('V')], Some(Message::SaveSelection)),
        (vec![Key::Char('v'), Key::Char('V'), Key::Enter], Some(Message::View { mode: ViewMode::FromSelectionToDestination })),
        (vec![Key::Char('V')], None),
        (vec![Key::Char('V'), Key::Char('v')], Some(Message::Revert { revision: RevertRevision::Selection, destination_type: RevertDestinationType::Onto, destination: RevertDestination::Current })),
        (vec![Key::Char('V'), Key::Char('o')], Some(Message::SaveSelection)),
        (vec![Key::Char('V'), Key::Char('o'), Key::Enter], Some(Message::Revert { revision: RevertRevision::Saved, destination_type: RevertDestinationType::Onto, destination: RevertDestination::Selection })),
        (vec![Key::Char('V'), Key::Char('a')], Some(Message::SaveSelection)),
        (vec![Key::Char('V'), Key::Char('a'), Key::Enter], Some(Message::Revert { revision: RevertRevision::Saved, destination_type: RevertDestinationType::InsertAfter, destination: RevertDestination::Selection })),
        (vec![Key::Char('V'), Key::Char('b')], Some(Message::SaveSelection)),
        (vec![Key::Char('V'), Key::Char('b'), Key::Enter], Some(Message::Revert { revision: RevertRevision::Saved, destination_type: RevertDestinationType::InsertBefore, destination: RevertDestination::Selection })),
        (vec![Key::Char('w')], None),
        (vec![Key::Char('w'), Key::Char('a')], None),
        (vec![Key::Char('w'), Key::Char('a'), Key::Char('a')], Some(Message::WorkspaceAddPathOnly)),
        (vec![Key::Char('w'), Key::Char('a'), Key::Char('n')], Some(Message::WorkspaceAddNamed)),
        (vec![Key::Char('w'), Key::Char('f')], None),
        (vec![Key::Char('w'), Key::Char('f'), Key::Char('c')], Some(Message::WorkspaceForgetCurrent)),
        (vec![Key::Char('w'), Key::Char('f'), Key::Char('/')], Some(Message::WorkspaceForgetFuzzy)),
        (vec![Key::Char('w'), Key::Char('f'), Key::Char('f')], Some(Message::WorkspaceForgetAtSelection)),
        (vec![Key::Char('w'), Key::Char('L')], Some(Message::WorkspaceList)),
        (vec![Key::Char('w'), Key::Char('r')], Some(Message::WorkspaceRename)),
        (vec![Key::Char('w'), Key::Char('u')], Some(Message::WorkspaceUpdateStale)),
        (vec![Key::Char('u')], Some(Message::Undo)),
        (vec![Key::Char('U')], Some(Message::Redo)),
    ]
}

#[test]
fn every_binding_of_the_table_reaches_its_action() {
    let tree = CommandTree::new();
    let table = table();
    assert_eq!(table.len(), 230);
    for (keys, action) in table {
        let node = tree.get_node(&keys).unwrap_or_else(|| panic!("{keys:?} leads nowhere"));
        assert_eq!(node.action, action, "{keys:?}");
        if action.is_none() {
            assert!(node.children.is_some(), "{keys:?}");
        }
    }
}
