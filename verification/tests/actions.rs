use majjit::message::{
    AbsorbMode, BookmarkMoveMode, DuplicateDestination, DuplicateDestinationType, GitPushMode,
    InterdiffMode, MetaeditAction, NextPrevDirection, NextPrevMode, ParallelizeSource,
    RevertDestination, RevertDestinationType, RevertRevision, SignAction, SimplifyParentsMode,
    SquashMode,
};
use majjit::model::{CommitInfo, LogListEntry, Model, State};

fn entry(change: &str, file: Option<&str>, description: Option<&str>, working_copy: bool) -> LogListEntry {
    LogListEntry {
        line_count: 1,
        tree_position: vec![0],
        commit_node: file.is_none(),
        commit: Some(CommitInfo {
            change_id: change.to_string(),
            commit_id: format!("{change}-id"),
            bookmarks: Vec::new(),
            workspaces: vec!["default@".to_string(), "other".to_string()],
            description_first_line: description.map(|d| d.to_string()),
            current_working_copy: working_copy,
        }),
        file_path: file.map(|f| f.to_string()),
    }
}

/// Three nodes: change `p` (described), its file `f.txt`, and change `q`
/// (the working copy, not described).
fn model() -> Model {
    let mut m = Model::new("/r".to_string(), "@".to_string(), None);
    m.set_log_list(
        vec![
            entry("p", None, Some("fix"), false),
            entry("p", Some("f.txt"), Some("fix"), false),
            entry("q", None, None, true),
        ],
        0,
    );
    m
}

fn args(m: &Model) -> Vec<Vec<String>> {
    m.queued_commands().iter().map(|c| c.args().clone()).collect()
}

fn saved_p_then_select_q() -> Model {
    let mut m = model();
    m.save_selection();
    m.select_next_node();
    m.select_next_node();
    m
}

#[test]
fn absorb_from_selection_and_into() {
    let mut m = model();
    m.select_next_node();
    m.jj_absorb(AbsorbMode::Default);
    assert_eq!(args(&m), vec![vec!["absorb", "--from", "p", "f.txt"]]);
    let mut m = saved_p_then_select_q();
    m.jj_absorb(AbsorbMode::Into);
    assert_eq!(args(&m), vec![vec!["absorb", "--from", "p", "--into", "q"]]);
}

#[test]
fn bookmark_move_modes() {
    let mut m = saved_p_then_select_q();
    m.jj_bookmark_move(BookmarkMoveMode::AllowBackwards);
    assert_eq!(args(&m), vec![vec!["bookmark", "move", "--from", "p", "--to", "q", "--allow-backwards"]]);
    let mut m = model();
    m.jj_bookmark_move(BookmarkMoveMode::Tug);
    assert_eq!(args(&m), vec![vec!["bookmark", "move", "--from", "heads(::@- & bookmarks())", "--to", "p"]]);
}

#[test]
fn duplicate_places_the_saved_change() {
    let mut m = model();
    m.jj_duplicate(DuplicateDestinationType::Default, DuplicateDestination::Default);
    assert_eq!(args(&m), vec![vec!["duplicate", "p"]]);
    let mut m = saved_p_then_select_q();
    m.jj_duplicate(DuplicateDestinationType::Onto, DuplicateDestination::Selection);
    assert_eq!(args(&m), vec![vec!["duplicate", "p", "--onto", "q"]]);
}

#[test]
fn interdiff_modes() {
    let mut m = model();
    m.jj_interdiff(InterdiffMode::ToSelection);
    let cmd = &m.queued_commands()[0];
    assert_eq!(cmd.args().clone(), vec!["interdiff", "--from", "@", "--to", "p"]);
    assert!(cmd.is_interactive());
    assert!(!cmd.is_sync());
}

#[test]
fn metaedit_flags_and_prompts() {
    let mut m = model();
    m.jj_metaedit(MetaeditAction::UpdateChangeId);
    assert_eq!(args(&m), vec![vec!["metaedit", "--update-change-id", "p"]]);
    m.jj_metaedit(MetaeditAction::SetAuthor);
    assert_eq!(m.state, State::EnteringText);
    m.submit_text_input(" A <a@b> ");
    assert_eq!(args(&m), vec![vec!["metaedit", "--author", "A <a@b>", "p"]]);
}

#[test]
fn parallelize_and_sign_revsets() {
    let mut m = saved_p_then_select_q();
    m.jj_parallelize(ParallelizeSource::Range);
    assert_eq!(args(&m), vec![vec!["parallelize", "p::q"]]);
    m.jj_sign(SignAction::Unsign, false);
    assert_eq!(args(&m), vec![vec!["unsign", "-r", "q"]]);
    let mut m = model();
    m.jj_parallelize(ParallelizeSource::Selection);
    assert_eq!(args(&m), vec![vec!["parallelize", "p-::p"]]);
}

#[test]
fn revert_and_simplify() {
    let mut m = saved_p_then_select_q();
    m.jj_revert(RevertRevision::Saved, RevertDestinationType::InsertAfter, RevertDestination::Selection);
    assert_eq!(args(&m), vec![vec!["revert", "-r", "p", "--insert-after", "q"]]);
    m.jj_simplify_parents(SimplifyParentsMode::Source);
    assert_eq!(args(&m), vec![vec!["simplify-parents", "-s", "q"]]);
}

#[test]
fn squash_asks_the_editor_only_for_described_changes() {
    let mut m = model();
    m.jj_squash(SquashMode::Default);
    assert!(m.queued_commands()[0].is_interactive());
    let mut m = model();
    m.select_next_node();
    m.select_next_node();
    m.jj_squash(SquashMode::Default);
    assert!(!m.queued_commands()[0].is_interactive());
    assert_eq!(args(&m), vec![vec!["squash", "--revision", "q"]]);
    let mut m = saved_p_then_select_q();
    m.jj_squash(SquashMode::Into);
    assert_eq!(args(&m), vec![vec!["squash", "--from", "p", "--into", "q"]]);
}

#[test]
fn file_untrack_needs_a_working_copy_file() {
    let mut m = model();
    m.select_next_node();
    m.jj_file_untrack();
    assert!(m.queued_commands().is_empty());
    assert!(m.info_list.is_some());
}

#[test]
fn push_named_prompts_for_the_bookmark() {
    let mut m = model();
    m.jj_git_push(GitPushMode::Change, Vec::new());
    assert_eq!(args(&m), vec![vec!["git", "push", "-c", "p"]]);
    m.jj_git_push(GitPushMode::Named, Vec::new());
    m.submit_text_input("feature");
    assert_eq!(args(&m), vec![vec!["git", "push", "--named", "feature=p"]]);
}

#[test]
fn next_prev_with_offset_prompt() {
    let mut m = model();
    m.jj_next_prev(NextPrevDirection::Prev, NextPrevMode::Edit, false);
    assert_eq!(args(&m), vec![vec!["prev", "--edit"]]);
    m.jj_next_prev(NextPrevDirection::Next, NextPrevMode::Default, true);
    m.submit_text_input("3");
    assert_eq!(args(&m), vec![vec!["next", "3"]]);
}

#[test]
fn describe_inline_starts_with_the_description() {
    let mut m = model();
    m.start_describe_input();
    assert_eq!(m.text_input.as_ref().unwrap().initial_text, "fix");
    m.submit_text_input("better");
    assert_eq!(args(&m), vec![vec!["describe", "p", "-m", "better"]]);
}

#[test]
fn workspace_names_drop_the_marker() {
    let m = model();
    assert_eq!(m.get_selected_workspaces(), vec!["default", "other"]);
}

#[test]
fn workspace_prompt_without_path_is_cancelled() {
    let mut m = model();
    m.jj_workspace_add_named();
    m.submit_text_input("ws");
    assert_eq!(m.text_input.as_ref().unwrap().prompt, "Workspace path");
    m.submit_text_input("  ");
    assert!(m.text_input.is_none());
    assert!(m.queued_commands().is_empty());
}
