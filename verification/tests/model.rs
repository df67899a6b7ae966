use majjit::keys::Key;
use majjit::message::{
    AbandonMode, GitFetchMode, Message, NewMode, RebaseDestination, RebaseDestinationType,
    RebaseSourceType, RestoreMode, SetRevsetMode, ViewMode,
};
use majjit::model::{
    format_repository_for_display, Area, CommitInfo, LogListEntry, Model, OpenFile, QueueStep,
    State,
};
use majjit::prompt::ApplyOutcome;
use majjit::shell_out::{JjCommandError, ReturnOutput};
use majjit::styled::StyledLine;

fn line_text(line: &StyledLine) -> String {
    match line {
        StyledLine::Spans(spans) => spans.iter().map(|s| s.content.clone()).collect(),
        StyledLine::Ansi(text) => text.clone(),
    }
}

fn info_texts(model: &Model) -> Vec<String> {
    model.info_list.as_ref().map(|l| l.iter().map(line_text).collect()).unwrap_or_default()
}

fn commit(change: &str, commit_id: &str, description: Option<&str>, working_copy: bool) -> CommitInfo {
    CommitInfo {
        change_id: change.to_string(),
        commit_id: commit_id.to_string(),
        bookmarks: vec![format!("{change}-bm")],
        workspaces: Vec::new(),
        description_first_line: description.map(|d| d.to_string()),
        current_working_copy: working_copy,
    }
}

fn commit_entry(position: usize, change: &str, lines: usize, working_copy: bool) -> LogListEntry {
    LogListEntry {
        line_count: lines,
        tree_position: vec![position],
        commit_node: true,
        commit: Some(commit(change, &format!("{change}00"), Some("first line"), working_copy)),
        file_path: None,
    }
}

fn file_entry(position: usize, change: &str, file: &str, working_copy: bool) -> LogListEntry {
    LogListEntry {
        line_count: 1,
        tree_position: vec![position, 0],
        commit_node: false,
        commit: Some(commit(change, &format!("{change}00"), None, working_copy)),
        file_path: Some(file.to_string()),
    }
}

fn text_entry() -> LogListEntry {
    LogListEntry {
        line_count: 1,
        tree_position: vec![9],
        commit_node: false,
        commit: None,
        file_path: None,
    }
}

/// A log of four commits of two lines each (the second the working copy)
/// with a file under the first, and a line of elided text at the end.
fn sample_model() -> Model {
    let mut m = Model::new("/home/u/repo".to_string(), "all()".to_string(), Some("/home/u"));
    let entries = vec![
        commit_entry(0, "aaaa", 2, false),
        file_entry(0, "aaaa", "src/a.rs", false),
        commit_entry(1, "bbbb", 2, true),
        file_entry(1, "bbbb", "src/b.rs", true),
        commit_entry(2, "cccc", 2, false),
        commit_entry(3, "dddd", 2, false),
        text_entry(),
    ];
    m.set_log_list(entries, 0);
    m.log_list_layout = Area { x: 0, y: 2, width: 40, height: 4 };
    m.log_list_scroll_padding = 1;
    m
}

fn queued_args(model: &Model) -> Vec<Vec<String>> {
    model.queued_commands().iter().map(|c| c.args().clone()).collect()
}

#[test]
fn repository_shown_relative_to_home() {
    assert_eq!(format_repository_for_display("/home/u", Some("/home/u")), "~");
    assert_eq!(format_repository_for_display("/home/u/code/x", Some("/home/u")), "~/code/x");
    assert_eq!(format_repository_for_display("/home/user2/x", Some("/home/u")), "/home/user2/x");
    assert_eq!(format_repository_for_display("/srv/x", None), "/srv/x");
    let m = sample_model();
    assert_eq!(m.display_repository, "~/repo");
    assert_eq!(m.state, State::Running);
}

#[test]
fn selection_moves_within_the_list() {
    let mut m = sample_model();
    m.select_prev_node();
    assert_eq!(m.log_selected(), 0);
    for _ in 0..10 {
        m.select_next_node();
    }
    assert_eq!(m.log_selected(), 6);
    m.select_prev_node();
    assert_eq!(m.log_selected(), 5);
}

#[test]
fn working_copy_node_is_selected() {
    let mut m = sample_model();
    m.select_current_working_copy();
    assert_eq!(m.log_selected(), 2);
}

#[test]
fn mouse_click_selects_the_node_under_it() {
    let mut m = sample_model();
    // Rows 2 and 3 show the first commit, row 4 its file, row 5 the second commit.
    m.handle_mouse_click(4, 3);
    assert_eq!(m.log_selected(), 1);
    m.handle_mouse_click(5, 3);
    assert_eq!(m.log_selected(), 2);
    // Outside the list nothing changes.
    m.handle_mouse_click(1, 3);
    assert_eq!(m.log_selected(), 2);
    m.handle_mouse_click(5, 40);
    assert_eq!(m.log_selected(), 2);
}

#[test]
fn scrolling_by_lines_and_pages() {
    let mut m = sample_model();
    m.scroll_down_once();
    assert_eq!(m.log_offset(), 1);
    assert_eq!(m.log_selected(), 1);
    m.set_list_offset(0);
    m.set_log_list(sample_model().log_list().iter().map(|e| clone_entry(e)).collect(), 0);
    m.scroll_down_page();
    // Four rows from node 0 reach node 2; the selection keeps its place.
    assert_eq!(m.log_offset(), 2);
    assert_eq!(m.log_selected(), 2);
    m.scroll_up_page();
    assert_eq!(m.log_offset(), 0);
    assert_eq!(m.log_selected(), 0);
    // At the top already, a page up selects the first node.
    m.log_list_layout.height = 1;
    m.scroll_up_page();
    assert_eq!(m.log_selected(), 0);
}

#[test]
fn scrolling_up_once_follows_near_the_bottom() {
    let mut m = sample_model();
    m.set_list_offset(2);
    m.select_next_node();
    m.select_next_node();
    m.select_next_node();
    assert_eq!(m.log_selected(), 3);
    m.scroll_up_once();
    assert_eq!(m.log_offset(), 1);
    assert_eq!(m.log_selected(), 2);
    m.set_list_offset(0);
    m.scroll_up_once();
    assert_eq!(m.log_offset(), 0);
    assert_eq!(m.log_selected(), 2);
}

fn clone_entry(e: &LogListEntry) -> LogListEntry {
    LogListEntry {
        line_count: e.line_count,
        tree_position: e.tree_position.clone(),
        commit_node: e.commit_node,
        commit: e.commit.as_ref().map(|c| CommitInfo {
            change_id: c.change_id.clone(),
            commit_id: c.commit_id.clone(),
            bookmarks: c.bookmarks.clone(),
            workspaces: c.workspaces.clone(),
            description_first_line: c.description_first_line.clone(),
            current_working_copy: c.current_working_copy,
        }),
        file_path: e.file_path.clone(),
    }
}

#[test]
fn command_without_selection_reports_invalid_selection() {
    let mut m = sample_model();
    for _ in 0..6 {
        m.select_next_node();
    }
    m.jj_abandon(AbandonMode::Default);
    assert_eq!(info_texts(&m), vec!["Invalid selection"]);
    assert!(m.queued_commands().is_empty());
}

#[test]
fn abandon_queues_its_command_and_announces_it() {
    let mut m = sample_model();
    m.jj_abandon(AbandonMode::RetainBookmarks);
    assert_eq!(queued_args(&m), vec![vec!["abandon", "--retain-bookmarks", "aaaa"]]);
    assert_eq!(info_texts(&m), vec!["❯ jj abandon --retain-bookmarks aaaa", "", "Running..."]);
}

#[test]
fn two_step_rebase_uses_the_saved_change() {
    let mut m = sample_model();
    m.jj_rebase(RebaseSourceType::Branch, RebaseDestinationType::Onto, RebaseDestination::Selection);
    assert_eq!(info_texts(&m), vec!["Invalid selection"]);
    m.save_selection();
    assert_eq!(m.saved_change_id(), Some("aaaa"));
    m.select_current_working_copy();
    m.jj_rebase(RebaseSourceType::Branch, RebaseDestinationType::Onto, RebaseDestination::Selection);
    assert_eq!(queued_args(&m), vec![vec!["rebase", "--branch", "aaaa", "--onto", "bbbb"]]);
    m.clear();
    assert_eq!(m.saved_change_id(), None);
    assert!(m.info_list.is_none());
}

#[test]
fn queue_runs_commands_in_order() {
    let mut m = sample_model();
    m.jj_new_after_trunk_sync();
    assert_eq!(queued_args(&m), vec![vec!["git", "fetch"], vec!["new", "trunk()"]]);
    let first = m.take_next_command().unwrap();
    assert_eq!(first.args().clone(), vec!["git", "fetch"]);
    let step = m.record_command_result(&first, Ok("fetched\n".to_string()));
    assert!(matches!(step, QueueStep::More));
    assert_eq!(
        info_texts(&m),
        vec!["❯ jj git fetch", "", "fetched", "❯ jj new trunk()", "", "Running..."]
    );
    let second = m.take_next_command().unwrap();
    let step = m.record_command_result(&second, Ok("created".to_string()));
    assert!(matches!(step, QueueStep::Finished { sync: true }));
    assert_eq!(
        info_texts(&m),
        vec!["❯ jj git fetch", "", "fetched", "", "❯ jj new trunk()", "", "created"]
    );
    assert!(m.take_next_command().is_none());
}

#[test]
fn failed_command_shows_its_error_and_clears() {
    let mut m = sample_model();
    m.save_selection();
    m.jj_edit();
    let cmd = m.take_next_command().unwrap();
    let step = m.record_command_result(&cmd, Err(JjCommandError::new_failed("  boom \n".to_string())));
    assert!(matches!(step, QueueStep::Finished { sync: false }));
    assert_eq!(info_texts(&m), vec!["❯ jj edit aaaa", "", "boom"]);
    assert_eq!(m.saved_change_id(), None);
}

#[test]
fn command_that_cannot_run_is_handed_back() {
    let mut m = sample_model();
    m.jj_undo();
    let cmd = m.take_next_command().unwrap();
    let err = anyhow::Error::msg("no jj here");
    let step = m.record_command_result(&cmd, Err(JjCommandError::new_other(err)));
    match step {
        QueueStep::Aborted { err } => assert_eq!(err.to_string(), "no jj here"),
        _ => panic!("expected the error back"),
    }
}

#[test]
fn bookmark_create_prompt_submits_trimmed_text() {
    let mut m = sample_model();
    m.jj_bookmark_create();
    assert_eq!(m.state, State::EnteringText);
    assert_eq!(m.text_input.as_ref().unwrap().prompt, "Bookmark create");
    let outcome = m.submit_text_input("  feature  ");
    assert!(matches!(outcome, ApplyOutcome::Done));
    assert_eq!(queued_args(&m), vec![vec!["bookmark", "create", "--revision", "aaaa", "feature"]]);
    assert_eq!(m.state, State::Running);
}

#[test]
fn empty_prompt_is_cancelled() {
    let mut m = sample_model();
    m.jj_bookmark_create();
    m.submit_text_input("   ");
    assert_eq!(info_texts(&m), vec!["Cancelled"]);
    assert!(m.text_input.is_none());
    assert!(m.queued_commands().is_empty());
}

#[test]
fn finder_lists_names_greatest_first_and_submits_choice() {
    let mut m = sample_model();
    m.jj_bookmark_delete(vec!["alpha".to_string(), "main".to_string(), "beta".to_string()]);
    {
        let f = m.text_input.as_ref().unwrap().fuzzy.as_ref().unwrap();
        let shown: Vec<String> = f.candidates.iter().map(|c| c.display.clone()).collect();
        assert_eq!(shown, vec!["main", "beta", "alpha"]);
        assert_eq!(f.selected, 2);
    }
    assert!(m.has_active_fuzzy());
    m.move_fuzzy_selection_up();
    m.move_fuzzy_selection_down();
    assert_eq!(m.text_input.as_ref().unwrap().fuzzy.as_ref().unwrap().selected, 2);
    m.move_fuzzy_selection_down();
    assert_eq!(m.text_input.as_ref().unwrap().fuzzy.as_ref().unwrap().selected, 0);
    m.submit_text_input("");
    assert_eq!(queued_args(&m), vec![vec!["bookmark", "delete", "main"]]);
}

#[test]
fn finder_filter_keeps_matches_best_last() {
    let mut m = sample_model();
    m.jj_bookmark_delete(vec!["feature-x".to_string(), "main".to_string(), "fix".to_string()]);
    m.update_fuzzy_filter("  fx ");
    let f = m.text_input.as_ref().unwrap().fuzzy.as_ref().unwrap();
    let matched: Vec<String> = f.filtered.iter().map(|x| f.candidates[x.candidate_index].display.clone()).collect();
    assert!(!matched.is_empty());
    assert!(!matched.contains(&"main".to_string()));
    assert_eq!(f.selected, f.filtered.len() - 1);
    for pair in f.filtered.windows(2) {
        assert!(pair[0].score <= pair[1].score);
    }
}

#[test]
fn empty_finder_submission_is_cancelled() {
    let mut m = sample_model();
    m.jj_bookmark_delete(vec!["main".to_string()]);
    m.update_fuzzy_filter("zzzz");
    assert!(m.text_input.as_ref().unwrap().fuzzy.as_ref().unwrap().filtered.is_empty());
    m.submit_text_input("zzzz");
    assert_eq!(info_texts(&m), vec!["Cancelled"]);
}

#[test]
fn finder_without_candidates_is_a_plain_prompt() {
    let mut m = sample_model();
    m.jj_edit_target(Vec::new());
    assert!(!m.has_active_fuzzy());
    assert_eq!(m.state, State::EnteringText);
    m.submit_text_input("xyz");
    assert_eq!(queued_args(&m), vec![vec!["edit", "xyz"]]);
}

#[test]
fn revset_finder_selects_the_chosen_commit() {
    let mut m = sample_model();
    m.select_in_revset();
    {
        let f = m.text_input.as_ref().unwrap().fuzzy.as_ref().unwrap();
        let target_of_cccc = f
            .candidates
            .iter()
            .find(|c| c.display == "cccc")
            .and_then(|c| c.target.clone());
        assert_eq!(target_of_cccc, Some("4".to_string()));
    }
    m.update_fuzzy_filter("cccc00");
    m.submit_text_input("cccc00");
    assert_eq!(m.log_selected(), 4);
}

#[test]
fn rename_prompts_twice() {
    let mut m = sample_model();
    m.jj_bookmark_rename(vec!["old".to_string()]);
    m.submit_text_input("");
    assert_eq!(m.text_input.as_ref().unwrap().prompt, "Bookmark to");
    m.submit_text_input("new");
    assert_eq!(queued_args(&m), vec![vec!["bookmark", "rename", "old", "new"]]);
}

#[test]
fn named_revset_is_set_and_restored_on_failure() {
    let mut m = sample_model();
    let outcome = m.set_revset(SetRevsetMode::Mine);
    let previous = match outcome {
        ApplyOutcome::SyncRevset { previous } => previous,
        _ => panic!("expected a revset change"),
    };
    assert_eq!(previous, "all()");
    assert_eq!(m.revset, "mine()");
    m.finish_set_revset(previous, Some("Error: bad revset"));
    assert_eq!(m.revset, "all()");
    assert_eq!(info_texts(&m), vec!["Error: bad revset"]);
    let outcome = m.set_revset(SetRevsetMode::Stack);
    assert!(matches!(outcome, ApplyOutcome::SyncRevset { .. }));
    m.finish_set_revset("all()".to_string(), None);
    assert_eq!(info_texts(&m), vec!["Revset set to 'trunk() | (trunk()..@)::'"]);
    assert!(matches!(m.set_revset(SetRevsetMode::JjDefault), ApplyOutcome::Unavailable));
}

#[test]
fn custom_revset_prompt_starts_with_the_current_one() {
    let mut m = sample_model();
    m.set_revset(SetRevsetMode::Custom);
    assert_eq!(m.text_input.as_ref().unwrap().initial_text, "all()");
    let outcome = m.submit_text_input(" @- ");
    assert!(matches!(outcome, ApplyOutcome::SyncRevset { .. }));
    assert_eq!(m.revset, "@-");
}

#[test]
fn refresh_adds_periods_each_time() {
    let mut m = sample_model();
    let n = m.begin_refresh();
    assert_eq!(n, 0);
    m.finish_refresh(n);
    assert_eq!(info_texts(&m), vec!["Refreshed"]);
    let n = m.begin_refresh();
    m.finish_refresh(n);
    assert_eq!(info_texts(&m), vec!["Refreshed..."]);
    let n = m.begin_refresh();
    m.finish_refresh(n);
    assert_eq!(info_texts(&m), vec!["Refreshed......"]);
}

#[test]
fn command_keys_reach_actions() {
    let mut m = sample_model();
    assert_eq!(m.handle_command_key(Key::Char('a')), None);
    assert!(!info_texts(&m).is_empty());
    assert_eq!(
        m.handle_command_key(Key::Char('a')),
        Some(Message::Abandon { mode: AbandonMode::Default })
    );
    m.info_list = None;
    assert_eq!(m.handle_command_key(Key::F(9)), None);
    assert_eq!(info_texts(&m), vec![" Unbound suffix: 'F9'"]);
    assert!(m.can_report_unbound());
}

#[test]
fn restore_and_view_commands() {
    let mut m = sample_model();
    m.select_next_node();
    m.jj_restore(RestoreMode::ChangesIn);
    assert_eq!(queued_args(&m), vec![vec!["restore", "--changes-in", "aaaa", "src/a.rs"]]);
    m.jj_view(ViewMode::Default);
    let cmd = &m.queued_commands()[0];
    assert!(cmd.is_interactive());
    assert_eq!(cmd.args().clone(), vec!["diff", "--revisions", "aaaa", "src/a.rs"]);
    assert_eq!(cmd.return_output(), ReturnOutput::Stderr);
}

#[test]
fn new_and_fetch_modes() {
    let mut m = sample_model();
    m.jj_new(NewMode::Before);
    assert_eq!(queued_args(&m), vec![vec!["new", "--no-edit", "--insert-before", "aaaa"]]);
    m.jj_git_fetch(GitFetchMode::AllRemotes, Vec::new());
    assert_eq!(queued_args(&m), vec![vec!["git", "fetch", "--all-remotes"]]);
    m.jj_git_fetch(GitFetchMode::Remote, vec!["origin".to_string()]);
    assert_eq!(m.text_input.as_ref().unwrap().prompt, "Fetch remote");
}

#[test]
fn open_file_plans() {
    let mut m = sample_model();
    assert!(m.plan_open_file().is_none());
    assert_eq!(info_texts(&m), vec!["Invalid selection"]);
    m.select_next_node();
    match m.plan_open_file() {
        Some(OpenFile::ReadOnly { file, change_id, commit_id, temp_prefix, show }) => {
            assert_eq!(file, "src/a.rs");
            assert_eq!(change_id, "aaaa");
            assert_eq!(commit_id, "aaaa00");
            assert_eq!(temp_prefix, "majjit-aaaa-aaaa00-");
            assert_eq!(show.args().clone(), vec!["file", "show", "--revision", "aaaa", "src/a.rs"]);
        }
        _ => panic!("expected a read-only copy"),
    }
    m.select_next_node();
    m.select_next_node();
    match m.plan_open_file() {
        Some(plan) => {
            match &plan {
                OpenFile::WorkingCopy { path, file } => {
                    assert_eq!(path, "/home/u/repo/src/b.rs");
                    assert_eq!(file, "src/b.rs");
                }
                _ => panic!("expected the working copy file"),
            }
            m.finish_open_file(&plan);
            assert_eq!(info_texts(&m), vec!["Opened src/b.rs"]);
        }
        None => panic!("expected a plan"),
    }
}

#[test]
fn fresh_finder_submits_the_last_listed() {
    let mut m = sample_model();
    m.jj_bookmark_forget(false, vec!["zeta".to_string(), "alpha".to_string(), "mid".to_string()]);
    m.submit_text_input("");
    assert_eq!(queued_args(&m), vec![vec!["bookmark", "forget", "alpha"]]);
}
