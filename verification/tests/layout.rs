use majjit::layout::{
    fuzzy_window_range, highlight_segments, highlighted_row, render_bottom_height, render_header, SpanRole,
};
use majjit::model::{CommitInfo, LogListEntry, Model};
use majjit::shell_out::{JjCommand, JjCommandError};
use majjit::styled::{StyledLine, TextColor};

fn model_with_log() -> Model {
    let mut m = Model::new("/srv/r".to_string(), "::@".to_string(), Some("/home/x"));
    let entry = LogListEntry {
        line_count: 1,
        tree_position: vec![0],
        commit_node: true,
        commit: Some(CommitInfo {
            change_id: "abcd".to_string(),
            commit_id: "0123".to_string(),
            bookmarks: vec!["main".to_string()],
            workspaces: Vec::new(),
            description_first_line: Some("desc".to_string()),
            current_working_copy: false,
        }),
        file_path: None,
    };
    m.set_log_list(vec![entry], 0);
    m
}

#[test]
fn header_names_repository_and_revset() {
    let mut m = model_with_log();
    let spans = render_header(&m);
    let text: Vec<String> = spans.iter().map(|s| s.content.clone()).collect();
    assert_eq!(text, vec!["repository: ", "/srv/r", "  ", "revset: ", "::@"]);
    assert_eq!(spans[1].color, Some(TextColor::Green));
    m.toggle_ignore_immutable();
    let spans = render_header(&m);
    assert_eq!(spans.len(), 6);
    assert_eq!(spans[5].content, "  --ignore-immutable");
    assert_eq!(spans[5].color, Some(TextColor::LightRed));
}

#[test]
fn bottom_area_heights() {
    let mut m = model_with_log();
    assert_eq!(render_bottom_height(&m, 40), 0);
    m.info_list = Some(vec![StyledLine::raw("a".to_string()), StyledLine::raw("b".to_string())]);
    assert_eq!(render_bottom_height(&m, 40), 4);
    m.jj_bookmark_delete(vec!["x".to_string(), "y".to_string()]);
    assert_eq!(render_bottom_height(&m, 40), 6);
    assert_eq!(render_bottom_height(&m, 8), 4);
    m.clear();
    m.jj_bookmark_create();
    assert_eq!(render_bottom_height(&m, 40), 3);
}

#[test]
fn finder_window_follows_selection() {
    assert_eq!(fuzzy_window_range(9, 10, 4), (6, 10));
    assert_eq!(fuzzy_window_range(2, 10, 4), (2, 6));
    assert_eq!(fuzzy_window_range(0, 3, 4), (0, 3));
}

#[test]
fn highlight_cuts_matches_out() {
    let segs = highlight_segments("feature-x", &[0, 8]);
    let parts: Vec<(String, bool)> = segs.into_iter().map(|s| (s.text, s.matched)).collect();
    assert_eq!(
        parts,
        vec![
            ("f".to_string(), true),
            ("eature-".to_string(), false),
            ("x".to_string(), true),
        ]
    );
    let segs = highlight_segments("abc", &[1, 7]);
    let joined: String = segs.iter().map(|s| s.text.clone()).collect();
    assert_eq!(joined, "abc");
    assert_eq!(highlight_segments("", &[]).len(), 0);
}

#[test]
fn highlight_positions_are_bytes() {
    let segs = highlight_segments("héllo", &[0, 3, 6, 9]);
    let parts: Vec<(String, bool)> = segs.into_iter().map(|s| (s.text, s.matched)).collect();
    assert_eq!(
        parts,
        vec![
            ("h".to_string(), true),
            ("é".to_string(), false),
            ("l".to_string(), true),
            ("lo".to_string(), false),
        ]
    );
    let segs = highlight_segments("日本", &[3]);
    let parts: Vec<(String, bool)> = segs.into_iter().map(|s| (s.text, s.matched)).collect();
    assert_eq!(parts, vec![("日".to_string(), false), ("本".to_string(), true)]);
}

#[test]
fn repository_check_arguments_and_result() {
    assert_eq!(
        JjCommand::jj_ensure_valid_repo_args("/r"),
        vec!["--repository", "/r", "workspace", "root", "--color", "always"]
    );
    assert_eq!(JjCommand::jj_ensure_valid_repo(true, b" /r/root \n", b"").unwrap(), "/r/root");
    match JjCommand::jj_ensure_valid_repo(false, b"", b"Error: There is no jj repo\n") {
        Err(JjCommandError::Failed { stderr }) => assert_eq!(stderr, "Error: There is no jj repo"),
        _ => panic!("expected a failure"),
    }
}

#[test]
fn error_message_of_other_errors() {
    let e = JjCommandError::new_other(anyhow::Error::msg("spawn failed"));
    assert_eq!(e.message(), "spawn failed");
    let f = JjCommandError::new_failed("x".to_string());
    assert_eq!(f.message(), "x");
}

#[test]
fn a_finder_row_has_its_indicator_and_roles() {
    let row: Vec<(String, SpanRole)> =
        highlighted_row("héllo", &[0, 3], true).into_iter().map(|s| (s.text, s.role)).collect();
    assert_eq!(
        row,
        vec![
            ("> ".to_string(), SpanRole::Indicator),
            ("h".to_string(), SpanRole::Matched),
            ("é".to_string(), SpanRole::Base),
            ("l".to_string(), SpanRole::Matched),
            ("lo".to_string(), SpanRole::Base),
        ]
    );
    let row: Vec<(String, SpanRole)> =
        highlighted_row("ab", &[], false).into_iter().map(|s| (s.text, s.role)).collect();
    assert_eq!(row, vec![("  ".to_string(), SpanRole::Plain), ("ab".to_string(), SpanRole::Base)]);
}
