use majjit::keys::{key_label, usize_decimal, Key};
use majjit::listing::{parse_listing, Listing};
use majjit::message::Message;
use majjit::model::{CommitInfo, LogListEntry, Model, State};
use majjit::prompt::parse_usize;
use majjit::shell_out::JjCommand;
use majjit::text::{sorted_unique, split_lines, trimmed};
use majjit::update::{handle_key, KeyOutcome};

fn one_commit_model() -> Model {
    let mut m = Model::new("/r".to_string(), "@".to_string(), None);
    let entry = LogListEntry {
        line_count: 1,
        tree_position: vec![0],
        commit_node: true,
        commit: Some(CommitInfo {
            change_id: "kkkk".to_string(),
            commit_id: "1234".to_string(),
            bookmarks: Vec::new(),
            workspaces: Vec::new(),
            description_first_line: None,
            current_working_copy: true,
        }),
        file_path: None,
    };
    m.set_log_list(vec![entry], 0);
    m
}

#[test]
fn usize_parsing_follows_std() {
    assert_eq!(parse_usize("42"), Some(42));
    assert_eq!(parse_usize("+7"), Some(7));
    assert_eq!(parse_usize("007"), Some(7));
    assert_eq!(parse_usize(""), None);
    assert_eq!(parse_usize("+"), None);
    assert_eq!(parse_usize("-1"), None);
    assert_eq!(parse_usize("4 2"), None);
    assert_eq!(parse_usize("99999999999999999999999"), None);
    let max = usize::MAX.to_string();
    assert_eq!(parse_usize(&max), Some(usize::MAX));
    for s in ["1", "12", "123"] {
        assert_eq!(parse_usize(s), s.parse::<usize>().ok());
    }
}

#[test]
fn decimal_digits_parse_back() {
    for n in [0usize, 7, 10, 99, 100, 12345, usize::MAX] {
        let s = usize_decimal(n);
        assert_eq!(s, n.to_string());
        assert_eq!(parse_usize(&s), Some(n));
    }
}

#[test]
fn listing_of_names_is_sorted_and_distinct() {
    let out = "  main\nfeature\n\nmain\r\n  \nbugfix \n";
    assert_eq!(parse_listing(Listing::BookmarkNames, out), vec!["bugfix", "feature", "main"]);
    assert_eq!(parse_listing(Listing::Files, out), vec!["main", "feature", "main", "bugfix"]);
}

#[test]
fn listing_of_remotes_takes_first_words() {
    let out = "origin  https://example.com/a (fetch)\n\n   upstream\tgit@host:b\n";
    assert_eq!(parse_listing(Listing::GitRemotes, out), vec!["origin", "upstream"]);
}

#[test]
fn listing_commands_change_nothing() {
    let m = one_commit_model();
    let cmd = m.listing_command(Listing::BookmarkNames);
    assert!(!cmd.is_sync());
    assert_eq!(cmd.args()[0], "bookmark");
    let remote_list = m.listing_command(Listing::TrackedRemoteBookmarks);
    assert!(!remote_list.is_color());
    let targets = m.listing_command(Listing::RevisionTargets);
    assert!(targets.args().contains(&"@".to_string()));
}

#[test]
fn text_helpers_match_std() {
    assert_eq!(trimmed("\t a b \n"), "a b");
    assert_eq!(split_lines("a\r\nb\n\nc"), vec!["a", "b", "", "c"]);
    assert_eq!(split_lines("a\n"), vec!["a"]);
    let v = vec!["b".to_string(), "a".to_string(), "b".to_string(), "C".to_string()];
    assert_eq!(sorted_unique(v), vec!["C", "a", "b"]);
}

#[test]
fn keys_in_a_prompt() {
    let mut m = one_commit_model();
    m.jj_bookmark_create();
    assert_eq!(m.state, State::EnteringText);
    assert_eq!(handle_key(&mut m, Key::Char('x'), false), KeyOutcome::ForwardToPrompt { refilter: false });
    assert_eq!(handle_key(&mut m, Key::Enter, false), KeyOutcome::Message(Message::SubmitTextInput));
    assert_eq!(handle_key(&mut m, Key::Esc, false), KeyOutcome::Message(Message::Clear));
    m.clear();
    m.jj_bookmark_delete(vec!["a".to_string(), "b".to_string()]);
    assert_eq!(handle_key(&mut m, Key::Char('x'), false), KeyOutcome::ForwardToPrompt { refilter: true });
    assert_eq!(handle_key(&mut m, Key::Tab, false), KeyOutcome::Handled);
    assert_eq!(m.text_input.as_ref().unwrap().fuzzy.as_ref().unwrap().selected, 0);
}

#[test]
fn keys_outside_a_prompt() {
    let mut m = one_commit_model();
    assert_eq!(handle_key(&mut m, Key::Char('q'), false), KeyOutcome::Message(Message::Quit));
    assert_eq!(handle_key(&mut m, Key::Char('c'), true), KeyOutcome::Message(Message::Quit));
    assert_eq!(handle_key(&mut m, Key::Char('j'), false), KeyOutcome::Message(Message::SelectNextNode));
    assert_eq!(handle_key(&mut m, Key::Char('?'), false), KeyOutcome::Message(Message::ShowHelp));
    assert_eq!(handle_key(&mut m, Key::Char('u'), false), KeyOutcome::Message(Message::Undo));
    assert_eq!(handle_key(&mut m, Key::F(12), false), KeyOutcome::Handled);
}

#[test]
fn platform_key_names() {
    let enter = key_label(Key::Enter);
    assert!(enter == "Enter" || enter == "Return");
    assert_eq!(key_label(Key::Char(' ')), "Space");
    assert_eq!(key_label(Key::F(3)), "F3");
}

#[test]
fn invalid_utf8_is_replaced() {
    let r = JjCommand::run_noninteractive(true, b"ok\xff", b"").unwrap();
    assert_eq!(r.stdout, "ok\u{FFFD}");
}

#[test]
fn cursor_sequences_are_stripped_but_colours_kept() {
    let r = JjCommand::run_interactive(true, b"\x1b[2K\x1b[31mred\x1b[0m\x1b]0;title\x07").unwrap();
    assert_eq!(r.stderr, "\x1b[31mred\x1b[0m");
    assert_eq!(r.stdout, "");
}
