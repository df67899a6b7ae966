use majjit::command_tree::{CommandTree, display_unbound_error_lines};
use majjit::keys::Key;
use majjit::message::{AbandonMode, AbsorbMode, Message};
use majjit::styled::{StyledLine, TextColor};

fn line_text(line: &StyledLine) -> String {
    match line {
        StyledLine::Spans(spans) => spans.iter().map(|s| s.content.clone()).collect(),
        StyledLine::Ansi(text) => text.clone(),
    }
}

#[test]
fn key_sequences_reach_their_commands() {
    let tree = CommandTree::new();
    let node = tree.get_node(&[Key::Char('a'), Key::Char('a')]).unwrap();
    assert_eq!(node.action, Some(Message::Abandon { mode: AbandonMode::Default }));
    assert!(node.children.is_none());
    let group = tree.get_node(&[Key::Char('a')]).unwrap();
    assert!(group.action.is_none());
    assert!(group.children.is_some());
    let into = tree.get_node(&[Key::Char('A'), Key::Char('i'), Key::Enter]).unwrap();
    assert_eq!(into.action, Some(Message::Absorb { mode: AbsorbMode::Into }));
    assert!(tree.get_node(&[Key::Char('a'), Key::Char('a'), Key::Char('a')]).is_none());
    assert!(tree.get_node(&[Key::F(7)]).is_none());
}

#[test]
fn root_help_lists_groups_in_columns() {
    let tree = CommandTree::new();
    let lines = tree.get_help();
    assert!(!lines.is_empty());
    let first = line_text(&lines[0]);
    assert!(first.starts_with(" Commands"));
    assert!(first.contains("Navigation"));
    assert!(first.contains("General"));
    for line in &lines {
        match line {
            StyledLine::Spans(spans) => assert_eq!(spans[0].content, " "),
            StyledLine::Ansi(_) => panic!("help lines are spans"),
        }
    }
}

#[test]
fn child_help_sorts_by_lowercase_key() {
    let tree = CommandTree::new();
    let node = tree.get_node(&[Key::Char('b')]).unwrap();
    let children = node.children.as_ref().unwrap();
    assert!(children.has_help());
    let lines = children.get_help();
    let first = line_text(&lines[0]);
    assert!(first.contains("Bookmark"));
}

#[test]
fn unbound_key_reports_replace_each_other() {
    let mut info: Option<Vec<StyledLine>> = None;
    display_unbound_error_lines(&mut info, &Key::Char('z'), false);
    let lines = info.as_ref().unwrap();
    assert_eq!(lines.len(), 1);
    assert_eq!(line_text(&lines[0]), " Unbound suffix: 'z'");
    match &lines[0] {
        StyledLine::Spans(spans) => {
            assert_eq!(spans[0].color, Some(TextColor::Red));
            assert_eq!(spans[2].color, Some(TextColor::Green));
        }
        _ => panic!(),
    }
    display_unbound_error_lines(&mut info, &Key::Char('x'), false);
    let lines = info.as_ref().unwrap();
    assert_eq!(lines.len(), 1);
    assert_eq!(line_text(&lines[0]), " Unbound suffix: 'x'");
}

#[test]
fn unbound_key_report_follows_other_text() {
    let mut info = Some(vec![StyledLine::raw("help".to_string())]);
    display_unbound_error_lines(&mut info, &Key::Char(' '), false);
    let lines = info.unwrap();
    assert_eq!(lines.len(), 3);
    assert_eq!(line_text(&lines[1]), "");
    assert_eq!(line_text(&lines[2]), " Unbound suffix: 'Space'");
}

#[test]
fn one_more_key_goes_to_a_child_of_the_node_reached() {
    let tree = CommandTree::new();
    assert!(tree.get_node(&[]).is_some());
    let sequences: Vec<Vec<Key>> = vec![
        vec![Key::Char('a')],
        vec![Key::Char('a'), Key::Char('a')],
        vec![Key::Char('A'), Key::Char('i')],
        vec![Key::Char('r'), Key::Char('b')],
        vec![Key::Char('z')],
        vec![Key::Char('a'), Key::Char('a'), Key::Char('a')],
    ];
    for keys in sequences {
        for key in [Key::Char('a'), Key::Char('b'), Key::Char('i'), Key::Enter, Key::F(7)] {
            let mut longer = keys.clone();
            longer.push(key);
            let direct = tree.get_node(&longer);
            let stepwise = tree
                .get_node(&keys)
                .and_then(|n| n.children.as_ref())
                .and_then(|c| c.get_node(&key));
            match (direct, stepwise) {
                (Some(a), Some(b)) => assert!(std::ptr::eq(a, b), "{longer:?}"),
                (None, None) => {}
                _ => panic!("{longer:?}"),
            }
        }
    }
}
