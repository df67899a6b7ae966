use majjit::listing::Listing;
use majjit::message::{
    AbandonMode, BookmarkSetMode, GitFetchMode, GitPushMode, Message, SetRevsetMode,
};
use majjit::model::{CommitInfo, LogListEntry, Model, State};
use majjit::prompt::ApplyOutcome;
use majjit::update::MsgStep;

fn entry(change: &str) -> LogListEntry {
    LogListEntry {
        line_count: 1,
        tree_position: vec![0],
        commit_node: true,
        commit: Some(CommitInfo {
            change_id: change.to_string(),
            commit_id: format!("{change}-id"),
            bookmarks: Vec::new(),
            workspaces: Vec::new(),
            description_first_line: None,
            current_working_copy: false,
        }),
        file_path: None,
    }
}

fn model() -> Model {
    let mut m = Model::new("/r".to_string(), "@".to_string(), None);
    m.set_log_list(vec![entry("aaaa"), entry("bbbb")], 0);
    m
}

fn queued_args(m: &Model) -> Vec<Vec<String>> {
    m.queued_commands().iter().map(|c| c.args().clone()).collect()
}

#[test]
fn a_command_message_queues_what_its_method_queues() {
    let mut by_msg = model();
    let step = by_msg.handle_msg(Message::Abandon { mode: AbandonMode::RetainBookmarks }, "", Vec::new());
    assert!(matches!(step, MsgStep::Done));
    let mut by_call = model();
    by_call.jj_abandon(AbandonMode::RetainBookmarks);
    assert_eq!(queued_args(&by_msg), queued_args(&by_call));
    assert_eq!(queued_args(&by_msg), vec![vec!["abandon", "--retain-bookmarks", "aaaa"]]);
}

#[test]
fn navigation_messages_move_the_selection() {
    let mut m = model();
    assert!(matches!(m.handle_msg(Message::SelectNextNode, "", Vec::new()), MsgStep::Done));
    assert_eq!(m.log_list_selected, 1);
    assert!(matches!(m.handle_msg(Message::SelectNextNode, "", Vec::new()), MsgStep::Done));
    assert_eq!(m.log_list_selected, 1);
    assert!(matches!(m.handle_msg(Message::SelectPrevNode, "", Vec::new()), MsgStep::Done));
    assert_eq!(m.log_list_selected, 0);
}

#[test]
fn outside_work_is_left_to_the_caller() {
    let mut m = model();
    assert!(matches!(m.handle_msg(Message::Refresh, "", Vec::new()), MsgStep::Refresh));
    assert!(matches!(m.handle_msg(Message::Open, "", Vec::new()), MsgStep::OpenFile));
    assert!(matches!(m.handle_msg(Message::ToggleLogListFold, "", Vec::new()), MsgStep::Unavailable));
    assert!(matches!(m.handle_msg(Message::WorkspaceList, "", Vec::new()), MsgStep::Unavailable));
    assert!(m.queued_commands().is_empty());
    assert_eq!(m.state, State::Running);
}

#[test]
fn listings_are_asked_for_the_finders_that_offer_them() {
    let m = model();
    assert_eq!(m.listing_for(&Message::BookmarkDelete), Some(Listing::BookmarkNames));
    assert_eq!(m.listing_for(&Message::BookmarkTrack), Some(Listing::UntrackedRemoteBookmarks));
    assert_eq!(m.listing_for(&Message::BookmarkUntrack), Some(Listing::TrackedRemoteBookmarks));
    assert_eq!(m.listing_for(&Message::EditTarget), Some(Listing::RevisionTargets));
    assert_eq!(m.listing_for(&Message::FileTrack), Some(Listing::Files));
    assert_eq!(
        m.listing_for(&Message::GitFetch { mode: GitFetchMode::Remote }),
        Some(Listing::GitRemotes)
    );
    assert_eq!(m.listing_for(&Message::GitFetch { mode: GitFetchMode::AllRemotes }), None);
    assert_eq!(
        m.listing_for(&Message::GitPush { mode: GitPushMode::Bookmark }),
        Some(Listing::BookmarkNames)
    );
    assert_eq!(m.listing_for(&Message::GitPush { mode: GitPushMode::Change }), None);
    assert_eq!(
        m.listing_for(&Message::BookmarkSet { mode: BookmarkSetMode::Default }),
        Some(Listing::BookmarkNames)
    );
    assert_eq!(m.listing_for(&Message::Abandon { mode: AbandonMode::Default }), None);
}

#[test]
fn a_listing_becomes_the_finders_candidates() {
    let mut m = model();
    let names = vec!["main".to_string(), "feature".to_string()];
    assert!(matches!(m.handle_msg(Message::BookmarkDelete, "", names), MsgStep::Done));
    assert_eq!(m.state, State::EnteringText);
    let session = m.text_input.as_ref().unwrap();
    assert_eq!(session.prompt, "Bookmark delete");
    let finder = session.fuzzy.as_ref().unwrap();
    let shown: Vec<&str> = finder.candidates.iter().map(|c| c.display.as_str()).collect();
    assert_eq!(shown, vec!["main", "feature"]);
}

#[test]
fn a_revset_choice_is_handed_back() {
    let mut m = model();
    let step = m.handle_msg(Message::SetRevset { mode: SetRevsetMode::All }, "", Vec::new());
    match step {
        MsgStep::Applied(ApplyOutcome::SyncRevset { previous }) => assert_eq!(previous, "@"),
        other => panic!("unexpected {other:?}"),
    }
    assert_eq!(m.revset, "all()");
}

#[test]
fn readiness_of_scrolling_and_help() {
    let m = model();
    assert!(m.can_handle(&Message::ScrollDown));
    assert!(m.can_handle(&Message::ShowHelp));
    assert!(m.can_handle(&Message::Quit));
    let mut far = model();
    far.set_list_offset(2);
    assert!(!far.can_handle(&Message::ScrollUp));
    assert!(far.can_handle(&Message::SelectNextNode));
}

fn node_without_commit() -> LogListEntry {
    LogListEntry {
        line_count: 1,
        tree_position: vec![0],
        commit_node: false,
        commit: None,
        file_path: None,
    }
}

#[test]
fn a_number_typed_into_the_select_prompt_is_selected_as_given() {
    let mut m = Model::new("/r".to_string(), "@".to_string(), None);
    m.set_log_list(vec![node_without_commit(), node_without_commit()], 0);
    assert!(matches!(m.handle_msg(Message::SelectInRevset, "", Vec::new()), MsgStep::Done));
    assert_eq!(m.state, State::EnteringText);
    assert!(m.text_input.as_ref().unwrap().fuzzy.is_none());
    let step = m.handle_msg(Message::SubmitTextInput, "7", Vec::new());
    assert!(matches!(step, MsgStep::Applied(ApplyOutcome::Done)));
    assert_eq!(m.log_selected(), 7);
    assert!(!m.is_wf());
    m.clamp_selection();
    assert_eq!(m.log_selected(), 1);
    assert!(m.is_wf());
}

#[test]
fn a_right_click_selects_without_folding() {
    let mut m = model();
    m.log_list_layout = majjit::model::Area { x: 0, y: 0, width: 80, height: 10 };
    let step = m.handle_msg(Message::RightMouseClick { row: 1, column: 3 }, "", Vec::new());
    assert!(matches!(step, MsgStep::ClickedWithoutFold));
    assert_eq!(m.log_selected(), 1);
}
