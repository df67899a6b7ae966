//! The `jj` command lines the interface runs, and what it makes of a finished
//! process: the text it shows, or the error it reports.
use crate::ansi::{strip_non_style_ansi, stripped};
use crate::styled::{LineView, SpanView, StyledLine, StyledSpan, TextColor, spans_view};
use vstd::prelude::*;
use vstd::utf8::{decode_utf8, valid_utf8};

verus! {

broadcast use vstd::string::group_string_axioms;

/// The template that prints, for each revision, its short change id, its short
/// commit id, its local bookmarks and its remote bookmarks other than git's.
pub const LOG_TARGETS_TEMPLATE: &'static str = r#"change_id.shortest(8) ++ "\n" ++ commit_id.shortest(8) ++ "\n" ++ local_bookmarks.map(|b| b.name()).join("\n") ++ "\n" ++ remote_bookmarks.filter(|b| b.remote() != "git").map(|b| b.name() ++ "@" ++ b.remote()).join("\n") ++ "\n""#;

/// The template that prints one bookmark name per line.
pub const BOOKMARK_NAME_TEMPLATE: &'static str = r#"name ++ "\n""#;

/// The template that prints each remote bookmark as `name@remote`.
pub const TRACKED_REMOTE_TEMPLATE: &'static str = r#"if(remote, name ++ "@" ++ remote ++ "\n")"#;

/// The template that prints each untracked remote bookmark as `name@remote`.
pub const UNTRACKED_REMOTE_TEMPLATE: &'static str = r#"if(remote && !tracked, name ++ "@" ++ remote ++ "\n")"#;

/// Keeps the built-in pager, which takes the whole terminal.
pub const PAGER_CONFIG: &'static str = "ui.pager=:builtin";

/// Clears the pager's output when it exits.
pub const STREAMPAGER_CONFIG: &'static str = "ui.streampager.interface=full-screen-clear-output";

/// Prints change ids as short as commit ids.
pub const SHORT_CHANGE_ID_CONFIG: &'static str = "template-aliases.\"format_short_change_id(id)\"=format_short_id(id)";

/// Prints ids in their shortest unique form, at least eight characters long.
pub const SHORT_ID_CONFIG: &'static str = "template-aliases.\"format_short_id(id)\"=id.shortest(8)";

/// Prints signatures by email.
pub const SHORT_SIGNATURE_CONFIG: &'static str = r#"template-aliases."format_short_signature(signature)"="coalesce(signature.email(), email_placeholder)""#;

/// Prints timestamps in local time to the second.
pub const TIMESTAMP_CONFIG: &'static str = r#"template-aliases."format_timestamp(timestamp)"='timestamp.local().format("%Y-%m-%d %H:%M:%S")'"#;

/// Draws the log graph's nodes with the symbols the log view reads.
pub const LOG_NODE_CONFIG: &'static str = r#"templates.log_node=
                coalesce(
                  if(!self, label("elided", "~")),
                  label(
                    separate(" ",
                      if(current_working_copy, "working_copy"),
                      if(immutable, "immutable"),
                      if(conflict, "conflict"),
                    ),
                    coalesce(
                      if(current_working_copy, "@"),
                      if(root, "┴"),
                      if(immutable, "●"),
                      if(conflict, "⊗"),
                      "○",
                    )
                  )
                )
            "#;

/// The options that every `jj` invocation gets.
#[derive(Debug)]
pub struct GlobalArgs {
    pub repository: String,
    pub ignore_immutable: bool,
}

/// The plain-value view of [`GlobalArgs`].
pub struct GlobalArgsView {
    pub repository: Seq<char>,
    pub ignore_immutable: bool,
}

impl View for GlobalArgs {
    type V = GlobalArgsView;

    open spec fn view(&self) -> GlobalArgsView {
        GlobalArgsView { repository: self.repository@, ignore_immutable: self.ignore_immutable }
    }
}

impl Clone for GlobalArgs {
    fn clone(&self) -> (r: Self)
        ensures
            r@ == self@,
    {
        GlobalArgs { repository: self.repository.clone(), ignore_immutable: self.ignore_immutable }
    }
}

/// Which stream of a finished command is its result.
#[derive(Debug, Clone, Copy, PartialEq, Eq, Structural)]
pub enum ReturnOutput {
    Stdout,
    Stderr,
}

/// A `jj` command waiting to run.
#[derive(Debug)]
pub struct JjCommand {
    args: Vec<String>,
    global_args: GlobalArgs,
    interactive: bool,
    return_output: ReturnOutput,
    pub sync: bool,
    color: bool,
}

/// The plain-value view of a [`JjCommand`]: its arguments after the global
/// options, whether it takes over the terminal, which stream is its result,
/// whether the log is reloaded after it, and whether it prints in colour.
pub struct JjCommandView {
    pub args: Seq<Seq<char>>,
    pub global_args: GlobalArgsView,
    pub interactive: bool,
    pub return_output: ReturnOutput,
    pub sync: bool,
    pub color: bool,
}

impl JjCommandView {
    /// A coloured command after which the log is reloaded.
    pub open spec fn standard(
        args: Seq<Seq<char>>,
        global_args: GlobalArgsView,
        interactive: bool,
        return_output: ReturnOutput,
    ) -> Self {
        JjCommandView { args, global_args, interactive, return_output, sync: true, color: true }
    }

    /// A coloured command that changes nothing, so the log is not reloaded.
    pub open spec fn skip_sync(
        args: Seq<Seq<char>>,
        global_args: GlobalArgsView,
        interactive: bool,
        return_output: ReturnOutput,
    ) -> Self {
        JjCommandView { args, global_args, interactive, return_output, sync: false, color: true }
    }

    /// A command whose plain output the interface reads.
    pub open spec fn no_color(
        args: Seq<Seq<char>>,
        global_args: GlobalArgsView,
        return_output: ReturnOutput,
    ) -> Self {
        JjCommandView {
            args,
            global_args,
            interactive: false,
            return_output,
            sync: false,
            color: false,
        }
    }
}

impl View for JjCommand {
    type V = JjCommandView;

    closed spec fn view(&self) -> JjCommandView {
        JjCommandView {
            args: self.args.deep_view(),
            global_args: self.global_args@,
            interactive: self.interactive,
            return_output: self.return_output,
            sync: self.sync,
            color: self.color,
        }
    }
}

/// The views of a slice of strings.
pub open spec fn str_views(parts: Seq<&str>) -> Seq<Seq<char>> {
    parts.map_values(|p: &str| p@)
}

/// The view of an optional string.
pub open spec fn opt_view(arg: Option<&str>) -> Option<Seq<char>> {
    match arg {
        Some(a) => Some(a@),
        None => None,
    }
}

/// One argument where there is one, none otherwise.
pub open spec fn optional_arg(arg: Option<Seq<char>>) -> Seq<Seq<char>> {
    match arg {
        Some(a) => seq![a],
        None => seq![],
    }
}

/// Appends `arg` to `args`.
fn push_arg(args: &mut Vec<String>, arg: &str)
    ensures
        final(args).deep_view() == old(args).deep_view().push(arg@),
{
    args.push(String::from_str(arg));
    assert(args.deep_view() =~= old(args).deep_view().push(arg@));
}

/// Appends `arg` to `args` where there is one.
fn push_optional_arg(args: &mut Vec<String>, arg: Option<&str>)
    ensures
        final(args).deep_view() == old(args).deep_view() + optional_arg(opt_view(arg)),
{
    match arg {
        Some(a) => push_arg(args, a),
        None => {
            assert(args.deep_view() =~= old(args).deep_view() + optional_arg(opt_view(arg)));
        },
    }
}

/// Appends each of `parts` to `args`, in order.
fn push_args(args: &mut Vec<String>, parts: &[&str])
    ensures
        final(args).deep_view() == old(args).deep_view() + str_views(parts@),
{
    for i in 0..parts.len()
        invariant
            args.deep_view() == old(args).deep_view() + str_views(parts@.take(i as int)),
    {
        push_arg(args, parts[i]);
        assert(str_views(parts@.take(i + 1)) =~= str_views(parts@.take(i as int)).push(
            parts@[i as int]@,
        ));
        assert(args.deep_view() =~= old(args).deep_view() + str_views(parts@.take(i + 1)));
    }
    assert(parts@.take(parts@.len() as int) =~= parts@);
}

/// The options that come before a command's own arguments.
pub open spec fn base_args(color: bool, repository: Seq<char>) -> Seq<Seq<char>> {
    seq![
        "--color"@,
        if color {
            "always"@
        } else {
            "never"@
        },
        "--config"@,
        PAGER_CONFIG@,
        "--config"@,
        STREAMPAGER_CONFIG@,
        "--config"@,
        SHORT_CHANGE_ID_CONFIG@,
        "--config"@,
        SHORT_ID_CONFIG@,
        "--config"@,
        SHORT_SIGNATURE_CONFIG@,
        "--config"@,
        TIMESTAMP_CONFIG@,
        "--config"@,
        LOG_NODE_CONFIG@,
        "--repository"@,
        repository,
    ]
}

/// The whole argument list `jj` gets for `cmd`.
pub open spec fn command_line_of(cmd: JjCommandView) -> Seq<Seq<char>> {
    base_args(cmd.color, cmd.global_args.repository) + (if cmd.global_args.ignore_immutable {
        seq!["--ignore-immutable"@]
    } else {
        seq![]
    }) + cmd.args
}

/// The command of [`JjCommand::jj_log`].
pub open spec fn jj_log_view(revset: Seq<char>, global_args: GlobalArgsView) -> JjCommandView {
    JjCommandView::standard(seq!["log"@, "--template"@, "builtin_log_compact"@, "--revisions"@, revset], global_args, false, ReturnOutput::Stdout)
}

/// The command of [`JjCommand::jj_log_targets`].
pub open spec fn jj_log_targets_view(revset: Seq<char>, global_args: GlobalArgsView) -> JjCommandView {
    JjCommandView::no_color(seq!["log"@, "--no-graph"@, "--revisions"@, revset, "-T"@, LOG_TARGETS_TEMPLATE@], global_args, ReturnOutput::Stdout)
}

/// The command of [`JjCommand::jj_diff_summary`].
pub open spec fn jj_diff_summary_view(change_id: Seq<char>, global_args: GlobalArgsView) -> JjCommandView {
    JjCommandView::standard(seq!["diff"@, "--summary"@, "--revisions"@, change_id], global_args, false, ReturnOutput::Stdout)
}

/// The command of [`JjCommand::jj_diff_file`].
pub open spec fn jj_diff_file_view(change_id: Seq<char>, file: Seq<char>, global_args: GlobalArgsView) -> JjCommandView {
    JjCommandView::standard(seq!["diff"@, "--color-words"@, "--revisions"@, change_id, file], global_args, false, ReturnOutput::Stdout)
}

/// The command of [`JjCommand::jj_diff_file_interactive`].
pub open spec fn jj_diff_file_interactive_view(change_id: Seq<char>, file: Seq<char>, global_args: GlobalArgsView) -> JjCommandView {
    JjCommandView::skip_sync(seq!["diff"@, "--revisions"@, change_id, file], global_args, true, ReturnOutput::Stderr)
}

/// The command of [`JjCommand::jj_diff_from_to_interactive`].
pub open spec fn jj_diff_from_to_interactive_view(from: Seq<char>, to: Seq<char>, file: Option<Seq<char>>, global_args: GlobalArgsView) -> JjCommandView {
    JjCommandView::skip_sync(seq!["diff"@, "--from"@, from, "--to"@, to] + optional_arg(file), global_args, true, ReturnOutput::Stderr)
}

/// The command of [`JjCommand::jj_describe`].
pub open spec fn jj_describe_view(change_id: Seq<char>, global_args: GlobalArgsView) -> JjCommandView {
    JjCommandView::standard(seq!["describe"@, change_id], global_args, true, ReturnOutput::Stderr)
}

/// The command of [`JjCommand::jj_describe_with_message`].
pub open spec fn jj_describe_with_message_view(change_id: Seq<char>, message: Seq<char>, global_args: GlobalArgsView) -> JjCommandView {
    JjCommandView::standard(seq!["describe"@, change_id, "-m"@, message], global_args, false, ReturnOutput::Stderr)
}

/// The command of [`JjCommand::jj_duplicate`].
pub open spec fn jj_duplicate_view(change_id: Seq<char>, destination_type: Option<Seq<char>>, destination: Option<Seq<char>>, global_args: GlobalArgsView) -> JjCommandView {
    JjCommandView::standard(seq!["duplicate"@, change_id] + (match (destination_type, destination) { (Some(a), Some(b)) => seq![a, b], _ => seq![] }), global_args, false, ReturnOutput::Stderr)
}

/// The command of [`JjCommand::jj_new`].
pub open spec fn jj_new_view(target: Seq<char>, flags: Seq<Seq<char>>, global_args: GlobalArgsView) -> JjCommandView {
    JjCommandView::standard(seq!["new"@] + flags + seq![target], global_args, false, ReturnOutput::Stderr)
}

/// The command of [`JjCommand::jj_parallelize`].
pub open spec fn jj_parallelize_view(revset: Seq<char>, global_args: GlobalArgsView) -> JjCommandView {
    JjCommandView::standard(seq!["parallelize"@, revset], global_args, false, ReturnOutput::Stderr)
}

/// The command of [`JjCommand::jj_next_prev`].
pub open spec fn jj_next_prev_view(direction: Seq<char>, mode: Option<Seq<char>>, offset: Option<Seq<char>>, global_args: GlobalArgsView) -> JjCommandView {
    JjCommandView::standard(seq![direction] + optional_arg(mode) + optional_arg(offset), global_args, false, ReturnOutput::Stderr)
}

/// The command of [`JjCommand::jj_abandon`].
pub open spec fn jj_abandon_view(change_id: Seq<char>, mode: Option<Seq<char>>, global_args: GlobalArgsView) -> JjCommandView {
    JjCommandView::standard(seq!["abandon"@] + optional_arg(mode) + seq![change_id], global_args, false, ReturnOutput::Stderr)
}

/// The command of [`JjCommand::jj_absorb`].
pub open spec fn jj_absorb_view(from_change_id: Seq<char>, maybe_into_change_id: Option<Seq<char>>, maybe_file_path: Option<Seq<char>>, global_args: GlobalArgsView) -> JjCommandView {
    JjCommandView::standard(seq!["absorb"@, "--from"@, from_change_id] + (match maybe_into_change_id { Some(into) => seq!["--into"@, into], None => seq![] }) + optional_arg(maybe_file_path), global_args, false, ReturnOutput::Stderr)
}

/// The command of [`JjCommand::jj_revert`].
pub open spec fn jj_revert_view(revision: Seq<char>, destination_type: Seq<char>, destination: Seq<char>, global_args: GlobalArgsView) -> JjCommandView {
    JjCommandView::standard(seq!["revert"@, "-r"@, revision, destination_type, destination], global_args, false, ReturnOutput::Stderr)
}

/// The command of [`JjCommand::jj_sign`].
pub open spec fn jj_sign_view(action: Seq<char>, revset: Seq<char>, global_args: GlobalArgsView) -> JjCommandView {
    JjCommandView::standard(seq![action, "-r"@, revset], global_args, false, ReturnOutput::Stderr)
}

/// The command of [`JjCommand::jj_show`].
pub open spec fn jj_show_view(change_id: Seq<char>, global_args: GlobalArgsView) -> JjCommandView {
    JjCommandView::skip_sync(seq!["show"@, change_id], global_args, true, ReturnOutput::Stderr)
}

/// The command of [`JjCommand::jj_status`].
pub open spec fn jj_status_view(global_args: GlobalArgsView) -> JjCommandView {
    JjCommandView::skip_sync(seq!["status"@], global_args, true, ReturnOutput::Stderr)
}

/// The command of [`JjCommand::jj_simplify_parents`].
pub open spec fn jj_simplify_parents_view(revision: Seq<char>, mode: Seq<char>, global_args: GlobalArgsView) -> JjCommandView {
    JjCommandView::standard(seq!["simplify-parents"@, mode, revision], global_args, false, ReturnOutput::Stderr)
}

/// The command of [`JjCommand::jj_undo`].
pub open spec fn jj_undo_view(global_args: GlobalArgsView) -> JjCommandView {
    JjCommandView::standard(seq!["undo"@], global_args, false, ReturnOutput::Stderr)
}

/// The command of [`JjCommand::jj_redo`].
pub open spec fn jj_redo_view(global_args: GlobalArgsView) -> JjCommandView {
    JjCommandView::standard(seq!["redo"@], global_args, false, ReturnOutput::Stderr)
}

/// The command of [`JjCommand::jj_commit`].
pub open spec fn jj_commit_view(maybe_file_path: Option<Seq<char>>, global_args: GlobalArgsView) -> JjCommandView {
    JjCommandView::standard(seq!["commit"@] + optional_arg(maybe_file_path), global_args, true, ReturnOutput::Stderr)
}

/// The command of [`JjCommand::jj_rebase`].
pub open spec fn jj_rebase_view(source_type: Seq<char>, source: Seq<char>, destination_type: Seq<char>, destination: Seq<char>, global_args: GlobalArgsView) -> JjCommandView {
    JjCommandView::standard(seq!["rebase"@, source_type, source, destination_type, destination], global_args, false, ReturnOutput::Stderr)
}

/// The command of [`JjCommand::jj_resolve`].
pub open spec fn jj_resolve_view(change_id: Seq<char>, maybe_file_path: Option<Seq<char>>, global_args: GlobalArgsView) -> JjCommandView {
    JjCommandView::standard(seq!["resolve"@, "-r"@, change_id] + optional_arg(maybe_file_path), global_args, true, ReturnOutput::Stderr)
}

/// The command of [`JjCommand::jj_restore`].
pub open spec fn jj_restore_view(flags: Seq<Seq<char>>, maybe_file_path: Option<Seq<char>>, global_args: GlobalArgsView) -> JjCommandView {
    JjCommandView::standard(seq!["restore"@] + flags + optional_arg(maybe_file_path), global_args, false, ReturnOutput::Stderr)
}

/// The command of [`JjCommand::jj_squash_noninteractive`].
pub open spec fn jj_squash_noninteractive_view(change_id: Seq<char>, maybe_file_path: Option<Seq<char>>, global_args: GlobalArgsView) -> JjCommandView {
    JjCommandView::standard(seq!["squash"@, "--revision"@, change_id] + optional_arg(maybe_file_path), global_args, false, ReturnOutput::Stderr)
}

/// The command of [`JjCommand::jj_squash_interactive`].
pub open spec fn jj_squash_interactive_view(change_id: Seq<char>, maybe_file_path: Option<Seq<char>>, global_args: GlobalArgsView) -> JjCommandView {
    JjCommandView::standard(seq!["squash"@, "--revision"@, change_id] + optional_arg(maybe_file_path), global_args, true, ReturnOutput::Stderr)
}

/// The command of [`JjCommand::jj_squash_into_interactive`].
pub open spec fn jj_squash_into_interactive_view(from_change_id: Seq<char>, into_change_id: Seq<char>, maybe_file_path: Option<Seq<char>>, global_args: GlobalArgsView) -> JjCommandView {
    JjCommandView::standard(seq!["squash"@, "--from"@, from_change_id, "--into"@, into_change_id] + optional_arg(maybe_file_path), global_args, true, ReturnOutput::Stderr)
}

/// The command of [`JjCommand::jj_edit`].
pub open spec fn jj_edit_view(change_id: Seq<char>, global_args: GlobalArgsView) -> JjCommandView {
    JjCommandView::standard(seq!["edit"@, change_id], global_args, false, ReturnOutput::Stderr)
}

/// The command of [`JjCommand::jj_evolog`].
pub open spec fn jj_evolog_view(change_id: Seq<char>, patch: bool, global_args: GlobalArgsView) -> JjCommandView {
    JjCommandView::skip_sync(seq!["evolog"@, "-r"@, change_id] + (if patch { seq!["--patch"@] } else { seq![] }), global_args, true, ReturnOutput::Stderr)
}

/// The command of [`JjCommand::jj_interdiff`].
pub open spec fn jj_interdiff_view(from: Seq<char>, to: Seq<char>, maybe_file_path: Option<Seq<char>>, global_args: GlobalArgsView) -> JjCommandView {
    JjCommandView::skip_sync(seq!["interdiff"@, "--from"@, from, "--to"@, to] + optional_arg(maybe_file_path), global_args, true, ReturnOutput::Stderr)
}

/// The command of [`JjCommand::jj_file_list`].
pub open spec fn jj_file_list_view(global_args: GlobalArgsView) -> JjCommandView {
    JjCommandView::no_color(seq!["file"@, "list"@], global_args, ReturnOutput::Stdout)
}

/// The command of [`JjCommand::jj_file_show`].
pub open spec fn jj_file_show_view(change_id: Seq<char>, file_path: Seq<char>, global_args: GlobalArgsView) -> JjCommandView {
    JjCommandView::no_color(seq!["file"@, "show"@, "--revision"@, change_id, file_path], global_args, ReturnOutput::Stdout)
}

/// The command of [`JjCommand::jj_file_track`].
pub open spec fn jj_file_track_view(file_path: Seq<char>, global_args: GlobalArgsView) -> JjCommandView {
    JjCommandView::standard(seq!["file"@, "track"@, file_path], global_args, false, ReturnOutput::Stderr)
}

/// The command of [`JjCommand::jj_file_untrack`].
pub open spec fn jj_file_untrack_view(file_path: Seq<char>, global_args: GlobalArgsView) -> JjCommandView {
    JjCommandView::standard(seq!["file"@, "untrack"@, file_path], global_args, false, ReturnOutput::Stderr)
}

/// The command of [`JjCommand::jj_metaedit`].
pub open spec fn jj_metaedit_view(change_id: Seq<char>, flag: Seq<char>, value: Option<Seq<char>>, global_args: GlobalArgsView) -> JjCommandView {
    JjCommandView::standard(seq!["metaedit"@, flag] + optional_arg(value) + seq![change_id], global_args, false, ReturnOutput::Stderr)
}

/// The command of [`JjCommand::jj_git_fetch`].
pub open spec fn jj_git_fetch_view(flag: Option<Seq<char>>, value: Option<Seq<char>>, global_args: GlobalArgsView) -> JjCommandView {
    JjCommandView::standard(seq!["git"@, "fetch"@] + optional_arg(flag) + optional_arg(value), global_args, false, ReturnOutput::Stderr)
}

/// The command of [`JjCommand::jj_git_push`].
pub open spec fn jj_git_push_view(flag: Option<Seq<char>>, value: Option<Seq<char>>, global_args: GlobalArgsView) -> JjCommandView {
    JjCommandView::standard(seq!["git"@, "push"@] + optional_arg(flag) + optional_arg(value), global_args, false, ReturnOutput::Stderr)
}

/// The command of [`JjCommand::jj_git_remote_list`].
pub open spec fn jj_git_remote_list_view(global_args: GlobalArgsView) -> JjCommandView {
    JjCommandView::skip_sync(seq!["git"@, "remote"@, "list"@], global_args, false, ReturnOutput::Stdout)
}

/// The command of [`JjCommand::jj_bookmark_create`].
pub open spec fn jj_bookmark_create_view(bookmark_names: Seq<char>, change_id: Seq<char>, global_args: GlobalArgsView) -> JjCommandView {
    JjCommandView::standard(seq!["bookmark"@, "create"@, "--revision"@, change_id, bookmark_names], global_args, false, ReturnOutput::Stderr)
}

/// The command of [`JjCommand::jj_bookmark_delete`].
pub open spec fn jj_bookmark_delete_view(bookmark_names: Seq<char>, global_args: GlobalArgsView) -> JjCommandView {
    JjCommandView::standard(seq!["bookmark"@, "delete"@, bookmark_names], global_args, false, ReturnOutput::Stderr)
}

/// The command of [`JjCommand::jj_bookmark_forget`].
pub open spec fn jj_bookmark_forget_view(bookmark_names: Seq<char>, include_remotes: bool, global_args: GlobalArgsView) -> JjCommandView {
    JjCommandView::standard(seq!["bookmark"@, "forget"@] + (if include_remotes { seq!["--include-remotes"@] } else { seq![] }) + seq![bookmark_names], global_args, false, ReturnOutput::Stderr)
}

/// The command of [`JjCommand::jj_bookmark_list_all_names`].
pub open spec fn jj_bookmark_list_all_names_view(global_args: GlobalArgsView) -> JjCommandView {
    JjCommandView::skip_sync(seq!["bookmark"@, "list"@, "--all-remotes"@, "-T"@, BOOKMARK_NAME_TEMPLATE@], global_args, false, ReturnOutput::Stdout)
}

/// The command of [`JjCommand::jj_bookmark_list_tracked_remote`].
pub open spec fn jj_bookmark_list_tracked_remote_view(global_args: GlobalArgsView) -> JjCommandView {
    JjCommandView::no_color(seq!["bookmark"@, "list"@, "--tracked"@, "-T"@, TRACKED_REMOTE_TEMPLATE@], global_args, ReturnOutput::Stdout)
}

/// The command of [`JjCommand::jj_bookmark_list_untracked_remote`].
pub open spec fn jj_bookmark_list_untracked_remote_view(global_args: GlobalArgsView) -> JjCommandView {
    JjCommandView::no_color(seq!["bookmark"@, "list"@, "--all-remotes"@, "-T"@, UNTRACKED_REMOTE_TEMPLATE@], global_args, ReturnOutput::Stdout)
}

/// The command of [`JjCommand::jj_bookmark_move`].
pub open spec fn jj_bookmark_move_view(from_change_id: Seq<char>, to_change_id: Seq<char>, allow_backwards: bool, global_args: GlobalArgsView) -> JjCommandView {
    JjCommandView::standard(seq!["bookmark"@, "move"@, "--from"@, from_change_id, "--to"@, to_change_id] + (if allow_backwards { seq!["--allow-backwards"@] } else { seq![] }), global_args, false, ReturnOutput::Stderr)
}

/// The command of [`JjCommand::jj_bookmark_rename`].
pub open spec fn jj_bookmark_rename_view(old_bookmark_name: Seq<char>, new_bookmark_name: Seq<char>, global_args: GlobalArgsView) -> JjCommandView {
    JjCommandView::standard(seq!["bookmark"@, "rename"@, old_bookmark_name, new_bookmark_name], global_args, false, ReturnOutput::Stderr)
}

/// The command of [`JjCommand::jj_bookmark_set`].
pub open spec fn jj_bookmark_set_view(bookmark_names: Seq<char>, change_id: Seq<char>, global_args: GlobalArgsView) -> JjCommandView {
    JjCommandView::standard(seq!["bookmark"@, "set"@, bookmark_names, "--revision"@, change_id], global_args, false, ReturnOutput::Stderr)
}

/// The command of [`JjCommand::jj_bookmark_track`].
pub open spec fn jj_bookmark_track_view(bookmark_at_remote: Seq<char>, global_args: GlobalArgsView) -> JjCommandView {
    JjCommandView::standard(seq!["bookmark"@, "track"@, bookmark_at_remote], global_args, false, ReturnOutput::Stderr)
}

/// The command of [`JjCommand::jj_bookmark_untrack`].
pub open spec fn jj_bookmark_untrack_view(bookmark_at_remote: Seq<char>, global_args: GlobalArgsView) -> JjCommandView {
    JjCommandView::standard(seq!["bookmark"@, "untrack"@, bookmark_at_remote], global_args, false, ReturnOutput::Stderr)
}

/// The lines that announce `cmd`: a prompt with `jj` and its arguments
/// joined by spaces, then a blank line of no spans.
pub open spec fn command_lines(cmd: JjCommandView) -> Seq<LineView> {
    seq![
        LineView::Spans(
            seq![
                SpanView { content: "❯"@, color: Some(TextColor::Yellow) },
                SpanView { content: " jj "@, color: None },
                SpanView { content: crate::text::join(cmd.args, " "@), color: None },
            ],
        ),
        LineView::Spans(Seq::empty()),
    ]
}

/// What a finished `jj` process printed.
#[derive(Debug)]
pub struct JjCommandOutput {
    pub stdout: String,
    pub stderr: String,
}

/// The error of a `jj` command that ran and failed, or that could not run.
#[derive(Debug)]
pub enum JjCommandError {
    Failed { stderr: String },
    Other { err: anyhow::Error },
}

#[verifier::external_type_specification]
#[verifier::external_body]
pub struct ExAnyhowError(anyhow::Error);

/// What `String::from_utf8_lossy` makes of `bytes`.
pub uninterp spec fn utf8_lossy(bytes: Seq<u8>) -> Seq<char>;

/// Decodes `bytes` as UTF-8 by `String::from_utf8_lossy`, which replaces each
/// invalid sequence by U+FFFD. The contract names the result and states that
/// valid UTF-8 decodes to the characters it encodes.
#[verifier::external_body]
fn decode_lossy(bytes: &[u8]) -> (s: String)
    ensures
        s@ == utf8_lossy(bytes@),
        valid_utf8(bytes@) ==> s@ == decode_utf8(bytes@),
{
    String::from_utf8_lossy(bytes).into_owned()
}

/// The text of an error that did not come from `jj`, as `anyhow::Error`
/// displays it. Nothing is stated of it: the error is opaque here.
#[verifier::external_body]
fn other_error_text(err: &anyhow::Error) -> String {
    format!("{}", err)
}

impl JjCommandError {
    /// The failure of a command that printed `stderr`, trimmed.
    pub fn new_failed(stderr: String) -> (e: Self)
        ensures
            e matches JjCommandError::Failed { stderr: s } && s@ == crate::text::trim(stderr@),
    {
        JjCommandError::Failed { stderr: crate::text::trimmed(stderr.as_str()) }
    }

    /// A command that could not run, or whose terminal could not be handed over.
    pub fn new_other(err: anyhow::Error) -> (e: Self)
        ensures
            e == (JjCommandError::Other { err }),
    {
        JjCommandError::Other { err }
    }

    /// The text the error is shown as: what the failed command printed, or the
    /// description of the other error.
    pub fn message(&self) -> (s: String)
        ensures
            self matches JjCommandError::Failed { stderr } ==> s@ == stderr@,
    {
        match self {
            JjCommandError::Failed { stderr } => stderr.clone(),
            JjCommandError::Other { err } => other_error_text(err),
        }
    }
}

impl JjCommand {
    /// A coloured command after which the log is reloaded.
    fn new(
        args: Vec<String>,
        global_args: GlobalArgs,
        interactive: bool,
        return_output: ReturnOutput,
    ) -> (cmd: Self)
        ensures
            cmd@ == JjCommandView::standard(args.deep_view(), global_args@, interactive, return_output),
    {
        JjCommand { args, global_args, interactive, return_output, sync: true, color: true }
    }

    /// A coloured command after which the log is not reloaded.
    fn new_skip_sync(
        args: Vec<String>,
        global_args: GlobalArgs,
        interactive: bool,
        return_output: ReturnOutput,
    ) -> (cmd: Self)
        ensures
            cmd@ == JjCommandView::skip_sync(args.deep_view(), global_args@, interactive, return_output),
    {
        JjCommand { args, global_args, interactive, return_output, sync: false, color: true }
    }

    /// A command whose plain output is read.
    fn new_no_color(args: Vec<String>, global_args: GlobalArgs, return_output: ReturnOutput) -> (cmd: Self)
        ensures
            cmd@ == JjCommandView::no_color(args.deep_view(), global_args@, return_output),
    {
        JjCommand { args, global_args, interactive: false, return_output, sync: false, color: false }
    }

    /// The command's own arguments, after the global options.
    pub fn args(&self) -> (a: &Vec<String>)
        ensures
            a.deep_view() == self@.args,
    {
        &self.args
    }

    /// Whether the command takes over the terminal while it runs.
    pub fn is_interactive(&self) -> (b: bool)
        ensures
            b == self@.interactive,
    {
        self.interactive
    }

    /// Which stream of the finished command is its result.
    pub fn return_output(&self) -> (r: ReturnOutput)
        ensures
            r == self@.return_output,
    {
        self.return_output
    }

    /// Whether the log is reloaded after the command.
    pub fn is_sync(&self) -> (b: bool)
        ensures
            b == self@.sync,
    {
        self.sync
    }

    /// Whether the command prints in colour.
    pub fn is_color(&self) -> (b: bool)
        ensures
            b == self@.color,
    {
        self.color
    }

    /// The options the command gets.
    pub fn global_args(&self) -> (g: &GlobalArgs)
        ensures
            g@ == self@.global_args,
    {
        &self.global_args
    }

    /// The whole argument list of the `jj` process: the global options, the
    /// flag that allows rewriting immutable revisions where it is set, then the
    /// command's own arguments.
    pub fn command_line(&self) -> (line: Vec<String>)
        ensures
            line.deep_view() == command_line_of(self@),
    {
        let mut line: Vec<String> = Vec::new();
        push_arg(&mut line, "--color");
        push_arg(&mut line, if self.color { "always" } else { "never" });
        push_arg(&mut line, "--config");
        push_arg(&mut line, PAGER_CONFIG);
        push_arg(&mut line, "--config");
        push_arg(&mut line, STREAMPAGER_CONFIG);
        push_arg(&mut line, "--config");
        push_arg(&mut line, SHORT_CHANGE_ID_CONFIG);
        push_arg(&mut line, "--config");
        push_arg(&mut line, SHORT_ID_CONFIG);
        push_arg(&mut line, "--config");
        push_arg(&mut line, SHORT_SIGNATURE_CONFIG);
        push_arg(&mut line, "--config");
        push_arg(&mut line, TIMESTAMP_CONFIG);
        push_arg(&mut line, "--config");
        push_arg(&mut line, LOG_NODE_CONFIG);
        push_arg(&mut line, "--repository");
        push_arg(&mut line, self.global_args.repository.as_str());
        assert(line.deep_view() =~= base_args(self.color, self.global_args.repository@));
        if self.global_args.ignore_immutable {
            push_arg(&mut line, "--ignore-immutable");
        }
        let ghost before = line.deep_view();
        for i in 0..self.args.len()
            invariant
                line.deep_view() == before + self.args.deep_view().take(i as int),
        {
            push_arg(&mut line, self.args[i].as_str());
            assert(self.args.deep_view().take(i + 1) =~= self.args.deep_view().take(
                i as int,
            ).push(self.args[i as int]@));
            assert(line.deep_view() =~= before + self.args.deep_view().take(i + 1));
        }
        assert(self.args.deep_view().take(self.args.len() as int) =~= self.args.deep_view());
        assert(line.deep_view() =~= command_line_of(self@));
        line
    }

    /// The result of a command that ran without the terminal and exited with
    /// `success`, having printed `stdout` and `stderr`: both decoded, or the
    /// failure with what it printed on `stderr`.
    pub fn run_noninteractive(success: bool, stdout: &[u8], stderr: &[u8]) -> (r: Result<
        JjCommandOutput,
        JjCommandError,
    >)
        ensures
            success ==> (r matches Ok(o) && o.stdout@ == utf8_lossy(stdout@) && o.stderr@
                == utf8_lossy(stderr@)),
            !success ==> (r matches Err(JjCommandError::Failed { stderr: s }) && s@
                == crate::text::trim(utf8_lossy(stderr@))),
    {
        let stderr = decode_lossy(stderr);
        if success {
            let stdout = decode_lossy(stdout);
            Ok(JjCommandOutput { stdout, stderr })
        } else {
            Err(JjCommandError::new_failed(stderr))
        }
    }

    /// The result of a command that ran on the terminal and exited with
    /// `success`, having printed `stderr`: its standard error without the
    /// escape sequences that do more than set styles, or the failure.
    pub fn run_interactive(success: bool, stderr: &[u8]) -> (r: Result<
        JjCommandOutput,
        JjCommandError,
    >)
        ensures
            success ==> (r matches Ok(o) && o.stdout@ == Seq::<char>::empty() && o.stderr@
                == stripped(utf8_lossy(stderr@))),
            !success ==> (r matches Err(JjCommandError::Failed { stderr: s }) && s@
                == crate::text::trim(stripped(utf8_lossy(stderr@)))),
    {
        let decoded = decode_lossy(stderr);
        let stderr = strip_non_style_ansi(decoded.as_str());
        if success {
            Ok(JjCommandOutput { stdout: String::new(), stderr })
        } else {
            Err(JjCommandError::new_failed(stderr))
        }
    }

    /// The result of the command, given what running it gave: the stream the
    /// command returns, or the error unchanged.
    pub fn run(&self, output: Result<JjCommandOutput, JjCommandError>) -> (r: Result<
        String,
        JjCommandError,
    >)
        ensures
            output matches Ok(o) ==> (r matches Ok(s) && s@ == (match self@.return_output {
                ReturnOutput::Stdout => o.stdout@,
                ReturnOutput::Stderr => o.stderr@,
            })),
            output matches Err(e) ==> r == Err::<String, JjCommandError>(e),
    {
        match output {
            Ok(o) => match self.return_output {
                ReturnOutput::Stdout => Ok(o.stdout),
                ReturnOutput::Stderr => Ok(o.stderr),
            },
            Err(e) => Err(e),
        }
    }

    /// The lines that announce the command: a prompt with `jj` and its
    /// arguments joined by spaces, then a blank line.
    pub fn to_lines(&self) -> (lines: Vec<StyledLine>)
        ensures
            crate::styled::lines_view(lines@) == command_lines(self@),
    {
        let mut spans: Vec<StyledSpan> = Vec::new();
        spans.push(StyledSpan::styled(String::from_str("❯"), TextColor::Yellow));
        spans.push(StyledSpan::raw(String::from_str(" jj ")));
        spans.push(StyledSpan::raw(crate::text::join_strings(&self.args, " ")));
        let mut lines: Vec<StyledLine> = Vec::new();
        assert(spans_view(spans@) =~= seq![
            SpanView { content: "❯"@, color: Some(TextColor::Yellow) },
            SpanView { content: " jj "@, color: None },
            SpanView { content: crate::text::join(self@.args, " "@), color: None },
        ]);
        lines.push(StyledLine::Spans(spans));
        lines.push(StyledLine::empty());
        assert(crate::styled::lines_view(lines@) =~= command_lines(self@));
        lines
    }

    /// Shows the log of `revset` in the compact template, in colour.
    pub fn jj_log(revset: &str, global_args: GlobalArgs) -> (cmd: Self)
        ensures
            cmd@ == jj_log_view(revset@, global_args@),
    {
        let mut args: Vec<String> = Vec::new();
        push_arg(&mut args, "log");
        push_arg(&mut args, "--template");
        push_arg(&mut args, "builtin_log_compact");
        push_arg(&mut args, "--revisions");
        push_arg(&mut args, revset);
        assert(args.deep_view() =~= jj_log_view(revset@, global_args@).args);
        Self::new(args, global_args, false, ReturnOutput::Stdout)
    }

    /// Lists, for each revision of `revset`, its short change and commit ids, its local bookmarks and its remote bookmarks, one per line.
    pub fn jj_log_targets(revset: &str, global_args: GlobalArgs) -> (cmd: Self)
        ensures
            cmd@ == jj_log_targets_view(revset@, global_args@),
    {
        let mut args: Vec<String> = Vec::new();
        push_arg(&mut args, "log");
        push_arg(&mut args, "--no-graph");
        push_arg(&mut args, "--revisions");
        push_arg(&mut args, revset);
        push_arg(&mut args, "-T");
        push_arg(&mut args, LOG_TARGETS_TEMPLATE);
        assert(args.deep_view() =~= jj_log_targets_view(revset@, global_args@).args);
        Self::new_no_color(args, global_args, ReturnOutput::Stdout)
    }

    /// Summarises the files that `change_id` changes.
    pub fn jj_diff_summary(change_id: &str, global_args: GlobalArgs) -> (cmd: Self)
        ensures
            cmd@ == jj_diff_summary_view(change_id@, global_args@),
    {
        let mut args: Vec<String> = Vec::new();
        push_arg(&mut args, "diff");
        push_arg(&mut args, "--summary");
        push_arg(&mut args, "--revisions");
        push_arg(&mut args, change_id);
        assert(args.deep_view() =~= jj_diff_summary_view(change_id@, global_args@).args);
        Self::new(args, global_args, false, ReturnOutput::Stdout)
    }

    /// Shows the word diff of `file` in `change_id`.
    pub fn jj_diff_file(change_id: &str, file: &str, global_args: GlobalArgs) -> (cmd: Self)
        ensures
            cmd@ == jj_diff_file_view(change_id@, file@, global_args@),
    {
        let mut args: Vec<String> = Vec::new();
        push_arg(&mut args, "diff");
        push_arg(&mut args, "--color-words");
        push_arg(&mut args, "--revisions");
        push_arg(&mut args, change_id);
        push_arg(&mut args, file);
        assert(args.deep_view() =~= jj_diff_file_view(change_id@, file@, global_args@).args);
        Self::new(args, global_args, false, ReturnOutput::Stdout)
    }

    /// Shows the diff of `file` in `change_id` in the pager, on the whole terminal.
    pub fn jj_diff_file_interactive(change_id: &str, file: &str, global_args: GlobalArgs) -> (cmd: Self)
        ensures
            cmd@ == jj_diff_file_interactive_view(change_id@, file@, global_args@),
    {
        let mut args: Vec<String> = Vec::new();
        push_arg(&mut args, "diff");
        push_arg(&mut args, "--revisions");
        push_arg(&mut args, change_id);
        push_arg(&mut args, file);
        assert(args.deep_view() =~= jj_diff_file_interactive_view(change_id@, file@, global_args@).args);
        Self::new_skip_sync(args, global_args, true, ReturnOutput::Stderr)
    }

    /// Shows the diff from `from` to `to`, of `file` alone where one is given, in the pager.
    pub fn jj_diff_from_to_interactive(from: &str, to: &str, file: Option<&str>, global_args: GlobalArgs) -> (cmd: Self)
        ensures
            cmd@ == jj_diff_from_to_interactive_view(from@, to@, opt_view(file), global_args@),
    {
        let mut args: Vec<String> = Vec::new();
        push_arg(&mut args, "diff");
        push_arg(&mut args, "--from");
        push_arg(&mut args, from);
        push_arg(&mut args, "--to");
        push_arg(&mut args, to);
        push_optional_arg(&mut args, file);
        assert(args.deep_view() =~= jj_diff_from_to_interactive_view(from@, to@, opt_view(file), global_args@).args);
        Self::new_skip_sync(args, global_args, true, ReturnOutput::Stderr)
    }

    /// Edits the description of `change_id` in the editor.
    pub fn jj_describe(change_id: &str, global_args: GlobalArgs) -> (cmd: Self)
        ensures
            cmd@ == jj_describe_view(change_id@, global_args@),
    {
        let mut args: Vec<String> = Vec::new();
        push_arg(&mut args, "describe");
        push_arg(&mut args, change_id);
        assert(args.deep_view() =~= jj_describe_view(change_id@, global_args@).args);
        Self::new(args, global_args, true, ReturnOutput::Stderr)
    }

    /// Sets the description of `change_id` to `message`.
    pub fn jj_describe_with_message(change_id: &str, message: &str, global_args: GlobalArgs) -> (cmd: Self)
        ensures
            cmd@ == jj_describe_with_message_view(change_id@, message@, global_args@),
    {
        let mut args: Vec<String> = Vec::new();
        push_arg(&mut args, "describe");
        push_arg(&mut args, change_id);
        push_arg(&mut args, "-m");
        push_arg(&mut args, message);
        assert(args.deep_view() =~= jj_describe_with_message_view(change_id@, message@, global_args@).args);
        Self::new(args, global_args, false, ReturnOutput::Stderr)
    }

    /// Duplicates `change_id`, placed by `destination_type` relative to `destination` where both are given.
    pub fn jj_duplicate(change_id: &str, destination_type: Option<&str>, destination: Option<&str>, global_args: GlobalArgs) -> (cmd: Self)
        ensures
            cmd@ == jj_duplicate_view(change_id@, opt_view(destination_type), opt_view(destination), global_args@),
    {
        let mut args: Vec<String> = Vec::new();
        push_arg(&mut args, "duplicate");
        push_arg(&mut args, change_id);
        if let (Some(a), Some(b)) = (destination_type, destination) { push_arg(&mut args, a); push_arg(&mut args, b); }
        assert(args.deep_view() =~= jj_duplicate_view(change_id@, opt_view(destination_type), opt_view(destination), global_args@).args);
        Self::new(args, global_args, false, ReturnOutput::Stderr)
    }

    /// Creates a new change at `target`, with `flags` before it.
    pub fn jj_new(target: &str, flags: &[&str], global_args: GlobalArgs) -> (cmd: Self)
        ensures
            cmd@ == jj_new_view(target@, str_views(flags@), global_args@),
    {
        let mut args: Vec<String> = Vec::new();
        push_arg(&mut args, "new");
        push_args(&mut args, flags);
        push_arg(&mut args, target);
        assert(args.deep_view() =~= jj_new_view(target@, str_views(flags@), global_args@).args);
        Self::new(args, global_args, false, ReturnOutput::Stderr)
    }

    /// Makes the revisions of `revset` siblings.
    pub fn jj_parallelize(revset: &str, global_args: GlobalArgs) -> (cmd: Self)
        ensures
            cmd@ == jj_parallelize_view(revset@, global_args@),
    {
        let mut args: Vec<String> = Vec::new();
        push_arg(&mut args, "parallelize");
        push_arg(&mut args, revset);
        assert(args.deep_view() =~= jj_parallelize_view(revset@, global_args@).args);
        Self::new(args, global_args, false, ReturnOutput::Stderr)
    }

    /// Moves the working copy in `direction` (`next` or `prev`), with the mode flag and offset where given.
    pub fn jj_next_prev(direction: &str, mode: Option<&str>, offset: Option<&str>, global_args: GlobalArgs) -> (cmd: Self)
        ensures
            cmd@ == jj_next_prev_view(direction@, opt_view(mode), opt_view(offset), global_args@),
    {
        let mut args: Vec<String> = Vec::new();
        push_arg(&mut args, direction);
        push_optional_arg(&mut args, mode);
        push_optional_arg(&mut args, offset);
        assert(args.deep_view() =~= jj_next_prev_view(direction@, opt_view(mode), opt_view(offset), global_args@).args);
        Self::new(args, global_args, false, ReturnOutput::Stderr)
    }

    /// Abandons `change_id`, with the mode flag where given.
    pub fn jj_abandon(change_id: &str, mode: Option<&str>, global_args: GlobalArgs) -> (cmd: Self)
        ensures
            cmd@ == jj_abandon_view(change_id@, opt_view(mode), global_args@),
    {
        let mut args: Vec<String> = Vec::new();
        push_arg(&mut args, "abandon");
        push_optional_arg(&mut args, mode);
        push_arg(&mut args, change_id);
        assert(args.deep_view() =~= jj_abandon_view(change_id@, opt_view(mode), global_args@).args);
        Self::new(args, global_args, false, ReturnOutput::Stderr)
    }

    /// Moves changes from `from_change_id` into the revisions that last touched the lines, or into the given change, limited to the given file.
    pub fn jj_absorb(from_change_id: &str, maybe_into_change_id: Option<&str>, maybe_file_path: Option<&str>, global_args: GlobalArgs) -> (cmd: Self)
        ensures
            cmd@ == jj_absorb_view(from_change_id@, opt_view(maybe_into_change_id), opt_view(maybe_file_path), global_args@),
    {
        let mut args: Vec<String> = Vec::new();
        push_arg(&mut args, "absorb");
        push_arg(&mut args, "--from");
        push_arg(&mut args, from_change_id);
        if let Some(into) = maybe_into_change_id { push_arg(&mut args, "--into"); push_arg(&mut args, into); }
        push_optional_arg(&mut args, maybe_file_path);
        assert(args.deep_view() =~= jj_absorb_view(from_change_id@, opt_view(maybe_into_change_id), opt_view(maybe_file_path), global_args@).args);
        Self::new(args, global_args, false, ReturnOutput::Stderr)
    }

    /// Applies the reverse of `revision`, placed by `destination_type` relative to `destination`.
    pub fn jj_revert(revision: &str, destination_type: &str, destination: &str, global_args: GlobalArgs) -> (cmd: Self)
        ensures
            cmd@ == jj_revert_view(revision@, destination_type@, destination@, global_args@),
    {
        let mut args: Vec<String> = Vec::new();
        push_arg(&mut args, "revert");
        push_arg(&mut args, "-r");
        push_arg(&mut args, revision);
        push_arg(&mut args, destination_type);
        push_arg(&mut args, destination);
        assert(args.deep_view() =~= jj_revert_view(revision@, destination_type@, destination@, global_args@).args);
        Self::new(args, global_args, false, ReturnOutput::Stderr)
    }

    /// Signs or unsigns (`action`) the revisions of `revset`.
    pub fn jj_sign(action: &str, revset: &str, global_args: GlobalArgs) -> (cmd: Self)
        ensures
            cmd@ == jj_sign_view(action@, revset@, global_args@),
    {
        let mut args: Vec<String> = Vec::new();
        push_arg(&mut args, action);
        push_arg(&mut args, "-r");
        push_arg(&mut args, revset);
        assert(args.deep_view() =~= jj_sign_view(action@, revset@, global_args@).args);
        Self::new(args, global_args, false, ReturnOutput::Stderr)
    }

    /// Shows `change_id` in the pager.
    pub fn jj_show(change_id: &str, global_args: GlobalArgs) -> (cmd: Self)
        ensures
            cmd@ == jj_show_view(change_id@, global_args@),
    {
        let mut args: Vec<String> = Vec::new();
        push_arg(&mut args, "show");
        push_arg(&mut args, change_id);
        assert(args.deep_view() =~= jj_show_view(change_id@, global_args@).args);
        Self::new_skip_sync(args, global_args, true, ReturnOutput::Stderr)
    }

    /// Shows the working copy status in the pager.
    pub fn jj_status(global_args: GlobalArgs) -> (cmd: Self)
        ensures
            cmd@ == jj_status_view(global_args@),
    {
        let mut args: Vec<String> = Vec::new();
        push_arg(&mut args, "status");
        assert(args.deep_view() =~= jj_status_view(global_args@).args);
        Self::new_skip_sync(args, global_args, true, ReturnOutput::Stderr)
    }

    /// Removes redundant parents of `revision`, `mode` choosing revisions or sources.
    pub fn jj_simplify_parents(revision: &str, mode: &str, global_args: GlobalArgs) -> (cmd: Self)
        ensures
            cmd@ == jj_simplify_parents_view(revision@, mode@, global_args@),
    {
        let mut args: Vec<String> = Vec::new();
        push_arg(&mut args, "simplify-parents");
        push_arg(&mut args, mode);
        push_arg(&mut args, revision);
        assert(args.deep_view() =~= jj_simplify_parents_view(revision@, mode@, global_args@).args);
        Self::new(args, global_args, false, ReturnOutput::Stderr)
    }

    /// Undoes the last operation.
    pub fn jj_undo(global_args: GlobalArgs) -> (cmd: Self)
        ensures
            cmd@ == jj_undo_view(global_args@),
    {
        let mut args: Vec<String> = Vec::new();
        push_arg(&mut args, "undo");
        assert(args.deep_view() =~= jj_undo_view(global_args@).args);
        Self::new(args, global_args, false, ReturnOutput::Stderr)
    }

    /// Redoes the last undone operation.
    pub fn jj_redo(global_args: GlobalArgs) -> (cmd: Self)
        ensures
            cmd@ == jj_redo_view(global_args@),
    {
        let mut args: Vec<String> = Vec::new();
        push_arg(&mut args, "redo");
        assert(args.deep_view() =~= jj_redo_view(global_args@).args);
        Self::new(args, global_args, false, ReturnOutput::Stderr)
    }

    /// Commits the working copy, or only the given file, describing it in the editor.
    pub fn jj_commit(maybe_file_path: Option<&str>, global_args: GlobalArgs) -> (cmd: Self)
        ensures
            cmd@ == jj_commit_view(opt_view(maybe_file_path), global_args@),
    {
        let mut args: Vec<String> = Vec::new();
        push_arg(&mut args, "commit");
        push_optional_arg(&mut args, maybe_file_path);
        assert(args.deep_view() =~= jj_commit_view(opt_view(maybe_file_path), global_args@).args);
        Self::new(args, global_args, true, ReturnOutput::Stderr)
    }

    /// Rebases `source` (by `source_type`) relative to `destination` (by `destination_type`).
    pub fn jj_rebase(source_type: &str, source: &str, destination_type: &str, destination: &str, global_args: GlobalArgs) -> (cmd: Self)
        ensures
            cmd@ == jj_rebase_view(source_type@, source@, destination_type@, destination@, global_args@),
    {
        let mut args: Vec<String> = Vec::new();
        push_arg(&mut args, "rebase");
        push_arg(&mut args, source_type);
        push_arg(&mut args, source);
        push_arg(&mut args, destination_type);
        push_arg(&mut args, destination);
        assert(args.deep_view() =~= jj_rebase_view(source_type@, source@, destination_type@, destination@, global_args@).args);
        Self::new(args, global_args, false, ReturnOutput::Stderr)
    }

    /// Resolves conflicts of `change_id`, or of the given file, in the merge tool.
    pub fn jj_resolve(change_id: &str, maybe_file_path: Option<&str>, global_args: GlobalArgs) -> (cmd: Self)
        ensures
            cmd@ == jj_resolve_view(change_id@, opt_view(maybe_file_path), global_args@),
    {
        let mut args: Vec<String> = Vec::new();
        push_arg(&mut args, "resolve");
        push_arg(&mut args, "-r");
        push_arg(&mut args, change_id);
        push_optional_arg(&mut args, maybe_file_path);
        assert(args.deep_view() =~= jj_resolve_view(change_id@, opt_view(maybe_file_path), global_args@).args);
        Self::new(args, global_args, true, ReturnOutput::Stderr)
    }

    /// Restores files with `flags`, only the given file where one is given.
    pub fn jj_restore(flags: &[&str], maybe_file_path: Option<&str>, global_args: GlobalArgs) -> (cmd: Self)
        ensures
            cmd@ == jj_restore_view(str_views(flags@), opt_view(maybe_file_path), global_args@),
    {
        let mut args: Vec<String> = Vec::new();
        push_arg(&mut args, "restore");
        push_args(&mut args, flags);
        push_optional_arg(&mut args, maybe_file_path);
        assert(args.deep_view() =~= jj_restore_view(str_views(flags@), opt_view(maybe_file_path), global_args@).args);
        Self::new(args, global_args, false, ReturnOutput::Stderr)
    }

    /// Squashes `change_id` into its parent, or only the given file.
    pub fn jj_squash_noninteractive(change_id: &str, maybe_file_path: Option<&str>, global_args: GlobalArgs) -> (cmd: Self)
        ensures
            cmd@ == jj_squash_noninteractive_view(change_id@, opt_view(maybe_file_path), global_args@),
    {
        let mut args: Vec<String> = Vec::new();
        push_arg(&mut args, "squash");
        push_arg(&mut args, "--revision");
        push_arg(&mut args, change_id);
        push_optional_arg(&mut args, maybe_file_path);
        assert(args.deep_view() =~= jj_squash_noninteractive_view(change_id@, opt_view(maybe_file_path), global_args@).args);
        Self::new(args, global_args, false, ReturnOutput::Stderr)
    }

    /// Squashes `change_id` into its parent, or only the given file, on the whole terminal so that the editor can combine descriptions.
    pub fn jj_squash_interactive(change_id: &str, maybe_file_path: Option<&str>, global_args: GlobalArgs) -> (cmd: Self)
        ensures
            cmd@ == jj_squash_interactive_view(change_id@, opt_view(maybe_file_path), global_args@),
    {
        let mut args: Vec<String> = Vec::new();
        push_arg(&mut args, "squash");
        push_arg(&mut args, "--revision");
        push_arg(&mut args, change_id);
        push_optional_arg(&mut args, maybe_file_path);
        assert(args.deep_view() =~= jj_squash_interactive_view(change_id@, opt_view(maybe_file_path), global_args@).args);
        Self::new(args, global_args, true, ReturnOutput::Stderr)
    }

    /// Squashes `from_change_id` into `into_change_id`, or only the given file, on the whole terminal.
    pub fn jj_squash_into_interactive(from_change_id: &str, into_change_id: &str, maybe_file_path: Option<&str>, global_args: GlobalArgs) -> (cmd: Self)
        ensures
            cmd@ == jj_squash_into_interactive_view(from_change_id@, into_change_id@, opt_view(maybe_file_path), global_args@),
    {
        let mut args: Vec<String> = Vec::new();
        push_arg(&mut args, "squash");
        push_arg(&mut args, "--from");
        push_arg(&mut args, from_change_id);
        push_arg(&mut args, "--into");
        push_arg(&mut args, into_change_id);
        push_optional_arg(&mut args, maybe_file_path);
        assert(args.deep_view() =~= jj_squash_into_interactive_view(from_change_id@, into_change_id@, opt_view(maybe_file_path), global_args@).args);
        Self::new(args, global_args, true, ReturnOutput::Stderr)
    }

    /// Makes `change_id` the working copy.
    pub fn jj_edit(change_id: &str, global_args: GlobalArgs) -> (cmd: Self)
        ensures
            cmd@ == jj_edit_view(change_id@, global_args@),
    {
        let mut args: Vec<String> = Vec::new();
        push_arg(&mut args, "edit");
        push_arg(&mut args, change_id);
        assert(args.deep_view() =~= jj_edit_view(change_id@, global_args@).args);
        Self::new(args, global_args, false, ReturnOutput::Stderr)
    }

    /// Shows how `change_id` evolved, with patches where `patch` holds, in the pager.
    pub fn jj_evolog(change_id: &str, patch: bool, global_args: GlobalArgs) -> (cmd: Self)
        ensures
            cmd@ == jj_evolog_view(change_id@, patch, global_args@),
    {
        let mut args: Vec<String> = Vec::new();
        push_arg(&mut args, "evolog");
        push_arg(&mut args, "-r");
        push_arg(&mut args, change_id);
        if patch { push_arg(&mut args, "--patch"); }
        assert(args.deep_view() =~= jj_evolog_view(change_id@, patch, global_args@).args);
        Self::new_skip_sync(args, global_args, true, ReturnOutput::Stderr)
    }

    /// Compares the changes of `from` and `to`, of the given file alone, in the pager.
    pub fn jj_interdiff(from: &str, to: &str, maybe_file_path: Option<&str>, global_args: GlobalArgs) -> (cmd: Self)
        ensures
            cmd@ == jj_interdiff_view(from@, to@, opt_view(maybe_file_path), global_args@),
    {
        let mut args: Vec<String> = Vec::new();
        push_arg(&mut args, "interdiff");
        push_arg(&mut args, "--from");
        push_arg(&mut args, from);
        push_arg(&mut args, "--to");
        push_arg(&mut args, to);
        push_optional_arg(&mut args, maybe_file_path);
        assert(args.deep_view() =~= jj_interdiff_view(from@, to@, opt_view(maybe_file_path), global_args@).args);
        Self::new_skip_sync(args, global_args, true, ReturnOutput::Stderr)
    }

    /// Lists the files of the working copy.
    pub fn jj_file_list(global_args: GlobalArgs) -> (cmd: Self)
        ensures
            cmd@ == jj_file_list_view(global_args@),
    {
        let mut args: Vec<String> = Vec::new();
        push_arg(&mut args, "file");
        push_arg(&mut args, "list");
        assert(args.deep_view() =~= jj_file_list_view(global_args@).args);
        Self::new_no_color(args, global_args, ReturnOutput::Stdout)
    }

    /// Prints the contents of `file_path` at `change_id`.
    pub fn jj_file_show(change_id: &str, file_path: &str, global_args: GlobalArgs) -> (cmd: Self)
        ensures
            cmd@ == jj_file_show_view(change_id@, file_path@, global_args@),
    {
        let mut args: Vec<String> = Vec::new();
        push_arg(&mut args, "file");
        push_arg(&mut args, "show");
        push_arg(&mut args, "--revision");
        push_arg(&mut args, change_id);
        push_arg(&mut args, file_path);
        assert(args.deep_view() =~= jj_file_show_view(change_id@, file_path@, global_args@).args);
        Self::new_no_color(args, global_args, ReturnOutput::Stdout)
    }

    /// Starts tracking `file_path`.
    pub fn jj_file_track(file_path: &str, global_args: GlobalArgs) -> (cmd: Self)
        ensures
            cmd@ == jj_file_track_view(file_path@, global_args@),
    {
        let mut args: Vec<String> = Vec::new();
        push_arg(&mut args, "file");
        push_arg(&mut args, "track");
        push_arg(&mut args, file_path);
        assert(args.deep_view() =~= jj_file_track_view(file_path@, global_args@).args);
        Self::new(args, global_args, false, ReturnOutput::Stderr)
    }

    /// Stops tracking `file_path`.
    pub fn jj_file_untrack(file_path: &str, global_args: GlobalArgs) -> (cmd: Self)
        ensures
            cmd@ == jj_file_untrack_view(file_path@, global_args@),
    {
        let mut args: Vec<String> = Vec::new();
        push_arg(&mut args, "file");
        push_arg(&mut args, "untrack");
        push_arg(&mut args, file_path);
        assert(args.deep_view() =~= jj_file_untrack_view(file_path@, global_args@).args);
        Self::new(args, global_args, false, ReturnOutput::Stderr)
    }

    /// Edits the metadata of `change_id` by `flag`, with its value where given.
    pub fn jj_metaedit(change_id: &str, flag: &str, value: Option<&str>, global_args: GlobalArgs) -> (cmd: Self)
        ensures
            cmd@ == jj_metaedit_view(change_id@, flag@, opt_view(value), global_args@),
    {
        let mut args: Vec<String> = Vec::new();
        push_arg(&mut args, "metaedit");
        push_arg(&mut args, flag);
        push_optional_arg(&mut args, value);
        push_arg(&mut args, change_id);
        assert(args.deep_view() =~= jj_metaedit_view(change_id@, flag@, opt_view(value), global_args@).args);
        Self::new(args, global_args, false, ReturnOutput::Stderr)
    }

    /// Fetches from the git remotes, with the flag and value where given.
    pub fn jj_git_fetch(flag: Option<&str>, value: Option<&str>, global_args: GlobalArgs) -> (cmd: Self)
        ensures
            cmd@ == jj_git_fetch_view(opt_view(flag), opt_view(value), global_args@),
    {
        let mut args: Vec<String> = Vec::new();
        push_arg(&mut args, "git");
        push_arg(&mut args, "fetch");
        push_optional_arg(&mut args, flag);
        push_optional_arg(&mut args, value);
        assert(args.deep_view() =~= jj_git_fetch_view(opt_view(flag), opt_view(value), global_args@).args);
        Self::new(args, global_args, false, ReturnOutput::Stderr)
    }

    /// Pushes to the git remote, with the flag and value where given.
    pub fn jj_git_push(flag: Option<&str>, value: Option<&str>, global_args: GlobalArgs) -> (cmd: Self)
        ensures
            cmd@ == jj_git_push_view(opt_view(flag), opt_view(value), global_args@),
    {
        let mut args: Vec<String> = Vec::new();
        push_arg(&mut args, "git");
        push_arg(&mut args, "push");
        push_optional_arg(&mut args, flag);
        push_optional_arg(&mut args, value);
        assert(args.deep_view() =~= jj_git_push_view(opt_view(flag), opt_view(value), global_args@).args);
        Self::new(args, global_args, false, ReturnOutput::Stderr)
    }

    /// Lists the git remotes.
    pub fn jj_git_remote_list(global_args: GlobalArgs) -> (cmd: Self)
        ensures
            cmd@ == jj_git_remote_list_view(global_args@),
    {
        let mut args: Vec<String> = Vec::new();
        push_arg(&mut args, "git");
        push_arg(&mut args, "remote");
        push_arg(&mut args, "list");
        assert(args.deep_view() =~= jj_git_remote_list_view(global_args@).args);
        Self::new_skip_sync(args, global_args, false, ReturnOutput::Stdout)
    }

    /// Creates the bookmarks `bookmark_names` at `change_id`.
    pub fn jj_bookmark_create(bookmark_names: &str, change_id: &str, global_args: GlobalArgs) -> (cmd: Self)
        ensures
            cmd@ == jj_bookmark_create_view(bookmark_names@, change_id@, global_args@),
    {
        let mut args: Vec<String> = Vec::new();
        push_arg(&mut args, "bookmark");
        push_arg(&mut args, "create");
        push_arg(&mut args, "--revision");
        push_arg(&mut args, change_id);
        push_arg(&mut args, bookmark_names);
        assert(args.deep_view() =~= jj_bookmark_create_view(bookmark_names@, change_id@, global_args@).args);
        Self::new(args, global_args, false, ReturnOutput::Stderr)
    }

    /// Deletes the bookmarks `bookmark_names`.
    pub fn jj_bookmark_delete(bookmark_names: &str, global_args: GlobalArgs) -> (cmd: Self)
        ensures
            cmd@ == jj_bookmark_delete_view(bookmark_names@, global_args@),
    {
        let mut args: Vec<String> = Vec::new();
        push_arg(&mut args, "bookmark");
        push_arg(&mut args, "delete");
        push_arg(&mut args, bookmark_names);
        assert(args.deep_view() =~= jj_bookmark_delete_view(bookmark_names@, global_args@).args);
        Self::new(args, global_args, false, ReturnOutput::Stderr)
    }

    /// Forgets the bookmarks `bookmark_names`, their remote ones too where `include_remotes` holds.
    pub fn jj_bookmark_forget(bookmark_names: &str, include_remotes: bool, global_args: GlobalArgs) -> (cmd: Self)
        ensures
            cmd@ == jj_bookmark_forget_view(bookmark_names@, include_remotes, global_args@),
    {
        let mut args: Vec<String> = Vec::new();
        push_arg(&mut args, "bookmark");
        push_arg(&mut args, "forget");
        if include_remotes { push_arg(&mut args, "--include-remotes"); }
        push_arg(&mut args, bookmark_names);
        assert(args.deep_view() =~= jj_bookmark_forget_view(bookmark_names@, include_remotes, global_args@).args);
        Self::new(args, global_args, false, ReturnOutput::Stderr)
    }

    /// Lists the names of all bookmarks, one per line.
    pub fn jj_bookmark_list_all_names(global_args: GlobalArgs) -> (cmd: Self)
        ensures
            cmd@ == jj_bookmark_list_all_names_view(global_args@),
    {
        let mut args: Vec<String> = Vec::new();
        push_arg(&mut args, "bookmark");
        push_arg(&mut args, "list");
        push_arg(&mut args, "--all-remotes");
        push_arg(&mut args, "-T");
        push_arg(&mut args, BOOKMARK_NAME_TEMPLATE);
        assert(args.deep_view() =~= jj_bookmark_list_all_names_view(global_args@).args);
        Self::new_skip_sync(args, global_args, false, ReturnOutput::Stdout)
    }

    /// Lists the tracked remote bookmarks as `name@remote`, one per line.
    pub fn jj_bookmark_list_tracked_remote(global_args: GlobalArgs) -> (cmd: Self)
        ensures
            cmd@ == jj_bookmark_list_tracked_remote_view(global_args@),
    {
        let mut args: Vec<String> = Vec::new();
        push_arg(&mut args, "bookmark");
        push_arg(&mut args, "list");
        push_arg(&mut args, "--tracked");
        push_arg(&mut args, "-T");
        push_arg(&mut args, TRACKED_REMOTE_TEMPLATE);
        assert(args.deep_view() =~= jj_bookmark_list_tracked_remote_view(global_args@).args);
        Self::new_no_color(args, global_args, ReturnOutput::Stdout)
    }

    /// Lists the untracked remote bookmarks as `name@remote`, one per line.
    pub fn jj_bookmark_list_untracked_remote(global_args: GlobalArgs) -> (cmd: Self)
        ensures
            cmd@ == jj_bookmark_list_untracked_remote_view(global_args@),
    {
        let mut args: Vec<String> = Vec::new();
        push_arg(&mut args, "bookmark");
        push_arg(&mut args, "list");
        push_arg(&mut args, "--all-remotes");
        push_arg(&mut args, "-T");
        push_arg(&mut args, UNTRACKED_REMOTE_TEMPLATE);
        assert(args.deep_view() =~= jj_bookmark_list_untracked_remote_view(global_args@).args);
        Self::new_no_color(args, global_args, ReturnOutput::Stdout)
    }

    /// Moves the bookmarks at `from_change_id` to `to_change_id`, backwards too where `allow_backwards` holds.
    pub fn jj_bookmark_move(from_change_id: &str, to_change_id: &str, allow_backwards: bool, global_args: GlobalArgs) -> (cmd: Self)
        ensures
            cmd@ == jj_bookmark_move_view(from_change_id@, to_change_id@, allow_backwards, global_args@),
    {
        let mut args: Vec<String> = Vec::new();
        push_arg(&mut args, "bookmark");
        push_arg(&mut args, "move");
        push_arg(&mut args, "--from");
        push_arg(&mut args, from_change_id);
        push_arg(&mut args, "--to");
        push_arg(&mut args, to_change_id);
        if allow_backwards { push_arg(&mut args, "--allow-backwards"); }
        assert(args.deep_view() =~= jj_bookmark_move_view(from_change_id@, to_change_id@, allow_backwards, global_args@).args);
        Self::new(args, global_args, false, ReturnOutput::Stderr)
    }

    /// Renames a bookmark.
    pub fn jj_bookmark_rename(old_bookmark_name: &str, new_bookmark_name: &str, global_args: GlobalArgs) -> (cmd: Self)
        ensures
            cmd@ == jj_bookmark_rename_view(old_bookmark_name@, new_bookmark_name@, global_args@),
    {
        let mut args: Vec<String> = Vec::new();
        push_arg(&mut args, "bookmark");
        push_arg(&mut args, "rename");
        push_arg(&mut args, old_bookmark_name);
        push_arg(&mut args, new_bookmark_name);
        assert(args.deep_view() =~= jj_bookmark_rename_view(old_bookmark_name@, new_bookmark_name@, global_args@).args);
        Self::new(args, global_args, false, ReturnOutput::Stderr)
    }

    /// Points the bookmarks `bookmark_names` at `change_id`.
    pub fn jj_bookmark_set(bookmark_names: &str, change_id: &str, global_args: GlobalArgs) -> (cmd: Self)
        ensures
            cmd@ == jj_bookmark_set_view(bookmark_names@, change_id@, global_args@),
    {
        let mut args: Vec<String> = Vec::new();
        push_arg(&mut args, "bookmark");
        push_arg(&mut args, "set");
        push_arg(&mut args, bookmark_names);
        push_arg(&mut args, "--revision");
        push_arg(&mut args, change_id);
        assert(args.deep_view() =~= jj_bookmark_set_view(bookmark_names@, change_id@, global_args@).args);
        Self::new(args, global_args, false, ReturnOutput::Stderr)
    }

    /// Tracks the remote bookmark `bookmark_at_remote`.
    pub fn jj_bookmark_track(bookmark_at_remote: &str, global_args: GlobalArgs) -> (cmd: Self)
        ensures
            cmd@ == jj_bookmark_track_view(bookmark_at_remote@, global_args@),
    {
        let mut args: Vec<String> = Vec::new();
        push_arg(&mut args, "bookmark");
        push_arg(&mut args, "track");
        push_arg(&mut args, bookmark_at_remote);
        assert(args.deep_view() =~= jj_bookmark_track_view(bookmark_at_remote@, global_args@).args);
        Self::new(args, global_args, false, ReturnOutput::Stderr)
    }

    /// Stops tracking the remote bookmark `bookmark_at_remote`.
    pub fn jj_bookmark_untrack(bookmark_at_remote: &str, global_args: GlobalArgs) -> (cmd: Self)
        ensures
            cmd@ == jj_bookmark_untrack_view(bookmark_at_remote@, global_args@),
    {
        let mut args: Vec<String> = Vec::new();
        push_arg(&mut args, "bookmark");
        push_arg(&mut args, "untrack");
        push_arg(&mut args, bookmark_at_remote);
        assert(args.deep_view() =~= jj_bookmark_untrack_view(bookmark_at_remote@, global_args@).args);
        Self::new(args, global_args, false, ReturnOutput::Stderr)
    }
}


/// Every command line starts with the global options, has the flag that
/// allows rewriting immutable revisions right after them exactly where the
/// options ask for it, and ends with the command's own arguments.
pub proof fn lemma_command_line_shape(cmd: JjCommandView)
    ensures
        ({
            let line = command_line_of(cmd);
            let base = base_args(cmd.color, cmd.global_args.repository);
            &&& line.take(base.len() as int) == base
            &&& line.skip(line.len() - cmd.args.len()) == cmd.args
            &&& cmd.global_args.ignore_immutable ==> line.len() == base.len() + 1 + cmd.args.len()
                && line[base.len() as int] == "--ignore-immutable"@
            &&& !cmd.global_args.ignore_immutable ==> line.len() == base.len() + cmd.args.len()
        }),
{
    let line = command_line_of(cmd);
    let base = base_args(cmd.color, cmd.global_args.repository);
    let flag: Seq<Seq<char>> = if cmd.global_args.ignore_immutable {
        seq!["--ignore-immutable"@]
    } else {
        seq![]
    };
    assert(line == base + flag + cmd.args);
    assert(line.take(base.len() as int) =~= base);
    assert(line.skip(line.len() - cmd.args.len()) =~= cmd.args);
    if cmd.global_args.ignore_immutable {
        assert(line[base.len() as int] == flag[0]);
    }
}


/// The arguments of the `jj` process that checks that `repository` is a
/// repository and prints its root.
pub open spec fn valid_repo_args(repository: Seq<char>) -> Seq<Seq<char>> {
    seq!["--repository"@, repository, "workspace"@, "root"@, "--color"@, "always"@]
}

impl JjCommand {
    /// The arguments of the `jj` process that checks that `repository` is a
    /// repository and prints its root.
    pub fn jj_ensure_valid_repo_args(repository: &str) -> (args: Vec<String>)
        ensures
            args.deep_view() == valid_repo_args(repository@),
    {
        let mut args: Vec<String> = Vec::new();
        push_arg(&mut args, "--repository");
        push_arg(&mut args, repository);
        push_arg(&mut args, "workspace");
        push_arg(&mut args, "root");
        push_arg(&mut args, "--color");
        push_arg(&mut args, "always");
        assert(args.deep_view() =~= valid_repo_args(repository@));
        args
    }

    /// The result of that process, which exited with `success` having
    /// printed `stdout` and `stderr`: the root it printed, trimmed, or the
    /// failure with what it printed on `stderr`.
    pub fn jj_ensure_valid_repo(success: bool, stdout: &[u8], stderr: &[u8]) -> (r: Result<String, JjCommandError>)
        ensures
            success ==> (r matches Ok(root) && root@ == crate::text::trim(utf8_lossy(stdout@))),
            !success ==> (r matches Err(JjCommandError::Failed { stderr: s }) && s@ == crate::text::trim(
                utf8_lossy(stderr@),
            )),
    {
        if success {
            let out = decode_lossy(stdout);
            Ok(crate::text::trimmed(out.as_str()))
        } else {
            Err(JjCommandError::new_failed(decode_lossy(stderr)))
        }
    }
}


/// `jj bookmark set` names the bookmarks, then, after `--revision`, the
/// change they are to point at: exactly `bookmark set <names> --revision
/// <change>`.
pub proof fn lemma_bookmark_set_names_the_change(bookmark_names: Seq<char>, change_id: Seq<char>, global_args: GlobalArgsView)
    ensures
        jj_bookmark_set_view(bookmark_names, change_id, global_args).args == seq![
            "bookmark"@,
            "set"@,
            bookmark_names,
            "--revision"@,
            change_id,
        ],
        jj_bookmark_set_view(bookmark_names, change_id, global_args).args[4] == change_id,
{
}


/// The bookmark commands name what they act on: `create` the change after
/// `--revision`, then the names; `delete` and `forget` the names (`forget`
/// with `--include-remotes` first where asked); `rename` the old name, then
/// the new; `track` and `untrack` the remote bookmark; `move` the change it
/// moves from after `--from`, the one it moves to after `--to`, then
/// `--allow-backwards` where asked.
pub proof fn lemma_bookmark_commands_name_their_targets(
    names: Seq<char>,
    other: Seq<char>,
    change_id: Seq<char>,
    to_change_id: Seq<char>,
    flag: bool,
    g: GlobalArgsView,
)
    ensures
        jj_bookmark_create_view(names, change_id, g).args == seq![
            "bookmark"@,
            "create"@,
            "--revision"@,
            change_id,
            names,
        ],
        jj_bookmark_delete_view(names, g).args == seq!["bookmark"@, "delete"@, names],
        jj_bookmark_forget_view(names, flag, g).args == if flag {
            seq!["bookmark"@, "forget"@, "--include-remotes"@, names]
        } else {
            seq!["bookmark"@, "forget"@, names]
        },
        jj_bookmark_rename_view(names, other, g).args == seq!["bookmark"@, "rename"@, names, other],
        jj_bookmark_track_view(names, g).args == seq!["bookmark"@, "track"@, names],
        jj_bookmark_untrack_view(names, g).args == seq!["bookmark"@, "untrack"@, names],
        jj_bookmark_move_view(change_id, to_change_id, flag, g).args == if flag {
            seq!["bookmark"@, "move"@, "--from"@, change_id, "--to"@, to_change_id, "--allow-backwards"@]
        } else {
            seq!["bookmark"@, "move"@, "--from"@, change_id, "--to"@, to_change_id]
        },
{
    assert(jj_bookmark_forget_view(names, flag, g).args =~= if flag {
        seq!["bookmark"@, "forget"@, "--include-remotes"@, names]
    } else {
        seq!["bookmark"@, "forget"@, names]
    });
    assert(jj_bookmark_move_view(change_id, to_change_id, flag, g).args =~= if flag {
        seq!["bookmark"@, "move"@, "--from"@, change_id, "--to"@, to_change_id, "--allow-backwards"@]
    } else {
        seq!["bookmark"@, "move"@, "--from"@, change_id, "--to"@, to_change_id]
    });
}

} // verus!
