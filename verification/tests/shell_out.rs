use majjit::shell_out::{GlobalArgs, JjCommand, JjCommandError, ReturnOutput};

fn global_args(ignore_immutable: bool) -> GlobalArgs {
    GlobalArgs { repository: "/repo".to_string(), ignore_immutable }
}

fn args_of(cmd: &JjCommand) -> Vec<String> {
    cmd.args().clone()
}

#[test]
fn log_command_arguments() {
    let cmd = JjCommand::jj_log("@", global_args(false));
    assert_eq!(args_of(&cmd), vec!["log", "--template", "builtin_log_compact", "--revisions", "@"]);
    assert!(cmd.sync);
    assert!(!cmd.is_interactive());
    assert_eq!(cmd.return_output(), ReturnOutput::Stdout);
}

#[test]
fn command_line_puts_global_options_first() {
    let cmd = JjCommand::jj_undo(global_args(true));
    let line = cmd.command_line();
    assert_eq!(line[0], "--color");
    assert_eq!(line[1], "always");
    assert_eq!(line[line.len() - 4], "--repository");
    assert_eq!(line[line.len() - 3], "/repo");
    assert_eq!(line[line.len() - 2], "--ignore-immutable");
    assert_eq!(line[line.len() - 1], "undo");
}

#[test]
fn failed_command_trims_stderr() {
    let r = JjCommand::run_noninteractive(false, b"", b"  Error: no such revision\n");
    match r {
        Err(JjCommandError::Failed { stderr }) => assert_eq!(stderr, "Error: no such revision"),
        _ => panic!("expected a failure"),
    }
}
