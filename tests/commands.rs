use hooky::command::{Command, CommandErrorKind, Status};
use hooky::config::{CommandConfig, OutputMode, ShellMode};

#[test]
fn test_error_parsed() {
    let cmd = "".parse::<Command>().unwrap_err();
    assert_eq!(cmd, CommandErrorKind::InvalidParse);
}

#[test]
fn blank_line_is_invalid() {
    let cmd = " \t \n".parse::<Command>().unwrap_err();
    assert_eq!(cmd, CommandErrorKind::InvalidParse);
}

#[test]
fn new_splits_at_every_space() {
    let config = CommandConfig::new(OutputMode::Supress, ShellMode::Cmd);
    let cmd = Command::new(config, r#"echo "im a single command""#.into());
    assert_eq!(cmd.name(), "echo");
    assert_eq!(cmd.args(), vec!["\"im", "a", "single", "command\""]);
    let cmd = Command::new(config, "a  b".into());
    assert_eq!(cmd.name(), "a");
    assert_eq!(cmd.args(), vec!["", "b"]);
    assert_eq!(cmd.state(), &Status::Pending);
}

#[test]
fn parse_splits_at_white_space() {
    let config = CommandConfig::new(OutputMode::Supress, ShellMode::Cmd);
    let mut cmd = "echo \"im a parsed command\"".parse::<Command>().unwrap();
    cmd.set_config(config);
    assert_eq!(cmd.name(), "echo");
    assert_eq!(cmd.args(), vec!["\"im", "a", "parsed", "command\""]);
    let cmd = "  ls \t -la\n".parse::<Command>().unwrap();
    assert_eq!(cmd.name(), "ls");
    assert_eq!(cmd.args(), vec!["-la"]);
    assert_eq!(cmd.config(), CommandConfig::default());
}

#[test]
fn command_line_and_shell() {
    let cmd = Command::new(CommandConfig::new(OutputMode::Allow, ShellMode::Shell), "echo hello world".into());
    assert_eq!(cmd.command_line(), "echo hello world");
    assert_eq!(
        cmd.invocation(),
        ("sh".to_string(), "-c".to_string(), "echo hello world".to_string())
    );
    let cmd = Command::new(CommandConfig::new(OutputMode::Allow, ShellMode::Powershell), "ls".into());
    assert_eq!(cmd.command_line(), "ls ");
    assert_eq!(cmd.invocation().0, "powershell");
    let cmd = Command::new(CommandConfig::default(), "dir".into());
    assert_eq!(cmd.invocation().0, "cmd");
    assert_eq!(cmd.invocation().1, "/C");
}

#[test]
fn run_reaches_finished() {
    let mut cmd = Command::new(CommandConfig::default(), "echo hello".into());
    assert!(!cmd.is_running());
    cmd.execute(Ok(()));
    assert!(cmd.is_running());
    assert_eq!(cmd.exit_code(), None);
    cmd.exited(Some(0));
    assert!(cmd.is_finished());
    assert_eq!(cmd.exit_code(), Some(0));
    assert_eq!(cmd.state(), &Status::Finished(0));
}

#[test]
fn missing_exit_code_finishes_with_one() {
    let mut cmd = Command::new(CommandConfig::default(), "sleep 5".into());
    cmd.execute(Ok(()));
    cmd.exited(None);
    assert_eq!(cmd.exit_code(), Some(1));
}

#[test]
fn spawn_failure_is_failed() {
    let mut cmd = Command::new(CommandConfig::default(), "nothing".into());
    cmd.execute(Err("not found".to_string()));
    assert_eq!(cmd.state(), &Status::Failed("not found".to_string()));
    cmd.exited(Some(0));
    assert_eq!(cmd.state(), &Status::Failed("not found".to_string()));
}

#[test]
fn wait_on_pending_changes_nothing() {
    let mut cmd = Command::new(CommandConfig::default(), "echo".into());
    cmd.exited(Some(3));
    assert_eq!(cmd.state(), &Status::Pending);
}

#[test]
fn kill_running_succeeds() {
    let mut cmd = Command::new(CommandConfig::new(OutputMode::Supress, ShellMode::Cmd), "timeout 10".into());
    cmd.execute(Ok(()));
    let res = cmd.kill(Ok(()));
    assert!(res.is_ok());
    assert_eq!(cmd.state(), &Status::Finished(0));
}

#[test]
fn kill_finished_is_already_finished() {
    let mut cmd = Command::new(CommandConfig::new(OutputMode::Allow, ShellMode::Cmd), "echo hello world!".into());
    cmd.execute(Ok(()));
    cmd.exited(Some(0));
    let res = cmd.kill(Ok(()));
    assert_eq!(res.unwrap_err().kind, CommandErrorKind::ExecutionFinalizated);
    assert_eq!(cmd.state(), &Status::Finished(0));
}

#[test]
fn kill_pending_is_already_finished() {
    let mut cmd = Command::new(CommandConfig::default(), "echo".into());
    let res = cmd.kill(Ok(()));
    assert_eq!(res.unwrap_err().kind, CommandErrorKind::ExecutionFinalizated);
    assert_eq!(cmd.state(), &Status::Pending);
}

#[test]
fn failed_kill_still_finishes() {
    let mut cmd = Command::new(CommandConfig::default(), "sleep 10".into());
    cmd.execute(Ok(()));
    let res = cmd.kill(Err("permission denied".to_string()));
    let err = res.unwrap_err();
    assert_eq!(err.kind, CommandErrorKind::ExecutionError);
    assert_eq!(err.msg, "permission denied");
    assert_eq!(cmd.state(), &Status::Finished(1));
}
