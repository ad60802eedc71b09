use hooky::command::{Command, CommandError, CommandErrorKind, Status};
use hooky::config::{CommandConfig, OutputMode, ShellMode, SupervisorConfig, WatcherConfig};
use hooky::console::{console_command, ConsoleCommand};
use hooky::file::{File, FileEvent};
use hooky::launcher::{Attempt, LaunchAction, Launcher};
use hooky::snapshot::Entry;
use hooky::supervisor::{kill_error_to_report, Phase, Reaction, Supervisor};
use hooky::watcher::Interval;

fn entry(name: &str, modified: u128) -> Entry {
    Entry {
        name: name.to_string(),
        path: format!("/w/{}", name),
        depth: 1,
        is_file: true,
        last_modified: modified,
        last_accessed: modified,
    }
}

fn config(commands: Vec<&str>) -> SupervisorConfig {
    SupervisorConfig {
        watcher_config: WatcherConfig {
            path: "/w".to_string(),
            recursive: false,
            patterns: vec![],
            interval: Interval::NoPause,
        },
        commands: commands.into_iter().map(|c| c.to_string()).collect(),
    }
}

fn file(name: &str) -> File {
    File::new(name.to_string(), format!("/w/{}", name), 1, 1)
}

#[test]
fn end_to_end_created_file_does_not_relaunch() {
    let mut s = Supervisor::new(config(vec!["echo ok"]), "/w/observer.json".to_string(), false).unwrap();
    assert_eq!(s.phase(), Phase::Initializing);
    let launch = s.start(&vec![]);
    assert!(launch);
    assert_eq!(s.phase(), Phase::Watching);
    // the command runs once and finishes with 0
    let mut cmd = Command::new(CommandConfig::new(OutputMode::Supress, ShellMode::Shell), s.commands()[0].clone());
    let mut l = Launcher::new(3);
    cmd.execute(Ok(()));
    cmd.exited(Some(0));
    assert_eq!(l.record(&Attempt::Exited(0)), LaunchAction::Accept);
    assert_eq!(cmd.state(), &Status::Finished(0));
    // a new file: exactly one Created event, which does not relaunch
    let events = s.poll(&vec![entry("new.txt", 1)]);
    assert_eq!(events.len(), 1);
    assert!(matches!(events[0], FileEvent::Created(_)));
    assert_eq!(s.react(&events[0]), Reaction::Report);
    assert_eq!(s.phase(), Phase::Watching);
}

#[test]
fn events_only_waits_for_an_event() {
    let mut s = Supervisor::new(config(vec!["make"]), "/w/observer.json".to_string(), true).unwrap();
    assert!(!s.start(&vec![]));
}

#[test]
fn reactions_to_each_event() {
    let mut s = Supervisor::new(config(vec!["make"]), "/w/observer.json".to_string(), false).unwrap();
    s.start(&vec![]);
    assert_eq!(s.react(&FileEvent::Deleted(file("a.txt"))), Reaction::Report);
    assert_eq!(s.react(&FileEvent::Modified(file("a.txt"))), Reaction::RestartCommands);
    assert_eq!(s.phase(), Phase::Watching);
    assert_eq!(s.react(&FileEvent::Modified(file("observer.json"))), Reaction::ReloadConfig);
    assert_eq!(s.phase(), Phase::ReloadingConfig);
    s.reconfigure(config(vec!["make test", "echo hi"]), &vec![entry("a.txt", 1)]).unwrap();
    assert_eq!(s.phase(), Phase::Watching);
    assert_eq!(s.commands(), vec!["make test".to_string(), "echo hi".to_string()]);
    assert!(s.poll(&vec![entry("a.txt", 1)]).is_empty());
    s.shutdown();
    assert_eq!(s.phase(), Phase::ShuttingDown);
}

#[test]
fn bad_configuration_is_refused() {
    let r = Supervisor::new(config(vec!["make", "   "]), "/w/observer.json".to_string(), false);
    assert_eq!(r.unwrap_err(), CommandErrorKind::InvalidParse);
    let mut s = Supervisor::new(config(vec!["make"]), "/w/observer.json".to_string(), false).unwrap();
    s.start(&vec![]);
    s.react(&FileEvent::Modified(file("observer.json")));
    assert_eq!(s.reconfigure(config(vec![""]), &vec![]), Err(CommandErrorKind::InvalidParse));
    assert_eq!(s.phase(), Phase::Watching);
    assert_eq!(s.commands(), vec!["make".to_string()]);
}

#[test]
fn only_delivery_failures_are_reported() {
    assert!(!kill_error_to_report(&Ok(())));
    let finished = CommandError { kind: CommandErrorKind::ExecutionFinalizated, msg: String::new() };
    assert!(!kill_error_to_report(&Err(finished)));
    let failed = CommandError { kind: CommandErrorKind::ExecutionError, msg: "denied".to_string() };
    assert!(kill_error_to_report(&Err(failed)));
}

#[test]
fn console_commands() {
    assert_eq!(console_command("exit\n"), ConsoleCommand::Exit);
    assert_eq!(console_command("  clear "), ConsoleCommand::Clear);
    assert_eq!(console_command("restart\r\n"), ConsoleCommand::Restart);
    assert_eq!(console_command("exits"), ConsoleCommand::Unrecognized);
    assert_eq!(console_command(""), ConsoleCommand::Unrecognized);
    assert_eq!(console_command("re start"), ConsoleCommand::Unrecognized);
}
