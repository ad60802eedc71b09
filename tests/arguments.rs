use hooky::cli::{check_arguments, Args, ArgsErrorKind};

fn args(watch: Option<&str>, command: Option<&str>, config: Option<&str>) -> Args {
    Args {
        watch: watch.map(|s| s.to_string()),
        command: command.map(|s| s.to_string()),
        config: config.map(|s| s.to_string()),
        non_recursive: false,
        on_events_only: false,
        attempts: 3,
        patterns: vec![],
    }
}

#[test]
fn config_with_exec_is_unexpected() {
    let r = check_arguments(args(None, Some("make"), Some("c.json")), None);
    let e = r.err().unwrap();
    assert!(matches!(e.kind, ArgsErrorKind::UnexpectedArgument));
    assert_eq!(e.msg, "Invalid argument if --config is active (exec)");
}

#[test]
fn config_with_watch_is_unexpected() {
    let r = check_arguments(args(Some("/w"), None, Some("c.json")), None);
    assert!(matches!(r.err().unwrap().kind, ArgsErrorKind::UnexpectedArgument));
}

#[test]
fn watch_without_exec_is_missing() {
    let r = check_arguments(args(Some("/w"), None, None), None);
    let e = r.err().unwrap();
    assert!(matches!(e.kind, ArgsErrorKind::MissingArgument));
    assert_eq!(e.msg, "Missing argument (exec)");
    let r = check_arguments(args(None, Some("make"), None), None);
    assert!(matches!(r.err().unwrap().kind, ArgsErrorKind::MissingArgument));
}

#[test]
fn valid_combinations_pass_unchanged() {
    let a = check_arguments(args(Some("/w"), Some("make"), None), None).ok().unwrap();
    assert_eq!(a.watch.as_deref(), Some("/w"));
    assert_eq!(a.command.as_deref(), Some("make"));
    assert_eq!(a.attempts, 3);
    let a = check_arguments(args(None, None, Some("c.json")), None).ok().unwrap();
    assert_eq!(a.config.as_deref(), Some("c.json"));
}

#[test]
fn nothing_given_takes_the_found_config_file() {
    let a = check_arguments(args(None, None, None), Some("/w/observer.json".to_string())).ok().unwrap();
    assert_eq!(a.config.as_deref(), Some("/w/observer.json"));
    assert_eq!(a.attempts, 3);
    let r = check_arguments(args(None, None, None), None);
    assert!(matches!(r.err().unwrap().kind, ArgsErrorKind::MissingArgument));
}
