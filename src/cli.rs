//! Command-line arguments and the rules on which of them go together.
use vstd::prelude::*;

verus! {

/// The arguments: either a configuration file, or a directory to watch and
/// a command line to run.
#[derive(Debug, Clone)]
pub struct Args {
    pub watch: Option<String>,
    pub command: Option<String>,
    pub config: Option<String>,
    pub non_recursive: bool,
    pub on_events_only: bool,
    pub attempts: usize,
    pub patterns: Vec<String>,
}

#[derive(Debug, PartialEq, Eq, Structural)]
pub enum ArgsErrorKind {
    UnexpectedArgument,
    MissingArgument,
}

#[derive(Debug)]
pub struct ArgsError {
    pub kind: ArgsErrorKind,
    pub msg: String,
}

/// `r` is an error of kind `k`.
pub open spec fn fails_with(r: Result<Args, ArgsError>, k: ArgsErrorKind) -> bool {
    r matches Err(e) && e.kind == k
}

fn args_error(kind: ArgsErrorKind, msg: &str) -> (r: ArgsError)
    ensures
        r.kind == kind,
        r.msg@ == msg@,
{
    ArgsError { kind, msg: msg.to_owned() }
}

/// Checks which arguments were given together. A configuration file rules
/// out a watch directory and a command line; without one, both are needed.
/// With none of the three, the configuration file found in the working tree
/// (`config_file`) is taken, and its absence is a missing argument.
pub fn check_arguments(args: Args, config_file: Option<String>) -> (r: Result<Args, ArgsError>)
    ensures
        args.config is Some && args.command is Some ==> fails_with(r, ArgsErrorKind::UnexpectedArgument),
        args.config is Some && args.command is None && args.watch is Some ==> fails_with(
            r,
            ArgsErrorKind::UnexpectedArgument,
        ),
        args.config is None && args.command is None && args.watch is Some ==> fails_with(
            r,
            ArgsErrorKind::MissingArgument,
        ),
        args.config is None && args.command is Some && args.watch is None ==> fails_with(
            r,
            ArgsErrorKind::MissingArgument,
        ),
        args.config is None && args.command is None && args.watch is None ==> match config_file {
            Some(p) => r == Ok::<Args, ArgsError>((Args { config: Some(p), ..args })),
            None => fails_with(r, ArgsErrorKind::MissingArgument),
        },
        (args.config is Some && args.command is None && args.watch is None) || (args.config is None
            && args.command is Some && args.watch is Some) ==> r == Ok::<Args, ArgsError>(args),
{
    proof {
        reveal_strlit("Invalid argument if --config is active (exec)");
    }
    match (&args.config, &args.command, &args.watch) {
        (Some(_), Some(_), _) => Err(
            args_error(ArgsErrorKind::UnexpectedArgument, "Invalid argument if --config is active (exec)"),
        ),
        (Some(_), _, Some(_)) => Err(
            args_error(ArgsErrorKind::UnexpectedArgument, "Invalid argument if --config is active (watch)"),
        ),
        (None, None, Some(_)) => Err(args_error(ArgsErrorKind::MissingArgument, "Missing argument (exec)")),
        (None, Some(_), None) => Err(args_error(ArgsErrorKind::MissingArgument, "Missing argument (watch)")),
        (None, None, None) => match config_file {
            Some(p) => Ok(
                Args {
                    config: Some(p),
                    watch: None,
                    command: None,
                    non_recursive: args.non_recursive,
                    on_events_only: args.on_events_only,
                    attempts: args.attempts,
                    patterns: args.patterns,
                },
            ),
            None => Err(args_error(ArgsErrorKind::MissingArgument, "Missing argument (config)")),
        },
        _ => Ok(args),
    }
}

} // verus!
