//! Configuration values: how a command runs, what a watcher watches, and the
//! configuration that the supervisor starts from.
use vstd::prelude::*;
use crate::snapshot::{Entry, EntryView};
use crate::watcher::Interval;

verus! {

/// The shell through which a command line runs.
#[derive(Clone, Copy, Debug, PartialEq, Eq, Structural)]
pub enum ShellMode {
    Shell,
    Cmd,
    Powershell,
}

/// Whether a command's output reaches the console.
#[derive(Clone, Copy, Debug, PartialEq, Eq, Structural)]
pub enum OutputMode {
    Supress,
    Allow,
}

#[derive(Clone, Copy, Debug, PartialEq, Eq, Structural)]
pub struct CommandConfig {
    supress_output: OutputMode,
    shell_mode: ShellMode,
}

impl CommandConfig {
    pub closed spec fn spec_output_mode(&self) -> OutputMode {
        self.supress_output
    }

    pub closed spec fn spec_shell_mode(&self) -> ShellMode {
        self.shell_mode
    }

    pub fn new(supress: OutputMode, shell: ShellMode) -> (r: CommandConfig)
        ensures
            r == CommandConfig::spec_new(supress, shell),
            r.spec_output_mode() == supress,
            r.spec_shell_mode() == shell,
    {
        CommandConfig { supress_output: supress, shell_mode: shell }
    }

    pub fn output_mode(&self) -> (r: OutputMode)
        ensures
            r == self.spec_output_mode(),
    {
        self.supress_output
    }

    pub fn shell_mode(&self) -> (r: ShellMode)
        ensures
            r == self.spec_shell_mode(),
    {
        self.shell_mode
    }
}

impl CommandConfig {
    /// The default: output shown, run through `cmd`.
    pub open spec fn spec_default() -> CommandConfig {
        CommandConfig::spec_new(OutputMode::Allow, ShellMode::Cmd)
    }

    pub closed spec fn spec_new(supress: OutputMode, shell: ShellMode) -> CommandConfig {
        CommandConfig { supress_output: supress, shell_mode: shell }
    }
}

impl Default for CommandConfig {
    /// Output shown, run through `cmd`.
    fn default() -> (r: CommandConfig)
        ensures
            r == CommandConfig::spec_default(),
            r.spec_output_mode() == OutputMode::Allow,
            r.spec_shell_mode() == ShellMode::Cmd,
    {
        CommandConfig { supress_output: OutputMode::Allow, shell_mode: ShellMode::Cmd }
    }
}

/// What a watcher watches: a directory, whether below its direct children,
/// which extensions (all when empty), and how often.
#[derive(Debug)]
pub struct WatcherConfig {
    pub path: String,
    pub recursive: bool,
    pub patterns: Vec<String>,
    pub interval: Interval,
}

impl WatcherConfig {
    pub fn path(&self) -> (r: &String)
        ensures
            r == &self.path,
    {
        &self.path
    }

    pub fn is_recursive(&self) -> (r: bool)
        ensures
            r == self.recursive,
    {
        self.recursive
    }

    pub fn patterns(&self) -> (r: Vec<String>)
        ensures
            r@ == self.patterns@,
    {
        self.patterns.clone()
    }
}

/// A watcher's configuration and the command lines it supervises.
#[derive(Debug)]
pub struct SupervisorConfig {
    pub watcher_config: WatcherConfig,
    pub commands: Vec<String>,
}

/// The fields of a configuration file, as read; absent ones are `None`.
#[derive(Debug)]
pub struct ConfigFile {
    pub watch: String,
    pub command: String,
    pub recursive: Option<bool>,
    pub on_events_only: Option<bool>,
    pub attempts: Option<usize>,
    pub patterns: Option<Vec<String>>,
}

/// A single-command watch: directory, command line, whether the watch is
/// recursive, whether the command waits for a first event, and patterns.
#[derive(Debug)]
pub struct Config {
    path: String,
    command: String,
    recursive: bool,
    only_on_events: bool,
    patterns: Vec<String>,
}

/// Mathematical model of a `Config`.
pub struct ConfigView {
    pub path: Seq<char>,
    pub command: Seq<char>,
    pub recursive: bool,
    pub only_on_events: bool,
    pub patterns: Seq<String>,
}

impl View for Config {
    type V = ConfigView;

    closed spec fn view(&self) -> ConfigView {
        ConfigView {
            path: self.path@,
            command: self.command@,
            recursive: self.recursive,
            only_on_events: self.only_on_events,
            patterns: self.patterns@,
        }
    }
}

impl Config {
    pub fn new(path: String, exec: String, recursive: bool, only_on_events: bool, patterns: Vec<String>) -> (r: Config)
        ensures
            r@ == (ConfigView { path: path@, command: exec@, recursive, only_on_events, patterns: patterns@ }),
    {
        Config { path, command: exec, recursive, only_on_events, patterns }
    }

    pub fn path(&self) -> (r: &String)
        ensures
            r@ == self@.path,
    {
        &self.path
    }

    pub fn exec(&self) -> (r: &String)
        ensures
            r@ == self@.command,
    {
        &self.command
    }

    pub fn is_recursive(&self) -> (r: bool)
        ensures
            r == self@.recursive,
    {
        self.recursive
    }

    pub fn only_events(&self) -> (r: bool)
        ensures
            r == self@.only_on_events,
    {
        self.only_on_events
    }

    pub fn patterns(&self) -> (r: Vec<String>)
        ensures
            r@ == self@.patterns,
    {
        self.patterns.clone()
    }

    pub fn load_from_args(path: String, exec: String, recursive: bool, only_on_events: bool, patterns: Vec<String>) -> (r: Config)
        ensures
            r@ == (ConfigView { path: path@, command: exec@, recursive, only_on_events, patterns: patterns@ }),
    {
        Config::new(path, exec, recursive, only_on_events, patterns)
    }

    /// The configuration that a file gives: a watch that is not recursive,
    /// starts the command at once and keeps every extension, unless the file
    /// says otherwise.
    pub fn load_from_file(file: ConfigFile) -> (r: Config)
        ensures
            r@.path == file.watch@,
            r@.command == file.command@,
            r@.recursive == (file.recursive == Some(true)),
            r@.only_on_events == (file.on_events_only == Some(true)),
            r@.patterns == match file.patterns {
                Some(p) => p@,
                None => Seq::<String>::empty(),
            },
    {
        let recursive = match file.recursive {
            Some(b) => b,
            None => false,
        };
        let only_on_events = match file.on_events_only {
            Some(b) => b,
            None => false,
        };
        let patterns = match file.patterns {
            Some(p) => p,
            None => Vec::new(),
        };
        Config::new(file.watch, file.command, recursive, only_on_events, patterns)
    }
}

/// The name of the configuration file looked for in the working tree.
pub open spec fn config_file_name() -> Seq<char> {
    seq!['o', 'b', 's', 'e', 'r', 'v', 'e', 'r', '.', 'j', 's', 'o', 'n']
}

pub open spec fn is_config_entry(e: EntryView) -> bool {
    e.name == config_file_name()
}

/// The path of the first entry of a walk that is named `observer.json`.
pub fn get_config_file(entries: &Vec<Entry>) -> (r: Option<String>)
    ensures
        r matches Some(p) ==> exists|i: int|
            0 <= i < entries@.len() && is_config_entry(#[trigger] entries@[i]@) && p@ == entries@[i].path@
                && forall|j: int| 0 <= j < i ==> !is_config_entry(#[trigger] entries@[j]@),
        r is None ==> forall|i: int| 0 <= i < entries@.len() ==> !is_config_entry(#[trigger] entries@[i]@),
{
    let wanted = "observer.json".to_owned();
    proof {
        reveal_strlit("observer.json");
    }
    assert(wanted@ =~= config_file_name());
    let mut i: usize = 0;
    while i < entries.len()
        invariant
            i <= entries@.len(),
            wanted@ == config_file_name(),
            forall|j: int| 0 <= j < i ==> !is_config_entry(#[trigger] entries@[j]@),
        decreases entries@.len() - i,
    {
        if entries[i].name == wanted {
            let p = entries[i].path.clone();
            assert(is_config_entry(entries@[i as int]@));
            return Some(p);
        }
        i = i + 1;
    }
    None
}

} // verus!
