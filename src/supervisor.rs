//! The supervisor's decisions: its phases, what each file event asks of the
//! supervised commands, and the configuration it holds. Running the
//! commands and polling the directory happen outside, in the order these
//! decisions give.
use vstd::prelude::*;
use crate::command::{split_words, words, CommandError, CommandErrorKind};
use crate::config::SupervisorConfig;
use crate::diff::{diff_spec, events_view};
use crate::file::{EventView, FileEvent};
use crate::snapshot::{strings_view, Entry};
use crate::watcher::Watcher;

verus! {

#[derive(Clone, Copy, Debug, PartialEq, Eq, Structural)]
pub enum Phase {
    Initializing,
    Watching,
    ReloadingConfig,
    ShuttingDown,
}

/// What a file event asks of the supervised commands.
#[derive(Clone, Copy, Debug, PartialEq, Eq, Structural)]
pub enum Reaction {
    /// tell the operator; the commands go on
    Report,
    /// kill every command, then launch them all again
    RestartCommands,
    /// read the configuration file again and start over from it
    ReloadConfig,
}

/// Whether every command line holds a word.
pub open spec fn lines_valid(lines: Seq<String>) -> bool {
    forall|i: int| 0 <= i < lines.len() ==> words(#[trigger] lines[i]@).len() > 0
}

/// The reaction to an event, given the path of the configuration file.
pub open spec fn reaction_to(e: EventView, config_file: Seq<char>) -> Reaction {
    match e {
        EventView::Modified(f) => if f.path == config_file {
            Reaction::ReloadConfig
        } else {
            Reaction::RestartCommands
        },
        _ => Reaction::Report,
    }
}

/// Whether every command line of `lines` holds a word.
fn check_lines(lines: &Vec<String>) -> (r: bool)
    ensures
        r == lines_valid(lines@),
{
    let mut i: usize = 0;
    while i < lines.len()
        invariant
            i <= lines@.len(),
            forall|j: int| 0 <= j < i ==> words(#[trigger] lines@[j]@).len() > 0,
        decreases lines@.len() - i,
    {
        let ws = split_words(lines[i].as_str());
        if ws.len() == 0 {
            return false;
        }
        i = i + 1;
    }
    true
}

/// Whether a failed kill is worth telling: every error but the one of a
/// command that was not running.
pub fn kill_error_to_report(r: &Result<(), CommandError>) -> (b: bool)
    ensures
        b == (r matches Err(e) && e.kind != CommandErrorKind::ExecutionFinalizated),
{
    match r {
        Ok(_) => false,
        Err(e) => match e.kind {
            CommandErrorKind::ExecutionFinalizated => false,
            _ => true,
        },
    }
}

/// The supervisor: a watcher, the command lines it supervises, the path of
/// its configuration file, whether the commands wait for a first event, and
/// its phase.
#[derive(Debug)]
pub struct Supervisor {
    watcher: Watcher,
    commands: Vec<String>,
    config_file: String,
    events_only: bool,
    phase: Phase,
}

impl Supervisor {
    pub closed spec fn spec_watcher(&self) -> Watcher {
        self.watcher
    }

    pub closed spec fn spec_commands(&self) -> Seq<String> {
        self.commands@
    }

    pub closed spec fn spec_config_file(&self) -> Seq<char> {
        self.config_file@
    }

    pub closed spec fn spec_events_only(&self) -> bool {
        self.events_only
    }

    pub closed spec fn spec_phase(&self) -> Phase {
        self.phase
    }

    /// The same commands, configuration file and mode.
    pub open spec fn same_setup(&self, other: &Supervisor) -> bool {
        &&& self.spec_commands() == other.spec_commands()
        &&& self.spec_config_file() == other.spec_config_file()
        &&& self.spec_events_only() == other.spec_events_only()
    }

    /// A supervisor in its first phase. Every command line must hold a word;
    /// else the configuration is refused with `InvalidParse`.
    pub fn new(config: SupervisorConfig, config_file: String, events_only: bool) -> (r: Result<
        Supervisor,
        CommandErrorKind,
    >)
        ensures
            r is Err <==> !lines_valid(config.commands@),
            r matches Err(k) ==> k == CommandErrorKind::InvalidParse,
            r matches Ok(s) ==> {
                &&& s.spec_phase() == Phase::Initializing
                &&& s.spec_commands() == config.commands@
                &&& s.spec_config_file() == config_file@
                &&& s.spec_events_only() == events_only
                &&& s.spec_watcher().baseline() is None
                &&& s.spec_watcher().spec_path() == config.watcher_config.path@
                &&& s.spec_watcher().spec_recursive() == config.watcher_config.recursive
                &&& s.spec_watcher().spec_patterns() == strings_view(config.watcher_config.patterns@)
            },
    {
        if !check_lines(&config.commands) {
            return Err(CommandErrorKind::InvalidParse);
        }
        Ok(Supervisor {
            watcher: Watcher::new(config.watcher_config),
            commands: config.commands,
            config_file,
            events_only,
            phase: Phase::Initializing,
        })
    }

    /// Takes the first baseline from a walk's entries and starts watching.
    /// The answer says whether the commands launch now: not in events-only
    /// mode, where they wait for the first event that asks for them.
    pub fn start(&mut self, entries: &Vec<Entry>) -> (launch: bool)
        requires
            old(self).spec_phase() == Phase::Initializing,
        ensures
            final(self).same_setup(old(self)),
            final(self).spec_phase() == Phase::Watching,
            final(self).spec_watcher().same_settings(&old(self).spec_watcher()),
            final(self).spec_watcher().baseline() == Some(old(self).spec_watcher().scan_of(entries@)),
            launch == !old(self).spec_events_only(),
    {
        self.watcher.start(entries);
        self.phase = Phase::Watching;
        !self.events_only
    }

    /// The events of one poll, given the entries of the walk it made.
    pub fn poll(&mut self, entries: &Vec<Entry>) -> (r: Vec<FileEvent>)
        requires
            old(self).spec_phase() == Phase::Watching,
        ensures
            final(self).same_setup(old(self)),
            final(self).spec_phase() == Phase::Watching,
            final(self).spec_watcher().same_settings(&old(self).spec_watcher()),
            match old(self).spec_watcher().baseline() {
                None => r@.len() == 0 && final(self).spec_watcher().baseline() is None,
                Some(b) => {
                    let cur = old(self).spec_watcher().scan_of(entries@);
                    &&& events_view(r@) == diff_spec(b, cur)
                    &&& final(self).spec_watcher().baseline() == if r@.len() > 0 {
                        Some(cur)
                    } else {
                        Some(b)
                    }
                },
            },
    {
        self.watcher.get_events(entries)
    }

    /// Decides what an event asks for. A change to the configuration file
    /// moves the supervisor to reloading it; a change to any other file asks
    /// for a restart of the commands; a creation or a deletion is only told.
    pub fn react(&mut self, event: &FileEvent) -> (r: Reaction)
        requires
            old(self).spec_phase() == Phase::Watching,
        ensures
            final(self).same_setup(old(self)),
            final(self).spec_watcher() == old(self).spec_watcher(),
            r == reaction_to(event@, old(self).spec_config_file()),
            final(self).spec_phase() == if r == Reaction::ReloadConfig {
                Phase::ReloadingConfig
            } else {
                Phase::Watching
            },
    {
        match event {
            FileEvent::Modified(f) => {
                let path = f.path();
                if path == self.config_file {
                    self.phase = Phase::ReloadingConfig;
                    Reaction::ReloadConfig
                } else {
                    Reaction::RestartCommands
                }
            },
            _ => Reaction::Report,
        }
    }

    /// Replaces the watch and the commands with those of a new
    /// configuration, with a fresh baseline from a walk's entries, and goes
    /// back to watching. A configuration with a command line that holds no
    /// word is refused: the old one stays, and watching goes on.
    pub fn reconfigure(&mut self, config: SupervisorConfig, entries: &Vec<Entry>) -> (r: Result<
        (),
        CommandErrorKind,
    >)
        requires
            old(self).spec_phase() == Phase::ReloadingConfig,
        ensures
            final(self).spec_phase() == Phase::Watching,
            final(self).spec_config_file() == old(self).spec_config_file(),
            final(self).spec_events_only() == old(self).spec_events_only(),
            r is Err <==> !lines_valid(config.commands@),
            r matches Err(k) ==> k == CommandErrorKind::InvalidParse && final(self).spec_commands()
                == old(self).spec_commands() && final(self).spec_watcher() == old(self).spec_watcher(),
            r is Ok ==> {
                &&& final(self).spec_commands() == config.commands@
                &&& final(self).spec_watcher().spec_path() == config.watcher_config.path@
                &&& final(self).spec_watcher().spec_recursive() == config.watcher_config.recursive
                &&& final(self).spec_watcher().spec_patterns() == strings_view(config.watcher_config.patterns@)
                &&& final(self).spec_watcher().baseline() == Some(
                    final(self).spec_watcher().scan_of(entries@),
                )
            },
    {
        self.phase = Phase::Watching;
        if !check_lines(&config.commands) {
            return Err(CommandErrorKind::InvalidParse);
        }
        let mut watcher = Watcher::new(config.watcher_config);
        watcher.start(entries);
        self.watcher = watcher;
        self.commands = config.commands;
        Ok(())
    }

    /// Moves to the last phase, from any other.
    pub fn shutdown(&mut self)
        ensures
            final(self).same_setup(old(self)),
            final(self).spec_watcher() == old(self).spec_watcher(),
            final(self).spec_phase() == Phase::ShuttingDown,
    {
        self.phase = Phase::ShuttingDown;
    }

    pub fn phase(&self) -> (r: Phase)
        ensures
            r == self.spec_phase(),
    {
        self.phase
    }

    pub fn commands(&self) -> (r: Vec<String>)
        ensures
            r@ == self.spec_commands(),
    {
        self.commands.clone()
    }

    pub fn watcher(&self) -> (r: &Watcher)
        ensures
            *r == self.spec_watcher(),
    {
        &self.watcher
    }
}

} // verus!
