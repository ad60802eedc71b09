//! The process handle: a command line split into a program and its
//! arguments, and the state machine of one run (pending, running, finished
//! or failed). Spawning, waiting and killing the OS process happen outside;
//! their outcomes are handed to the methods here.
use vstd::prelude::*;
use crate::config::{CommandConfig, ShellMode};
use crate::snapshot::strings_view;

verus! {

/// The state of a command's run.
#[derive(Debug, PartialEq)]
pub enum Status {
    /// not started yet
    Pending,
    /// started and not finished
    Running,
    /// finished, with this exit code
    Finished(i32),
    /// the process could not be created, for this reason
    Failed(String),
}

#[derive(Debug, PartialEq, Eq, Structural)]
pub enum CommandErrorKind {
    /// the command line holds no word
    InvalidParse,
    /// the command is not running, so there is nothing to kill
    ExecutionFinalizated,
    /// the kill request could not be delivered
    ExecutionError,
}

#[derive(Debug)]
pub struct CommandError {
    pub kind: CommandErrorKind,
    pub msg: String,
}

/// The pieces of `s` between single spaces, empty pieces included
/// (`"a  b"` gives `a`, an empty piece, and `b`).
pub open spec fn split_spaces(s: Seq<char>) -> Seq<Seq<char>>
    decreases s.len(),
{
    if s.len() == 0 {
        seq![Seq::empty()]
    } else {
        let r = split_spaces(s.drop_last());
        if s.last() == ' ' {
            r.push(Seq::empty())
        } else {
            r.update(r.len() - 1, r.last().push(s.last()))
        }
    }
}

pub proof fn lemma_split_spaces_nonempty(s: Seq<char>)
    ensures
        split_spaces(s).len() >= 1,
    decreases s.len(),
{
    if s.len() > 0 {
        lemma_split_spaces_nonempty(s.drop_last());
    }
}

/// Unicode white space, as `char::is_whitespace` classifies it.
pub open spec fn is_white(c: char) -> bool {
    ||| c == ' '
    ||| ('\t' <= c <= '\r')
    ||| c == '\u{85}'
    ||| c == '\u{a0}'
    ||| c == '\u{1680}'
    ||| ('\u{2000}' <= c <= '\u{200a}')
    ||| c == '\u{2028}'
    ||| c == '\u{2029}'
    ||| c == '\u{202f}'
    ||| c == '\u{205f}'
    ||| c == '\u{3000}'
}

/// The maximal runs of non-white characters of `s`, in order.
pub open spec fn words(s: Seq<char>) -> Seq<Seq<char>>
    decreases s.len(),
{
    if s.len() == 0 {
        Seq::empty()
    } else {
        let w = words(s.drop_last());
        let c = s.last();
        if is_white(c) {
            w
        } else if s.len() >= 2 && !is_white(s[s.len() - 2]) {
            w.update(w.len() - 1, w.last().push(c))
        } else {
            w.push(seq![c])
        }
    }
}

/// The pieces joined with single spaces.
pub open spec fn join_spaces(parts: Seq<Seq<char>>) -> Seq<char>
    decreases parts.len(),
{
    if parts.len() == 0 {
        Seq::empty()
    } else if parts.len() == 1 {
        parts[0]
    } else {
        join_spaces(parts.drop_last()) + seq![' '] + parts.last()
    }
}

/// The line that a shell runs: the program, a space, and the arguments
/// joined with spaces.
pub open spec fn line_of(name: Seq<char>, args: Seq<Seq<char>>) -> Seq<char> {
    name + seq![' '] + join_spaces(args)
}

/// The program and flag through which a shell mode runs a line.
pub open spec fn shell_of(mode: ShellMode) -> (Seq<char>, Seq<char>) {
    match mode {
        ShellMode::Cmd => (seq!['c', 'm', 'd'], seq!['/', 'C']),
        ShellMode::Powershell => (
            seq!['p', 'o', 'w', 'e', 'r', 's', 'h', 'e', 'l', 'l'],
            seq!['-', 'c'],
        ),
        ShellMode::Shell => (seq!['s', 'h'], seq!['-', 'c']),
    }
}

/// Splits `s` at every space.
pub fn split_on_spaces(s: &str) -> (r: Vec<String>)
    ensures
        strings_view(r@) == split_spaces(s@),
{
    let n = s.unicode_len();
    let mut parts: Vec<String> = Vec::new();
    let mut start: usize = 0;
    let mut i: usize = 0;
    assert(s@.take(0) =~= Seq::<char>::empty());
    assert(strings_view(parts@).push(s@.subrange(0, 0)) =~= split_spaces(s@.take(0)));
    while i < n
        invariant
            n == s@.len(),
            start <= i <= n,
            strings_view(parts@).push(s@.subrange(start as int, i as int)) == split_spaces(s@.take(i as int)),
        decreases n - i,
    {
        let ghost t = s@.take(i as int + 1);
        assert(t.drop_last() =~= s@.take(i as int));
        let c = s.get_char(i);
        assert(t.last() == c);
        if c == ' ' {
            let piece = s.substring_char(start, i).to_owned();
            let ghost before = strings_view(parts@);
            parts.push(piece);
            assert(strings_view(parts@) =~= before.push(s@.subrange(start as int, i as int)));
            assert(s@.subrange(i as int + 1, i as int + 1) =~= Seq::<char>::empty());
            assert(strings_view(parts@).push(s@.subrange(i as int + 1, i as int + 1)) =~= split_spaces(t));
            start = i + 1;
        } else {
            assert(s@.subrange(start as int, i as int + 1) =~= s@.subrange(start as int, i as int).push(c));
            assert(strings_view(parts@).push(s@.subrange(start as int, i as int + 1)) =~= split_spaces(t));
        }
        i = i + 1;
    }
    assert(s@.take(n as int) =~= s@);
    let last = s.substring_char(start, n).to_owned();
    parts.push(last);
    assert(strings_view(parts@) =~= split_spaces(s@));
    parts
}

/// Whether `c` is white space, as `char::is_whitespace` says.
pub fn white(c: char) -> (r: bool)
    ensures
        r == is_white(c),
{
    c == ' ' || ('\t' <= c && c <= '\r') || c == '\u{85}' || c == '\u{a0}' || c == '\u{1680}'
        || ('\u{2000}' <= c && c <= '\u{200a}') || c == '\u{2028}' || c == '\u{2029}'
        || c == '\u{202f}' || c == '\u{205f}' || c == '\u{3000}'
}

/// The words of `s`: its maximal runs of non-white characters.
pub fn split_words(s: &str) -> (r: Vec<String>)
    ensures
        strings_view(r@) == words(s@),
{
    let n = s.unicode_len();
    let mut out: Vec<String> = Vec::new();
    let mut start: usize = 0;
    let mut in_word = false;
    let mut i: usize = 0;
    assert(s@.take(0) =~= Seq::<char>::empty());
    while i < n
        invariant
            n == s@.len(),
            start <= i <= n,
            in_word ==> i > 0 && !is_white(s@[i - 1]),
            !in_word ==> (i == 0 || is_white(s@[i - 1])),
            !in_word ==> strings_view(out@) == words(s@.take(i as int)),
            in_word ==> start < i && strings_view(out@).push(s@.subrange(start as int, i as int))
                == words(s@.take(i as int)),
        decreases n - i,
    {
        let ghost t = s@.take(i as int + 1);
        assert(t.drop_last() =~= s@.take(i as int));
        let c = s.get_char(i);
        assert(t.last() == c);
        if i >= 1 {
            assert(t[t.len() - 2] == s@[i - 1]);
        }
        if white(c) {
            if in_word {
                let w = s.substring_char(start, i).to_owned();
                out.push(w);
                assert(strings_view(out@) =~= words(t));
                in_word = false;
            }
        } else {
            if !in_word {
                start = i;
                assert(s@.subrange(start as int, i as int + 1) =~= seq![c]);
                assert(strings_view(out@).push(s@.subrange(start as int, i as int + 1)) =~= words(t));
                in_word = true;
            } else {
                assert(s@.subrange(start as int, i as int + 1) =~= s@.subrange(start as int, i as int).push(c));
                assert(strings_view(out@).push(s@.subrange(start as int, i as int + 1)) =~= words(t));
            }
        }
        i = i + 1;
    }
    assert(s@.take(n as int) =~= s@);
    if in_word {
        let w = s.substring_char(start, n).to_owned();
        out.push(w);
    }
    out
}

/// The pieces joined with single spaces.
pub fn join_with_spaces(parts: &Vec<String>) -> (r: String)
    ensures
        r@ == join_spaces(strings_view(parts@)),
{
    let ghost ps = strings_view(parts@);
    let mut out = String::new();
    let mut i: usize = 0;
    assert(ps.take(0) =~= Seq::<Seq<char>>::empty());
    while i < parts.len()
        invariant
            i <= parts@.len(),
            ps == strings_view(parts@),
            out@ == join_spaces(ps.take(i as int)),
        decreases parts@.len() - i,
    {
        let ghost t = ps.take(i as int + 1);
        assert(t.drop_last() =~= ps.take(i as int));
        assert(t.last() == parts@[i as int]@);
        if i > 0 {
            out.append(" ");
            proof {
                reveal_strlit(" ");
            }
        } else {
            assert(t =~= seq![parts@[0]@]);
        }
        out.append(parts[i].as_str());
        assert(out@ =~= join_spaces(t));
        i = i + 1;
    }
    assert(ps.take(i as int) =~= ps);
    out
}

/// A command: program, arguments, the state of its run, and how it runs.
#[derive(Debug)]
pub struct Command {
    name: String,
    args: Vec<String>,
    state: Status,
    config: CommandConfig,
}

impl Command {
    pub closed spec fn spec_name(&self) -> Seq<char> {
        self.name@
    }

    pub closed spec fn spec_args(&self) -> Seq<Seq<char>> {
        strings_view(self.args@)
    }

    pub closed spec fn spec_state(&self) -> Status {
        self.state
    }

    pub closed spec fn spec_config(&self) -> CommandConfig {
        self.config
    }

    /// The same program, arguments and configuration.
    pub open spec fn same_command(&self, other: &Command) -> bool {
        &&& self.spec_name() == other.spec_name()
        &&& self.spec_args() == other.spec_args()
        &&& self.spec_config() == other.spec_config()
    }

    /// A pending command from a line split at every space: the first piece
    /// is the program, the others its arguments.
    pub fn new(config: CommandConfig, code: String) -> (r: Command)
        ensures
            r.spec_name() == split_spaces(code@)[0],
            r.spec_args() == split_spaces(code@).drop_first(),
            r.spec_state() == Status::Pending,
            r.spec_config() == config,
    {
        let mut pieces = split_on_spaces(code.as_str());
        proof {
            lemma_split_spaces_nonempty(code@);
        }
        let ghost all = strings_view(pieces@);
        let name = pieces.remove(0);
        assert(strings_view(pieces@) =~= all.drop_first());
        Command { name, args: pieces, state: Status::Pending, config }
    }

    /// A pending command with the default configuration from the words of
    /// `s`: the first is the program, the others its arguments. A line with
    /// no word is `InvalidParse`.
    pub fn parse(s: &str) -> (r: Result<Command, CommandErrorKind>)
        ensures
            r is Err <==> words(s@).len() == 0,
            r matches Err(k) ==> k == CommandErrorKind::InvalidParse,
            r matches Ok(c) ==> {
                &&& c.spec_name() == words(s@)[0]
                &&& c.spec_args() == words(s@).drop_first()
                &&& c.spec_state() == Status::Pending
                &&& c.spec_config() == CommandConfig::spec_default()
            },
    {
        let mut ws = split_words(s);
        if ws.len() == 0 {
            return Err(CommandErrorKind::InvalidParse);
        }
        let ghost all = strings_view(ws@);
        let name = ws.remove(0);
        assert(strings_view(ws@) =~= all.drop_first());
        Ok(Command { name, args: ws, state: Status::Pending, config: CommandConfig::default() })
    }

    pub fn name(&self) -> (r: String)
        ensures
            r@ == self.spec_name(),
    {
        self.name.clone()
    }

    pub fn args(&self) -> (r: Vec<String>)
        ensures
            strings_view(r@) == self.spec_args(),
    {
        self.args.clone()
    }

    pub fn is_pending(&self) -> (r: bool)
        ensures
            r == (self.spec_state() is Pending),
    {
        match self.state {
            Status::Pending => true,
            _ => false,
        }
    }

    pub fn is_running(&self) -> (r: bool)
        ensures
            r == (self.spec_state() is Running),
    {
        match self.state {
            Status::Running => true,
            _ => false,
        }
    }

    pub fn is_finished(&self) -> (r: bool)
        ensures
            r == (self.spec_state() is Finished),
    {
        match self.state {
            Status::Finished(_) => true,
            _ => false,
        }
    }

    /// The exit code once finished.
    pub fn exit_code(&self) -> (r: Option<i32>)
        ensures
            r == match self.spec_state() {
                Status::Finished(c) => Some(c),
                _ => None::<i32>,
            },
    {
        match self.state {
            Status::Finished(code) => Some(code),
            _ => None,
        }
    }

    pub fn state(&self) -> (r: &Status)
        ensures
            *r == self.spec_state(),
    {
        &self.state
    }

    pub fn config(&self) -> (r: CommandConfig)
        ensures
            r == self.spec_config(),
    {
        self.config
    }

    pub fn set_config(&mut self, config: CommandConfig)
        ensures
            final(self).spec_config() == config,
            final(self).spec_name() == old(self).spec_name(),
            final(self).spec_args() == old(self).spec_args(),
            final(self).spec_state() == old(self).spec_state(),
    {
        self.config = config;
    }

    /// The line that the shell runs: program and arguments joined by spaces.
    pub fn command_line(&self) -> (r: String)
        ensures
            r@ == line_of(self.spec_name(), self.spec_args()),
    {
        let mut line = self.name.clone();
        line.append(" ");
        let rest = join_with_spaces(&self.args);
        line.append(rest.as_str());
        proof {
            reveal_strlit(" ");
        }
        assert(line@ =~= line_of(self.spec_name(), self.spec_args()));
        line
    }

    /// The process to create: the shell program of the configured mode, its
    /// flag, and the command line.
    pub fn invocation(&self) -> (r: (String, String, String))
        ensures
            (r.0@, r.1@) == shell_of(self.spec_config().spec_shell_mode()),
            r.2@ == line_of(self.spec_name(), self.spec_args()),
    {
        let (program, flag) = match self.config.shell_mode() {
            ShellMode::Cmd => ("cmd", "/C"),
            ShellMode::Powershell => ("powershell", "-c"),
            ShellMode::Shell => ("sh", "-c"),
        };
        proof {
            reveal_strlit("cmd");
            reveal_strlit("/C");
            reveal_strlit("powershell");
            reveal_strlit("-c");
            reveal_strlit("sh");
        }
        let p = program.to_owned();
        let f = flag.to_owned();
        assert((p@, f@) =~= shell_of(self.spec_config().spec_shell_mode()));
        (p, f, self.command_line())
    }

    /// Records the outcome of creating the process of a pending command: it
    /// runs, or it failed for the reason given. Any other state stays.
    pub fn execute(&mut self, spawned: Result<(), String>)
        ensures
            final(self).same_command(old(self)),
            old(self).spec_state() is Pending ==> final(self).spec_state() == match spawned {
                Ok(_) => Status::Running,
                Err(reason) => Status::Failed(reason),
            },
            !(old(self).spec_state() is Pending) ==> final(self).spec_state() == old(self).spec_state(),
    {
        if !self.is_pending() {
            return;
        }
        match spawned {
            Ok(_) => {
                self.state = Status::Running;
            },
            Err(reason) => {
                self.state = Status::Failed(reason);
            },
        }
    }

    /// Records the end of a running command's process: its exit code, or `1`
    /// when it has none or the wait failed (`None`). Any other state stays.
    pub fn exited(&mut self, code: Option<i32>)
        ensures
            final(self).same_command(old(self)),
            old(self).spec_state() is Running ==> final(self).spec_state() == Status::Finished(
                match code {
                    Some(c) => c,
                    None => 1i32,
                },
            ),
            !(old(self).spec_state() is Running) ==> final(self).spec_state() == old(self).spec_state(),
    {
        if !self.is_running() {
            return;
        }
        let c = match code {
            Some(c) => c,
            None => 1,
        };
        self.state = Status::Finished(c);
    }

    /// Kills a running command, given the outcome of delivering the kill.
    /// A command that is not running gives `ExecutionFinalizated` and stays
    /// as it is. A running one is finished either way: with `0` when the kill
    /// was delivered, or with `1` and `ExecutionError` carrying the reason.
    pub fn kill(&mut self, delivered: Result<(), String>) -> (r: Result<(), CommandError>)
        ensures
            final(self).same_command(old(self)),
            !(old(self).spec_state() is Running) ==> {
                &&& final(self).spec_state() == old(self).spec_state()
                &&& r matches Err(e) && e.kind == CommandErrorKind::ExecutionFinalizated
            },
            old(self).spec_state() is Running ==> match delivered {
                Ok(_) => final(self).spec_state() == Status::Finished(0) && r is Ok,
                Err(reason) => {
                    &&& final(self).spec_state() == Status::Finished(1)
                    &&& r matches Err(e) && e.kind == CommandErrorKind::ExecutionError && e.msg == reason
                },
            },
    {
        if !self.is_running() {
            proof {
                reveal_strlit("command killed yet");
            }
            return Err(CommandError {
                kind: CommandErrorKind::ExecutionFinalizated,
                msg: "command killed yet".to_owned(),
            });
        }
        match delivered {
            Ok(_) => {
                self.state = Status::Finished(0);
                Ok(())
            },
            Err(reason) => {
                self.state = Status::Finished(1);
                Err(CommandError { kind: CommandErrorKind::ExecutionError, msg: reason })
            },
        }
    }
}

/// Reads a command line: its words, the first the program.
impl core::str::FromStr for Command {
    type Err = CommandErrorKind;

    fn from_str(s: &str) -> Result<Command, CommandErrorKind> {
        Command::parse(s)
    }
}

} // verus!
