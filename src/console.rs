//! The operator console: the commands an operator types, one per line.
use vstd::prelude::*;
use crate::command::{is_white, white};

verus! {

#[derive(Debug, PartialEq, Eq, Structural)]
pub enum ConsoleCommand {
    /// shut down and leave with code `0`
    Exit,
    /// clear the screen
    Clear,
    /// tear the supervisor down and build a new one
    Restart,
    /// anything else
    Unrecognized,
}

/// `s` without white space at either end.
pub open spec fn trimmed(s: Seq<char>) -> Seq<char>
    decreases s.len(),
{
    if s.len() > 0 && is_white(s[0]) {
        trimmed(s.drop_first())
    } else if s.len() > 0 && is_white(s.last()) {
        trimmed(s.drop_last())
    } else {
        s
    }
}

pub open spec fn console_command_of(line: Seq<char>) -> ConsoleCommand {
    let t = trimmed(line);
    if t == seq!['e', 'x', 'i', 't'] {
        ConsoleCommand::Exit
    } else if t == seq!['c', 'l', 'e', 'a', 'r'] {
        ConsoleCommand::Clear
    } else if t == seq!['r', 'e', 's', 't', 'a', 'r', 't'] {
        ConsoleCommand::Restart
    } else {
        ConsoleCommand::Unrecognized
    }
}

/// The bounds of the trimmed text within `s`.
fn trim_bounds(s: &str) -> (r: (usize, usize))
    ensures
        r.0 <= r.1 <= s@.len(),
        s@.subrange(r.0 as int, r.1 as int) == trimmed(s@),
{
    let n = s.unicode_len();
    let mut a: usize = 0;
    assert(s@.subrange(0, n as int) =~= s@);
    while a < n && white(s.get_char(a))
        invariant
            n == s@.len(),
            a <= n,
            trimmed(s@.subrange(a as int, n as int)) == trimmed(s@),
        decreases n - a,
    {
        let ghost t = s@.subrange(a as int, n as int);
        assert(t.drop_first() =~= s@.subrange(a as int + 1, n as int));
        assert(t[0] == s@[a as int]);
        a = a + 1;
    }
    let mut b: usize = n;
    while b > a && white(s.get_char(b - 1))
        invariant
            n == s@.len(),
            a <= b <= n,
            a < n ==> !is_white(s@[a as int]),
            trimmed(s@.subrange(a as int, b as int)) == trimmed(s@),
        decreases b - a,
    {
        let ghost t = s@.subrange(a as int, b as int);
        assert(t.drop_last() =~= s@.subrange(a as int, b as int - 1));
        assert(t.last() == s@[b - 1]);
        assert(t[0] == s@[a as int]);
        b = b - 1;
    }
    let ghost t = s@.subrange(a as int, b as int);
    if b > a {
        assert(t[0] == s@[a as int]);
        assert(t.last() == s@[b - 1]);
    }
    assert(trimmed(t) == t);
    (a, b)
}

/// Whether `s` from `from` to `to` spells `word`.
fn spells(s: &str, from: usize, to: usize, word: &str) -> (r: bool)
    requires
        from <= to <= s@.len(),
    ensures
        r == (s@.subrange(from as int, to as int) == word@),
{
    let m = word.unicode_len();
    if to - from != m {
        return false;
    }
    let mut i: usize = 0;
    while i < m
        invariant
            from <= to <= s@.len(),
            m == word@.len(),
            to - from == m,
            i <= m,
            forall|j: int| 0 <= j < i ==> s@[from + j] == word@[j],
        decreases m - i,
    {
        if s.get_char(from + i) != word.get_char(i) {
            assert(s@.subrange(from as int, to as int)[i as int] != word@[i as int]);
            return false;
        }
        i = i + 1;
    }
    assert(s@.subrange(from as int, to as int) =~= word@);
    true
}

/// The console command that a typed line asks for, white space around it
/// ignored.
pub fn console_command(line: &str) -> (r: ConsoleCommand)
    ensures
        r == console_command_of(line@),
{
    let (a, b) = trim_bounds(line);
    proof {
        reveal_strlit("exit");
        reveal_strlit("clear");
        reveal_strlit("restart");
    }
    assert("exit"@ =~= seq!['e', 'x', 'i', 't']);
    assert("clear"@ =~= seq!['c', 'l', 'e', 'a', 'r']);
    assert("restart"@ =~= seq!['r', 'e', 's', 't', 'a', 'r', 't']);
    if spells(line, a, b, "exit") {
        ConsoleCommand::Exit
    } else if spells(line, a, b, "clear") {
        ConsoleCommand::Clear
    } else if spells(line, a, b, "restart") {
        ConsoleCommand::Restart
    } else {
        ConsoleCommand::Unrecognized
    }
}

} // verus!
