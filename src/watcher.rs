//! The watcher: its poll interval, the baseline snapshot it keeps, and the
//! events it reports on each poll.
use vstd::prelude::*;
use core::time::Duration;
use crate::config::WatcherConfig;
use crate::diff::{diff, diff_spec, events_view};
use crate::file::{FileEvent, FileView};
use crate::snapshot::{entries_view, scan_entries, scan_spec, strings_view, Entry, Snapshot};

verus! {

#[derive(Debug, PartialEq, Eq, Structural)]
pub enum Errors {
    InvalidParseError,
}

/// The unit written after an interval's number.
#[derive(Clone, Copy, Debug, PartialEq, Eq, Structural)]
pub enum TimeUnit {
    Millis,
    Seconds,
    Minutes,
}

/// How often a watcher polls: every given duration, or with no pause.
#[derive(Debug, PartialEq)]
pub enum Interval {
    Check(Duration),
    NoPause,
}

pub open spec fn is_digit(c: char) -> bool {
    '0' <= c <= '9'
}

pub open spec fn all_digits(s: Seq<char>) -> bool {
    forall|i: int| 0 <= i < s.len() ==> is_digit(#[trigger] s[i])
}

/// The number that a run of decimal digits writes.
pub open spec fn digits_value(s: Seq<char>) -> nat
    decreases s.len(),
{
    if s.len() == 0 {
        0
    } else {
        digits_value(s.drop_last()) * 10 + (s.last() as nat - '0' as nat) as nat
    }
}

pub open spec fn unit_suffix(u: TimeUnit) -> Seq<char> {
    match u {
        TimeUnit::Millis => seq!['m', 's'],
        TimeUnit::Seconds => seq!['s'],
        TimeUnit::Minutes => seq!['m'],
    }
}

/// `s` is a non-empty run of digits writing `amount`, then the suffix of
/// `unit` and nothing more (`500ms`, `30s`, `2m`).
pub open spec fn reads_as(s: Seq<char>, amount: nat, unit: TimeUnit) -> bool {
    exists|n: int|
        1 <= n <= s.len() && all_digits(#[trigger] s.take(n)) && s.skip(n) == unit_suffix(unit)
            && digits_value(s.take(n)) == amount
}

proof fn lemma_digits_value_grows(s: Seq<char>)
    requires
        s.len() > 0,
        is_digit(s.last()),
    ensures
        digits_value(s) >= digits_value(s.drop_last()),
{
}

/// Parses an interval written as digits and a unit. It fails when the text
/// has another shape or the number does not fit in a `u64`.
pub fn parse_interval(s: &str) -> (r: Result<(u64, TimeUnit), Errors>)
    ensures
        r matches Ok((amount, unit)) ==> reads_as(s@, amount as nat, unit),
        r is Err ==> forall|a: nat, u: TimeUnit| reads_as(s@, a, u) ==> a > u64::MAX,
{
    let len = s.unicode_len();
    let mut i: usize = 0;
    let mut value: u64 = 0;
    let mut overflow = false;
    while i < len && '0' <= s.get_char(i) && s.get_char(i) <= '9'
        invariant
            len == s@.len(),
            i <= len,
            all_digits(s@.take(i as int)),
            !overflow ==> value as nat == digits_value(s@.take(i as int)),
            overflow ==> digits_value(s@.take(i as int)) > u64::MAX,
        decreases len - i,
    {
        let c = s.get_char(i);
        let ghost t = s@.take(i as int + 1);
        assert(t.drop_last() =~= s@.take(i as int));
        assert(t.last() == c);
        proof {
            lemma_digits_value_grows(t);
        }
        let d = (c as u32 - '0' as u32) as u64;
        if !overflow {
            if value > (u64::MAX - d) / 10 {
                overflow = true;
            } else {
                value = value * 10 + d;
            }
        }
        i = i + 1;
        assert(all_digits(s@.take(i as int)));
    }
    let ghost n = i as int;
    assert(n == s@.len() || !is_digit(s@[n]));
    proof {
        // any reading splits the text where the digit run ends
        assert forall|a: nat, u: TimeUnit| #[trigger] reads_as(s@, a, u) implies {
            &&& n >= 1
            &&& s@.skip(n) == unit_suffix(u)
            &&& digits_value(s@.take(n)) == a
        } by {
            let m = choose|m: int|
                1 <= m <= s@.len() && all_digits(#[trigger] s@.take(m)) && s@.skip(m) == unit_suffix(u)
                    && digits_value(s@.take(m)) == a;
            assert(s@.skip(m).len() >= 1);
            assert(s@[m] == s@.skip(m)[0]);
            if m < n {
                assert(s@.take(n)[m] == s@[m]);
            } else if m > n {
                assert(s@.take(m)[n] == s@[n]);
            }
        }
    }
    if i == 0 || overflow {
        return Err(Errors::InvalidParseError);
    }
    let rest = len - i;
    let unit = if rest == 2 && s.get_char(i) == 'm' && s.get_char(i + 1) == 's' {
        TimeUnit::Millis
    } else if rest == 1 && s.get_char(i) == 's' {
        TimeUnit::Seconds
    } else if rest == 1 && s.get_char(i) == 'm' {
        TimeUnit::Minutes
    } else {
        proof {
            assert forall|a: nat, u: TimeUnit| reads_as(s@, a, u) implies a > u64::MAX by {
                assert(s@.skip(n) == unit_suffix(u));
                assert(s@.skip(n).len() == rest);
                assert(s@.skip(n)[0] == s@[n]);
                if rest == 2 {
                    assert(s@.skip(n)[1] == s@[n + 1]);
                }
            }
        }
        return Err(Errors::InvalidParseError);
    };
    assert(s@.skip(n) =~= unit_suffix(unit));
    assert(reads_as(s@, value as nat, unit));
    Ok((value, unit))
}

impl Interval {
    /// The interval of `amount` units. Minutes are counted in seconds, so it
    /// is `None` when that count does not fit in a `u64`.
    pub fn from_parts(amount: u64, unit: TimeUnit) -> (r: Option<Interval>)
        ensures
            r is Some <==> (unit != TimeUnit::Minutes || amount as nat * 60 <= u64::MAX),
            r matches Some(i) ==> i is Check,
    {
        match unit {
            TimeUnit::Millis => Some(Interval::Check(Duration::from_millis(amount))),
            TimeUnit::Seconds => Some(Interval::Check(Duration::from_secs(amount))),
            TimeUnit::Minutes => {
                if amount > u64::MAX / 60 {
                    None
                } else {
                    Some(Interval::Check(Duration::from_secs(amount * 60)))
                }
            },
        }
    }
}

/// Reads an interval such as `500ms`, `30s` or `2m`.
impl core::str::FromStr for Interval {
    type Err = Errors;

    fn from_str(s: &str) -> Result<Interval, Errors> {
        match parse_interval(s) {
            Ok((amount, unit)) => match Interval::from_parts(amount, unit) {
                Some(i) => Ok(i),
                None => Err(Errors::InvalidParseError),
            },
            Err(e) => Err(e),
        }
    }
}

/// Polls a directory: keeps the snapshot of the last change (the baseline)
/// and reports what changed since. It has no baseline until it is started.
#[derive(Debug)]
pub struct Watcher {
    path: String,
    recursive: bool,
    files: Option<Snapshot>,
    interval: Interval,
    patterns: Vec<String>,
}

impl Watcher {
    pub closed spec fn baseline(&self) -> Option<Seq<FileView>> {
        match self.files {
            Some(s) => Some(s@),
            None => None,
        }
    }

    pub closed spec fn spec_path(&self) -> Seq<char> {
        self.path@
    }

    pub closed spec fn spec_recursive(&self) -> bool {
        self.recursive
    }

    pub closed spec fn spec_interval(&self) -> Interval {
        self.interval
    }

    pub closed spec fn spec_patterns(&self) -> Seq<Seq<char>> {
        strings_view(self.patterns@)
    }

    /// The snapshot that a walk with these entries gives under this
    /// watcher's rules.
    pub open spec fn scan_of(&self, entries: Seq<Entry>) -> Seq<FileView> {
        scan_spec(entries_view(entries), self.spec_recursive(), self.spec_patterns())
    }

    /// The same settings: path, recursion, patterns and interval.
    pub open spec fn same_settings(&self, other: &Watcher) -> bool {
        &&& self.spec_path() == other.spec_path()
        &&& self.spec_recursive() == other.spec_recursive()
        &&& self.spec_patterns() == other.spec_patterns()
        &&& self.spec_interval() == other.spec_interval()
    }

    pub fn new(config: WatcherConfig) -> (r: Watcher)
        ensures
            r.baseline() is None,
            r.spec_path() == config.path@,
            r.spec_recursive() == config.recursive,
            r.spec_patterns() == strings_view(config.patterns@),
            r.spec_interval() == config.interval,
    {
        Watcher {
            files: None,
            path: config.path,
            recursive: config.recursive,
            interval: config.interval,
            patterns: config.patterns,
        }
    }

    /// The snapshot of a walk's entries under this watcher's rules.
    pub fn get_files(&self, entries: &Vec<Entry>) -> (r: Snapshot)
        ensures
            r@ == self.scan_of(entries@),
            r.wf(),
    {
        scan_entries(entries, self.recursive, &self.patterns)
    }

    /// Takes the first baseline from a walk's entries.
    pub fn start(&mut self, entries: &Vec<Entry>)
        ensures
            final(self).same_settings(old(self)),
            final(self).baseline() == Some(old(self).scan_of(entries@)),
    {
        let snap = self.get_files(entries);
        self.files = Some(snap);
    }

    /// The events of one poll, given the entries of the walk it made: the
    /// whole diff from the baseline, which then moves to the new snapshot
    /// unless the diff is empty. Before `start`, no event.
    pub fn get_events(&mut self, entries: &Vec<Entry>) -> (r: Vec<FileEvent>)
        ensures
            final(self).same_settings(old(self)),
            match old(self).baseline() {
                None => r@.len() == 0 && final(self).baseline() is None,
                Some(b) => {
                    let cur = old(self).scan_of(entries@);
                    &&& events_view(r@) == diff_spec(b, cur)
                    &&& final(self).baseline() == if r@.len() > 0 {
                        Some(cur)
                    } else {
                        Some(b)
                    }
                },
            },
    {
        let current = self.get_files(entries);
        let events = match &self.files {
            None => {
                return Vec::new();
            },
            Some(last) => diff(last, &current),
        };
        if events.len() > 0 {
            self.files = Some(current);
        }
        events
    }

    pub fn interval(&self) -> (r: &Interval)
        ensures
            *r == self.spec_interval(),
    {
        &self.interval
    }

    pub fn path(&self) -> (r: &String)
        ensures
            r@ == self.spec_path(),
    {
        &self.path
    }

    pub fn is_recursive(&self) -> (r: bool)
        ensures
            r == self.spec_recursive(),
    {
        self.recursive
    }

    pub fn patterns(&self) -> (r: Vec<String>)
        ensures
            strings_view(r@) == self.spec_patterns(),
    {
        self.patterns.clone()
    }
}

/// Relies on `Duration::from_millis`; nothing is claimed of the duration.
pub assume_specification[ core::time::Duration::from_millis ](millis: u64) -> Duration;

/// Relies on `Duration::from_secs`; nothing is claimed of the duration.
pub assume_specification[ core::time::Duration::from_secs ](secs: u64) -> Duration;

} // verus!
