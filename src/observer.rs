//! The single-command observer: a watch configuration and the baseline
//! snapshot that each poll is compared with.
use vstd::prelude::*;
use crate::config::Config;
use crate::diff::{diff, diff_spec, events_view};
use crate::file::{FileEvent, FileView};
use crate::snapshot::{entries_view, scan_entries, scan_spec, strings_view, Entry, Snapshot};

verus! {

/// The pause between two polls of an observer, in milliseconds.
pub const POLL_INTERVAL_MS: u64 = 500;

#[derive(Debug)]
pub struct Observer {
    config: Config,
    files: Snapshot,
}

/// The snapshot that a walk with these entries gives under `config`.
pub open spec fn scan_for(config: Config, entries: Seq<Entry>) -> Seq<FileView> {
    scan_spec(entries_view(entries), config@.recursive, strings_view(config@.patterns))
}

/// The snapshot of a walk's entries under `config`'s rules.
pub fn get_files(config: &Config, entries: &Vec<Entry>) -> (r: Snapshot)
    ensures
        r@ == scan_for(*config, entries@),
        r.wf(),
{
    let patterns = config.patterns();
    scan_entries(entries, config.is_recursive(), &patterns)
}

impl Observer {
    pub closed spec fn baseline(&self) -> Seq<FileView> {
        self.files@
    }

    pub closed spec fn spec_config(&self) -> Config {
        self.config
    }

    /// An observer whose baseline is the snapshot of the given walk.
    pub fn new(config: Config, entries: &Vec<Entry>) -> (r: Observer)
        ensures
            r.spec_config() == config,
            r.baseline() == scan_for(config, entries@),
    {
        let files = get_files(&config, entries);
        Observer { files, config }
    }

    pub fn config(&self) -> (r: &Config)
        ensures
            *r == self.spec_config(),
    {
        &self.config
    }

    /// The events of one poll, given the entries of the walk it made: the
    /// whole diff from the baseline, which then moves to the new snapshot
    /// unless the diff is empty.
    pub fn iter_events(&mut self, entries: &Vec<Entry>) -> (r: Vec<FileEvent>)
        ensures
            final(self).spec_config() == old(self).spec_config(),
            events_view(r@) == diff_spec(old(self).baseline(), scan_for(old(self).spec_config(), entries@)),
            final(self).baseline() == if r@.len() > 0 {
                scan_for(old(self).spec_config(), entries@)
            } else {
                old(self).baseline()
            },
    {
        let current = get_files(&self.config, entries);
        let events = diff(&self.files, &current);
        if events.len() > 0 {
            self.files = current;
        }
        events
    }
}

} // verus!
