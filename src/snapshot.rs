//! Snapshots of a directory tree: a table of file records keyed by name, and
//! the scan rules that build one from the entries of a directory walk.
use vstd::prelude::*;
use crate::file::{extension, extension_of, File, FileView};

verus! {

/// The position of the record named `name` in `s` (the last one, should
/// there be several), or `None`.
pub open spec fn index_of(s: Seq<FileView>, name: Seq<char>) -> Option<int>
    decreases s.len(),
{
    if s.len() == 0 {
        None
    } else if s.last().name == name {
        Some(s.len() - 1)
    } else {
        index_of(s.drop_last(), name)
    }
}

/// The record named `name` in `s`, if any.
pub open spec fn lookup(s: Seq<FileView>, name: Seq<char>) -> Option<FileView> {
    match index_of(s, name) {
        Some(i) => Some(s[i]),
        None => None,
    }
}

/// No two records of `s` share a name.
pub open spec fn names_unique(s: Seq<FileView>) -> bool {
    forall|i: int, j: int| 0 <= i < s.len() && 0 <= j < s.len() && i != j ==> s[i].name != s[j].name
}

/// `s` with `f` added: it replaces the record of the same name in place, or
/// goes at the end.
pub open spec fn insert_file(s: Seq<FileView>, f: FileView) -> Seq<FileView> {
    match index_of(s, f.name) {
        Some(i) => s.update(i, f),
        None => s.push(f),
    }
}

pub proof fn lemma_index_of(s: Seq<FileView>, name: Seq<char>)
    ensures
        match index_of(s, name) {
            Some(i) => 0 <= i < s.len() && s[i].name == name,
            None => forall|j: int| 0 <= j < s.len() ==> s[j].name != name,
        },
    decreases s.len(),
{
    if s.len() > 0 && s.last().name != name {
        let t = s.drop_last();
        lemma_index_of(t, name);
        assert forall|j: int| 0 <= j < t.len() implies t[j] == s[j] by {}
        if index_of(t, name) is None {
            assert forall|j: int| 0 <= j < s.len() implies s[j].name != name by {
                if j < t.len() {
                    assert(t[j] == s[j]);
                }
            }
        }
    }
}

/// In a table with unique names, a record is found at its own position.
pub proof fn lemma_index_of_unique(s: Seq<FileView>, i: int)
    requires
        names_unique(s),
        0 <= i < s.len(),
    ensures
        index_of(s, s[i].name) == Some(i),
        lookup(s, s[i].name) == Some(s[i]),
{
    lemma_index_of(s, s[i].name);
}

pub proof fn lemma_insert_unique(s: Seq<FileView>, f: FileView)
    requires
        names_unique(s),
    ensures
        names_unique(insert_file(s, f)),
{
    lemma_index_of(s, f.name);
}

/// A directory entry as a walk reports it. `depth` counts from the walked
/// directory itself, which has depth 0.
#[derive(Debug)]
pub struct Entry {
    pub name: String,
    pub path: String,
    pub depth: usize,
    pub is_file: bool,
    pub last_modified: u128,
    pub last_accessed: u128,
}

pub struct EntryView {
    pub name: Seq<char>,
    pub path: Seq<char>,
    pub depth: nat,
    pub is_file: bool,
    pub last_modified: u128,
    pub last_accessed: u128,
}

impl View for Entry {
    type V = EntryView;

    open spec fn view(&self) -> EntryView {
        EntryView {
            name: self.name@,
            path: self.path@,
            depth: self.depth as nat,
            is_file: self.is_file,
            last_modified: self.last_modified,
            last_accessed: self.last_accessed,
        }
    }
}

pub open spec fn entry_record(e: EntryView) -> FileView {
    FileView {
        name: e.name,
        path: e.path,
        last_modified: e.last_modified,
        last_accessed: e.last_accessed,
    }
}

/// Whether a scan keeps an entry: a regular file strictly below the root, a
/// direct child unless the scan is recursive, and, when patterns are given,
/// one whose extension is among them.
pub open spec fn keeps(e: EntryView, recursive: bool, patterns: Seq<Seq<char>>) -> bool {
    &&& e.is_file
    &&& e.depth >= 1
    &&& (recursive || e.depth == 1)
    &&& (patterns.len() == 0 || patterns.contains(extension_of(e.name)))
}

/// The snapshot built from a walk's entries, in walk order; a later entry
/// with a name already taken replaces the earlier record.
pub open spec fn scan_spec(entries: Seq<EntryView>, recursive: bool, patterns: Seq<Seq<char>>) -> Seq<FileView>
    decreases entries.len(),
{
    if entries.len() == 0 {
        Seq::empty()
    } else {
        let acc = scan_spec(entries.drop_last(), recursive, patterns);
        if keeps(entries.last(), recursive, patterns) {
            insert_file(acc, entry_record(entries.last()))
        } else {
            acc
        }
    }
}

pub open spec fn entries_view(v: Seq<Entry>) -> Seq<EntryView> {
    v.map_values(|e: Entry| e@)
}

pub open spec fn strings_view(v: Seq<String>) -> Seq<Seq<char>> {
    v.map_values(|p: String| p@)
}

/// The files of one scan, with unique names.
#[derive(Debug)]
pub struct Snapshot {
    files: Vec<File>,
}

impl View for Snapshot {
    type V = Seq<FileView>;

    closed spec fn view(&self) -> Seq<FileView> {
        self.files@.map_values(|f: File| f@)
    }
}

impl Snapshot {
    /// Well-formed: no two records share a name.
    pub open spec fn wf(&self) -> bool {
        names_unique(self@)
    }

    pub fn new() -> (r: Snapshot)
        ensures
            r@ == Seq::<FileView>::empty(),
            r.wf(),
    {
        let r = Snapshot { files: Vec::new() };
        assert(r@ =~= Seq::<FileView>::empty());
        r
    }

    pub fn len(&self) -> (r: usize)
        ensures
            r == self@.len(),
    {
        self.files.len()
    }

    pub fn get(&self, i: usize) -> (r: &File)
        requires
            i < self@.len(),
        ensures
            r@ == self@[i as int],
    {
        &self.files[i]
    }

    /// The position of the record named `name`.
    pub fn find(&self, name: &String) -> (r: Option<usize>)
        ensures
            r matches Some(i) ==> index_of(self@, name@) == Some(i as int),
            r is None ==> index_of(self@, name@) is None,
    {
        let mut found: Option<usize> = None;
        let mut i: usize = 0;
        while i < self.files.len()
            invariant
                i <= self.files@.len(),
                self@.len() == self.files@.len(),
                found matches Some(k) ==> index_of(self@.take(i as int), name@) == Some(k as int),
                found is None ==> index_of(self@.take(i as int), name@) is None,
            decreases self.files@.len() - i,
        {
            assert(self@.take(i as int + 1).drop_last() =~= self@.take(i as int));
            if self.files[i].name() == *name {
                found = Some(i);
            }
            i = i + 1;
        }
        assert(self@.take(i as int) =~= self@);
        found
    }

    /// Adds `file`, replacing the record of the same name in place.
    pub fn insert(&mut self, file: File)
        requires
            old(self).wf(),
        ensures
            final(self)@ == insert_file(old(self)@, file@),
            final(self).wf(),
    {
        let name = file.name();
        proof {
            lemma_insert_unique(self@, file@);
            lemma_index_of(self@, name@);
        }
        match self.find(&name) {
            Some(i) => {
                self.files.set(i, file);
                assert(self@ =~= insert_file(old(self)@, file@));
            },
            None => {
                self.files.push(file);
                assert(self@ =~= insert_file(old(self)@, file@));
            },
        }
    }
}

/// Whether `ext` is one of `patterns`.
fn pattern_listed(patterns: &Vec<String>, ext: &String) -> (r: bool)
    ensures
        r == strings_view(patterns@).contains(ext@),
{
    let mut i: usize = 0;
    while i < patterns.len()
        invariant
            i <= patterns@.len(),
            forall|j: int| 0 <= j < i ==> patterns@[j]@ != ext@,
        decreases patterns@.len() - i,
    {
        if patterns[i] == *ext {
            assert(strings_view(patterns@)[i as int] == ext@);
            return true;
        }
        i = i + 1;
    }
    assert forall|j: int| 0 <= j < strings_view(patterns@).len() implies strings_view(patterns@)[j] != ext@ by {
        assert(patterns@[j]@ != ext@);
    }
    false
}

/// Whether a scan keeps `e`.
pub fn keeps_entry(e: &Entry, recursive: bool, patterns: &Vec<String>) -> (r: bool)
    ensures
        r == keeps(e@, recursive, strings_view(patterns@)),
{
    if !e.is_file || e.depth < 1 || (!recursive && e.depth != 1) {
        return false;
    }
    if patterns.len() == 0 {
        return true;
    }
    let ext = extension(e.name.as_str());
    pattern_listed(patterns, &ext)
}

/// Builds the snapshot of a walk from its entries: keeps the entries that
/// `keeps` admits, one record per name.
pub fn scan_entries(entries: &Vec<Entry>, recursive: bool, patterns: &Vec<String>) -> (r: Snapshot)
    ensures
        r@ == scan_spec(entries_view(entries@), recursive, strings_view(patterns@)),
        r.wf(),
{
    let ghost ev = entries_view(entries@);
    let ghost pv = strings_view(patterns@);
    let mut snap = Snapshot::new();
    let mut i: usize = 0;
    while i < entries.len()
        invariant
            i <= entries@.len(),
            ev == entries_view(entries@),
            pv == strings_view(patterns@),
            snap.wf(),
            snap@ == scan_spec(ev.take(i as int), recursive, pv),
        decreases entries@.len() - i,
    {
        assert(ev.take(i as int + 1).drop_last() =~= ev.take(i as int));
        let e = &entries[i];
        if keeps_entry(e, recursive, patterns) {
            let f = File::new(e.name.clone(), e.path.clone(), e.last_modified, e.last_accessed);
            snap.insert(f);
        }
        i = i + 1;
    }
    assert(ev.take(i as int) =~= ev);
    snap
}

} // verus!
