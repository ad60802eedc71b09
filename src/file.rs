//! File records, change events, and the rules that decide which directory
//! entries a scan keeps.
use vstd::prelude::*;

verus! {

/// Mathematical model of a file record.
pub struct FileView {
    pub name: Seq<char>,
    pub path: Seq<char>,
    pub last_modified: u128,
    pub last_accessed: u128,
}

/// `i` is the position of the first `.` in `name`.
pub open spec fn is_first_dot(name: Seq<char>, i: int) -> bool {
    &&& 0 <= i < name.len()
    &&& name[i] == '.'
    &&& forall|j: int| 0 <= j < i ==> name[j] != '.'
}

/// The extension of a file name: everything from the first `.` on
/// (`archive.tar.gz` gives `.tar.gz`), or a lone `.` when there is no dot.
pub open spec fn extension_of(name: Seq<char>) -> Seq<char> {
    if exists|i: int| is_first_dot(name, i) {
        name.subrange(choose|i: int| is_first_dot(name, i), name.len() as int)
    } else {
        seq!['.']
    }
}

/// One file of a snapshot. Timestamps are nanoseconds since the Unix epoch.
#[derive(Debug)]
pub struct File {
    name: String,
    path: String,
    last_modified: u128,
    last_accessed: u128,
}

impl View for File {
    type V = FileView;

    closed spec fn view(&self) -> FileView {
        FileView {
            name: self.name@,
            path: self.path@,
            last_modified: self.last_modified,
            last_accessed: self.last_accessed,
        }
    }
}

impl File {
    pub fn new(name: String, path: String, last_modified: u128, last_accessed: u128) -> (r: File)
        ensures
            r@ == (FileView { name: name@, path: path@, last_modified, last_accessed }),
    {
        File { name, path, last_modified, last_accessed }
    }

    /// A copy with the same view.
    pub fn duplicate(&self) -> (r: File)
        ensures
            r@ == self@,
    {
        File {
            name: self.name.clone(),
            path: self.path.clone(),
            last_modified: self.last_modified,
            last_accessed: self.last_accessed,
        }
    }

    pub fn name(&self) -> (r: String)
        ensures
            r@ == self@.name,
    {
        self.name.clone()
    }

    /// The extension of the file's name, as `extension_of` defines it.
    pub fn extension(&self) -> (r: String)
        ensures
            r@ == extension_of(self@.name),
    {
        extension(self.name.as_str())
    }

    pub fn ds_path(&self) -> (r: String)
        ensures
            r@ == self@.path,
    {
        self.path.clone()
    }

    pub fn path(&self) -> (r: String)
        ensures
            r@ == self@.path,
    {
        self.path.clone()
    }

    pub fn last_modification(&self) -> (r: u128)
        ensures
            r == self@.last_modified,
    {
        self.last_modified
    }

    pub fn last_access(&self) -> (r: u128)
        ensures
            r == self@.last_accessed,
    {
        self.last_accessed
    }

    pub fn set_modification(&mut self, time: u128)
        ensures
            final(self)@ == (FileView { last_modified: time, ..old(self)@ }),
    {
        self.last_modified = time;
    }
}

/// A change between two snapshots, carrying the record it is about: the new
/// one for `Created` and `Modified`, the old one for `Deleted`.
#[derive(Debug)]
pub enum FileEvent {
    Created(File),
    Modified(File),
    Deleted(File),
}

/// Mathematical model of a change event.
pub enum EventView {
    Created(FileView),
    Modified(FileView),
    Deleted(FileView),
}

impl View for FileEvent {
    type V = EventView;

    open spec fn view(&self) -> EventView {
        match self {
            FileEvent::Created(f) => EventView::Created(f@),
            FileEvent::Modified(f) => EventView::Modified(f@),
            FileEvent::Deleted(f) => EventView::Deleted(f@),
        }
    }
}

impl FileEvent {
    /// The record that the event is about.
    pub fn file(&self) -> (r: &File)
        ensures
            self@ == EventView::Created(r@) || self@ == EventView::Modified(r@)
                || self@ == EventView::Deleted(r@),
            self is Created ==> self@ == EventView::Created(r@),
            self is Modified ==> self@ == EventView::Modified(r@),
            self is Deleted ==> self@ == EventView::Deleted(r@),
    {
        match self {
            FileEvent::Created(f) => f,
            FileEvent::Modified(f) => f,
            FileEvent::Deleted(f) => f,
        }
    }
}

/// The extension of a file name: from the first `.` to the end, or `.` alone
/// when the name holds no dot.
pub fn extension(name: &str) -> (r: String)
    ensures
        r@ == extension_of(name@),
{
    let n = name.unicode_len();
    let mut i: usize = 0;
    while i < n
        invariant
            n == name@.len(),
            i <= n,
            forall|j: int| 0 <= j < i ==> name@[j] != '.',
        decreases n - i,
    {
        if name.get_char(i) == '.' {
            assert(is_first_dot(name@, i as int));
            proof {
                let k = choose|k: int| is_first_dot(name@, k);
                assert(k == i as int);
            }
            return name.substring_char(i, n).to_owned();
        }
        i = i + 1;
    }
    assert(!exists|k: int| is_first_dot(name@, k));
    proof {
        reveal_strlit(".");
    }
    ".".to_owned()
}

} // verus!
