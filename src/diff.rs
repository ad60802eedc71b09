//! The differ: compares two snapshots and lists the changes between them.
use vstd::prelude::*;
use crate::file::{EventView, FileEvent, FileView};
use crate::snapshot::{index_of, lemma_index_of, lemma_index_of_unique, lookup, names_unique, Snapshot};

verus! {

/// The event, if any, that a record of the current snapshot gives: `Created`
/// when its name is new, `Modified` when it was modified strictly later than
/// the previous record of that name.
pub open spec fn change_of(prev: Seq<FileView>, f: FileView) -> Seq<EventView> {
    match lookup(prev, f.name) {
        None => seq![EventView::Created(f)],
        Some(p) => if f.last_modified > p.last_modified {
            seq![EventView::Modified(f)]
        } else {
            Seq::empty()
        },
    }
}

/// The `Created` and `Modified` events, in the order of the current snapshot.
pub open spec fn changes(prev: Seq<FileView>, cur: Seq<FileView>) -> Seq<EventView>
    decreases cur.len(),
{
    if cur.len() == 0 {
        Seq::empty()
    } else {
        changes(prev, cur.drop_last()) + change_of(prev, cur.last())
    }
}

/// The event that a record of the previous snapshot gives: `Deleted` when
/// its name is gone from the current one.
pub open spec fn removal_of(cur: Seq<FileView>, p: FileView) -> Seq<EventView> {
    if index_of(cur, p.name) is None {
        seq![EventView::Deleted(p)]
    } else {
        Seq::empty()
    }
}

/// The `Deleted` events, in the order of the previous snapshot.
pub open spec fn removals(prev: Seq<FileView>, cur: Seq<FileView>) -> Seq<EventView>
    decreases prev.len(),
{
    if prev.len() == 0 {
        Seq::empty()
    } else {
        removals(prev.drop_last(), cur) + removal_of(cur, prev.last())
    }
}

/// The events between two snapshots: creations and modifications first, then
/// deletions.
pub open spec fn diff_spec(prev: Seq<FileView>, cur: Seq<FileView>) -> Seq<EventView> {
    changes(prev, cur) + removals(prev, cur)
}

pub open spec fn events_view(v: Seq<FileEvent>) -> Seq<EventView> {
    v.map_values(|e: FileEvent| e@)
}

/// Lists the changes from `previous` to `current`.
pub fn diff(previous: &Snapshot, current: &Snapshot) -> (r: Vec<FileEvent>)
    ensures
        events_view(r@) == diff_spec(previous@, current@),
{
    let ghost pv = previous@;
    let ghost cv = current@;
    let mut events: Vec<FileEvent> = Vec::new();
    assert(events_view(events@) =~= changes(pv, cv.take(0)));
    let mut i: usize = 0;
    while i < current.len()
        invariant
            i <= cv.len(),
            pv == previous@,
            cv == current@,
            events_view(events@) == changes(pv, cv.take(i as int)),
        decreases cv.len() - i,
    {
        assert(cv.take(i as int + 1).drop_last() =~= cv.take(i as int));
        assert(cv.take(i as int + 1).last() == cv[i as int]);
        let ghost before = events_view(events@);
        let f = current.get(i);
        let name = f.name();
        proof {
            lemma_index_of(pv, name@);
        }
        match previous.find(&name) {
            None => {
                events.push(FileEvent::Created(f.duplicate()));
            },
            Some(k) => {
                let p = previous.get(k);
                if f.last_modification() > p.last_modification() {
                    events.push(FileEvent::Modified(f.duplicate()));
                }
            },
        }
        assert(events_view(events@) =~= before + change_of(pv, cv[i as int]));
        i = i + 1;
    }
    assert(cv.take(i as int) =~= cv);
    let ghost ch = events_view(events@);
    assert(removals(pv.take(0), cv) =~= Seq::<EventView>::empty());
    assert(events_view(events@) =~= ch + removals(pv.take(0), cv));
    let mut j: usize = 0;
    while j < previous.len()
        invariant
            j <= pv.len(),
            pv == previous@,
            cv == current@,
            ch == changes(pv, cv),
            events_view(events@) == ch + removals(pv.take(j as int), cv),
        decreases pv.len() - j,
    {
        assert(pv.take(j as int + 1).drop_last() =~= pv.take(j as int));
        assert(pv.take(j as int + 1).last() == pv[j as int]);
        let ghost before = events_view(events@);
        let p = previous.get(j);
        let name = p.name();
        if current.find(&name).is_none() {
            events.push(FileEvent::Deleted(p.duplicate()));
        }
        assert(events_view(events@) =~= before + removal_of(cv, pv[j as int]));
        j = j + 1;
    }
    assert(pv.take(j as int) =~= pv);
    events
}

proof fn lemma_changes_concat(p: Seq<FileView>, a: Seq<FileView>, b: Seq<FileView>)
    ensures
        changes(p, a + b) == changes(p, a) + changes(p, b),
    decreases b.len(),
{
    if b.len() == 0 {
        assert(a + b =~= a);
        assert(changes(p, a) + changes(p, b) =~= changes(p, a));
    } else {
        assert((a + b).drop_last() =~= a + b.drop_last());
        assert((a + b).last() == b.last());
        lemma_changes_concat(p, a, b.drop_last());
        assert(changes(p, a + b) =~= changes(p, a) + changes(p, b));
    }
}

proof fn lemma_removals_concat(a: Seq<FileView>, b: Seq<FileView>, c: Seq<FileView>)
    ensures
        removals(a + b, c) == removals(a, c) + removals(b, c),
    decreases b.len(),
{
    if b.len() == 0 {
        assert(a + b =~= a);
        assert(removals(a, c) + removals(b, c) =~= removals(a, c));
    } else {
        assert((a + b).drop_last() =~= a + b.drop_last());
        assert((a + b).last() == b.last());
        lemma_removals_concat(a, b.drop_last(), c);
        assert(removals(a + b, c) =~= removals(a, c) + removals(b, c));
    }
}

proof fn lemma_changes_single(p: Seq<FileView>, x: FileView)
    ensures
        changes(p, seq![x]) == change_of(p, x),
{
    assert(seq![x].drop_last() =~= Seq::<FileView>::empty());
    assert(seq![x].last() == x);
    assert(changes(p, Seq::<FileView>::empty()) == Seq::<EventView>::empty());
    assert(Seq::<EventView>::empty() + change_of(p, x) =~= change_of(p, x));
}

proof fn lemma_removals_single(x: FileView, c: Seq<FileView>)
    ensures
        removals(seq![x], c) == removal_of(c, x),
{
    assert(seq![x].drop_last() =~= Seq::<FileView>::empty());
    assert(seq![x].last() == x);
    assert(removals(Seq::<FileView>::empty(), c) == Seq::<EventView>::empty());
    assert(Seq::<EventView>::empty() + removal_of(c, x) =~= removal_of(c, x));
}

/// No record of `c` gives a change against `p`.
proof fn lemma_changes_none(p: Seq<FileView>, c: Seq<FileView>)
    requires
        forall|i: int| 0 <= i < c.len() ==> change_of(p, #[trigger] c[i]) == Seq::<EventView>::empty(),
    ensures
        changes(p, c) == Seq::<EventView>::empty(),
    decreases c.len(),
{
    if c.len() > 0 {
        let t = c.drop_last();
        assert forall|i: int| 0 <= i < t.len() implies change_of(p, #[trigger] t[i]) == Seq::<EventView>::empty() by {
            assert(t[i] == c[i]);
        }
        lemma_changes_none(p, t);
        assert(change_of(p, c.last()) == Seq::<EventView>::empty());
        assert(changes(p, c) =~= Seq::<EventView>::empty());
    }
}

/// Every name of `p` is still in `c`.
proof fn lemma_removals_none(p: Seq<FileView>, c: Seq<FileView>)
    requires
        forall|i: int| 0 <= i < p.len() ==> index_of(c, #[trigger] p[i].name) is Some,
    ensures
        removals(p, c) == Seq::<EventView>::empty(),
    decreases p.len(),
{
    if p.len() > 0 {
        let t = p.drop_last();
        assert forall|i: int| 0 <= i < t.len() implies index_of(c, #[trigger] t[i].name) is Some by {
            assert(t[i] == p[i]);
        }
        lemma_removals_none(t, c);
        assert(index_of(c, p.last().name) is Some);
        assert(removals(p, c) =~= Seq::<EventView>::empty());
    }
}

/// A record whose name occurs at `j` of `c` is found there.
proof fn lemma_found(c: Seq<FileView>, j: int, name: Seq<char>)
    requires
        0 <= j < c.len(),
        c[j].name == name,
    ensures
        index_of(c, name) is Some,
{
    lemma_index_of(c, name);
}

/// Every record of `s` is found in `s` itself, unchanged.
proof fn lemma_self_unchanged(s: Seq<FileView>, c: Seq<FileView>)
    requires
        names_unique(s),
        forall|i: int| 0 <= i < c.len() ==> s.contains(#[trigger] c[i]),
    ensures
        changes(s, c) == Seq::<EventView>::empty(),
{
    assert forall|i: int| 0 <= i < c.len() implies change_of(s, #[trigger] c[i]) == Seq::<EventView>::empty() by {
        assert(s.contains(c[i]));
        let k = choose|k: int| 0 <= k < s.len() && s[k] == c[i];
        lemma_index_of_unique(s, k);
    }
    lemma_changes_none(s, c);
}

/// Diffing a snapshot against itself gives no event.
pub proof fn lemma_diff_same(s: Seq<FileView>)
    requires
        names_unique(s),
    ensures
        diff_spec(s, s) == Seq::<EventView>::empty(),
{
    assert forall|i: int| 0 <= i < s.len() implies s.contains(#[trigger] s[i]) by {}
    lemma_self_unchanged(s, s);
    assert forall|i: int| 0 <= i < s.len() implies index_of(s, #[trigger] s[i].name) is Some by {
        lemma_found(s, i, s[i].name);
    }
    lemma_removals_none(s, s);
    assert(diff_spec(s, s) =~= Seq::<EventView>::empty());
}

/// Adding one file, under a name that the snapshot does not hold, at any
/// position gives exactly one `Created` event for it and nothing else.
pub proof fn lemma_diff_added(s: Seq<FileView>, k: int, f: FileView)
    requires
        names_unique(s),
        0 <= k <= s.len(),
        forall|i: int| 0 <= i < s.len() ==> s[i].name != f.name,
    ensures
        diff_spec(s, s.insert(k, f)) == seq![EventView::Created(f)],
{
    let t = s.insert(k, f);
    let a = s.take(k);
    let b = s.skip(k);
    assert(t =~= a + seq![f] + b);
    assert forall|i: int| 0 <= i < a.len() implies s.contains(#[trigger] a[i]) by {
        assert(s[i] == a[i]);
    }
    assert forall|i: int| 0 <= i < b.len() implies s.contains(#[trigger] b[i]) by {
        assert(s[k + i] == b[i]);
    }
    lemma_self_unchanged(s, a);
    lemma_self_unchanged(s, b);
    lemma_changes_concat(s, a + seq![f], b);
    lemma_changes_concat(s, a, seq![f]);
    lemma_changes_single(s, f);
    lemma_index_of(s, f.name);
    assert(change_of(s, f) == seq![EventView::Created(f)]);
    assert forall|i: int| 0 <= i < s.len() implies index_of(t, #[trigger] s[i].name) is Some by {
        if i < k {
            assert(t[i] == s[i]);
            lemma_found(t, i, s[i].name);
        } else {
            assert(t[i + 1] == s[i]);
            lemma_found(t, i + 1, s[i].name);
        }
    }
    lemma_removals_none(s, t);
    assert(diff_spec(s, t) =~= seq![EventView::Created(f)]);
}

/// Changing only the modification time of the record at `k`: a strictly
/// later time gives exactly one `Modified` event for the new record; an
/// unchanged or earlier one gives no event.
pub proof fn lemma_diff_modified(s: Seq<FileView>, k: int, m: u128)
    requires
        names_unique(s),
        0 <= k < s.len(),
    ensures
        ({
            let g = FileView { last_modified: m, ..s[k] };
            diff_spec(s, s.update(k, g)) == if m > s[k].last_modified {
                seq![EventView::Modified(g)]
            } else {
                Seq::<EventView>::empty()
            }
        }),
{
    let g = FileView { last_modified: m, ..s[k] };
    let t = s.update(k, g);
    let a = s.take(k);
    let b = s.skip(k + 1);
    assert(t =~= a + seq![g] + b);
    assert forall|i: int| 0 <= i < a.len() implies s.contains(#[trigger] a[i]) by {
        assert(s[i] == a[i]);
    }
    assert forall|i: int| 0 <= i < b.len() implies s.contains(#[trigger] b[i]) by {
        assert(s[k + 1 + i] == b[i]);
    }
    lemma_self_unchanged(s, a);
    lemma_self_unchanged(s, b);
    lemma_changes_concat(s, a + seq![g], b);
    lemma_changes_concat(s, a, seq![g]);
    lemma_changes_single(s, g);
    lemma_index_of_unique(s, k);
    assert forall|i: int| 0 <= i < s.len() implies index_of(t, #[trigger] s[i].name) is Some by {
        assert(t[i].name == s[i].name);
        lemma_found(t, i, s[i].name);
    }
    lemma_removals_none(s, t);
    if m > s[k].last_modified {
        assert(diff_spec(s, t) =~= seq![EventView::Modified(g)]);
    } else {
        assert(diff_spec(s, t) =~= Seq::<EventView>::empty());
    }
}

/// Removing the record at `k` gives exactly one `Deleted` event for it.
pub proof fn lemma_diff_removed(s: Seq<FileView>, k: int)
    requires
        names_unique(s),
        0 <= k < s.len(),
    ensures
        diff_spec(s, s.remove(k)) == seq![EventView::Deleted(s[k])],
{
    let t = s.remove(k);
    let a = s.take(k);
    let b = s.skip(k + 1);
    assert(t =~= a + b);
    assert(s =~= a + seq![s[k]] + b);
    assert forall|i: int| 0 <= i < t.len() implies s.contains(#[trigger] t[i]) by {
        if i < k {
            assert(s[i] == t[i]);
        } else {
            assert(s[i + 1] == t[i]);
        }
    }
    lemma_self_unchanged(s, t);
    assert forall|i: int| 0 <= i < a.len() implies index_of(t, #[trigger] a[i].name) is Some by {
        assert(t[i] == a[i]);
        lemma_found(t, i, a[i].name);
    }
    assert forall|i: int| 0 <= i < b.len() implies index_of(t, #[trigger] b[i].name) is Some by {
        assert(t[k + i] == b[i]);
        lemma_found(t, k + i, b[i].name);
    }
    lemma_removals_none(a, t);
    lemma_removals_none(b, t);
    lemma_removals_concat(a + seq![s[k]], b, t);
    lemma_removals_concat(a, seq![s[k]], t);
    lemma_removals_single(s[k], t);
    lemma_index_of(t, s[k].name);
    assert forall|j: int| 0 <= j < t.len() implies t[j].name != s[k].name by {
        if j < k {
            assert(t[j] == s[j]);
        } else {
            assert(t[j] == s[j + 1]);
        }
    }
    assert(removal_of(t, s[k]) == seq![EventView::Deleted(s[k])]);
    assert(diff_spec(s, t) =~= seq![EventView::Deleted(s[k])]);
}

} // verus!
