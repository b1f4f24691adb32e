//! The reflector store: an in-memory map from object identity to
//! object, fed one event at a time in delivery order by a single
//! writer, and reflecting the current state of the watched resource
//! type.

use vstd::prelude::*;
use crate::object::{Object, ResourceIdentity};
use crate::event::{observe, record_of, strip_event, stripped_object, stripped_seq, Event,
    EventRecord};

verus! {

/// The view key of one identity.
pub type IdentityKey = (Option<Seq<char>>, Seq<char>);

/// No two entries share an identity.
pub open spec fn unique_identities(s: Seq<Object>) -> bool {
    forall|i: int, j: int|
        0 <= i < j < s.len() ==> #[trigger] s[i].identity@ != #[trigger] s[j].identity@
}

/// The map a sequence of objects denotes, keyed by identity; a later
/// entry wins over an earlier one with the same identity.
pub open spec fn map_of_entries(s: Seq<Object>) -> Map<IdentityKey, Object>
    decreases s.len(),
{
    if s.len() == 0 {
        Map::empty()
    } else {
        map_of_entries(s.drop_last()).insert(s.last().identity@, s.last())
    }
}

/// A key absent from every entry is absent from the denoted map.
proof fn lemma_entries_absent(s: Seq<Object>, k: IdentityKey)
    requires
        forall|i: int| 0 <= i < s.len() ==> s[i].identity@ != k,
    ensures
        !map_of_entries(s).contains_key(k),
    decreases s.len(),
{
    if s.len() > 0 {
        lemma_entries_absent(s.drop_last(), k);
    }
}

/// The entry at a position is in the denoted map; when identities are
/// unique it is the value the map holds at its key.
proof fn lemma_entries_present(s: Seq<Object>, i: int)
    requires
        0 <= i < s.len(),
        unique_identities(s),
    ensures
        map_of_entries(s).contains_key(s[i].identity@),
        map_of_entries(s)[s[i].identity@] == s[i],
    decreases s.len(),
{
    if i < s.len() - 1 {
        lemma_entries_present(s.drop_last(), i);
    }
}

/// Removing the entry at a position removes exactly its key from the
/// denoted map, when identities are unique.
proof fn lemma_entries_remove(s: Seq<Object>, i: int)
    requires
        0 <= i < s.len(),
        unique_identities(s),
    ensures
        map_of_entries(s.remove(i)) == map_of_entries(s).remove(s[i].identity@),
        unique_identities(s.remove(i)),
    decreases s.len(),
{
    s.remove_ensures(i);
    assert forall|a: int, b: int| 0 <= a < b < s.remove(i).len() implies #[trigger] s.remove(
        i,
    )[a].identity@ != #[trigger] s.remove(i)[b].identity@ by {
        let a0 = if a < i { a } else { a + 1 };
        let b0 = if b < i { b } else { b + 1 };
        assert(s.remove(i)[a] == s[a0]);
        assert(s.remove(i)[b] == s[b0]);
        assert(s[a0].identity@ != s[b0].identity@);
    }
    if i == s.len() - 1 {
        assert(s.remove(i) =~= s.drop_last());
        lemma_entries_absent(s.drop_last(), s[i].identity@);
        assert(map_of_entries(s.drop_last()) =~= map_of_entries(s).remove(s[i].identity@));
    } else {
        lemma_entries_remove(s.drop_last(), i);
        assert(s.remove(i).drop_last() =~= s.drop_last().remove(i));
        assert(s.remove(i).last() == s.last());
        assert(map_of_entries(s.remove(i)) == map_of_entries(s.drop_last().remove(i)).insert(
            s.last().identity@,
            s.last(),
        ));
        assert(map_of_entries(s.drop_last()).remove(s[i].identity@).insert(
            s.last().identity@,
            s.last(),
        ) =~= map_of_entries(s).remove(s[i].identity@));
    }
}

/// The store: a mapping from identity to object with a single logical
/// writer. Readers observe only fully-applied event boundaries, since
/// every mutation happens inside one `apply` call.
#[derive(Debug)]
pub struct Store {
    entries: Vec<Object>,
}

impl View for Store {
    type V = Map<IdentityKey, Object>;

    closed spec fn view(&self) -> Map<IdentityKey, Object> {
        map_of_entries(self.entries@)
    }
}

impl Store {
    /// The store's entries never repeat an identity.
    pub closed spec fn wf(&self) -> bool {
        unique_identities(self.entries@)
    }

    /// An empty store.
    pub fn new() -> (s: Store)
        ensures
            s.wf(),
            s@ == Map::<IdentityKey, Object>::empty(),
    {
        Store { entries: Vec::new() }
    }

    /// The position of the entry with the given identity, if any.
    fn find(&self, id: &ResourceIdentity) -> (r: Option<usize>)
        ensures
            r matches Some(i) ==> i < self.entries@.len() && self.entries@[i as int].identity@
                == id@,
            r is None ==> forall|j: int|
                0 <= j < self.entries@.len() ==> self.entries@[j].identity@ != id@,
    {
        let n = self.entries.len();
        let mut i: usize = 0;
        while i < n
            invariant
                i <= n,
                n == self.entries@.len(),
                forall|j: int| 0 <= j < i ==> self.entries@[j].identity@ != id@,
            decreases n - i,
        {
            if self.entries[i].identity.key_eq(id) {
                return Some(i);
            }
            i += 1;
        }
        None
    }

    /// Inserts or replaces the entry with the object's identity.
    fn upsert(&mut self, o: Object)
        requires
            old(self).wf(),
        ensures
            final(self).wf(),
            final(self)@ == old(self)@.insert(o.identity@, o),
    {
        let ghost s0 = self.entries@;
        let ghost k = o.identity@;
        match self.find(&o.identity) {
            Some(i) => {
                proof {
                    lemma_entries_remove(s0, i as int);
                }
                self.entries.remove(i);
                proof {
                    s0.remove_ensures(i as int);
                    assert forall|j: int|
                        0 <= j < self.entries@.len() implies #[trigger] self.entries@[j].identity@
                        != k by {
                        let j0 = if j < i { j } else { j + 1 };
                        assert(self.entries@[j] == s0[j0]);
                        assert(s0[j0].identity@ != s0[i as int].identity@);
                    }
                    assert(map_of_entries(self.entries@) =~= map_of_entries(s0).remove(k));
                }
            },
            None => {
                proof {
                    lemma_entries_absent(s0, k);
                    assert(map_of_entries(self.entries@) =~= map_of_entries(s0).remove(k));
                }
            },
        }
        let ghost s1 = self.entries@;
        self.entries.push(o);
        proof {
            assert(self.entries@.drop_last() =~= s1);
            assert(self.entries@.last() == o);
            assert(map_of_entries(self.entries@) == map_of_entries(s1).insert(k, o));
            assert forall|a: int, b: int|
                0 <= a < b < self.entries@.len() implies #[trigger] self.entries@[a].identity@
                != #[trigger] self.entries@[b].identity@ by {
                if b < self.entries@.len() - 1 {
                    assert(self.entries@[a] == s1[a]);
                    assert(self.entries@[b] == s1[b]);
                } else {
                    assert(self.entries@[a] == s1[a]);
                    assert(s1[a].identity@ != k);
                }
            }
            assert(map_of_entries(s0).remove(k).insert(k, o) =~= map_of_entries(s0).insert(k, o));
        }
    }

    /// Applies one event to the store, in delivery order:
    /// - `Applied` upserts the object under its identity;
    /// - `Deleted` removes the identity, a no-op when it is absent;
    /// - `Restarted` replaces the whole content with the carried list,
    ///   purging every entry absent from it.
    pub fn apply(&mut self, event: Event)
        requires
            old(self).wf(),
        ensures
            final(self).wf(),
            match event {
                Event::Applied(o) => final(self)@ == old(self)@.insert(o.identity@, o),
                Event::Deleted(o) => final(self)@ == old(self)@.remove(o.identity@),
                Event::Restarted(l) => final(self)@ == map_of_entries(l@),
            },
    {
        match event {
            Event::Applied(o) => {
                self.upsert(o);
            },
            Event::Deleted(o) => {
                let ghost s0 = self.entries@;
                match self.find(&o.identity) {
                    Some(i) => {
                        proof {
                            lemma_entries_remove(s0, i as int);
                        }
                        self.entries.remove(i);
                    },
                    None => {
                        proof {
                            lemma_entries_absent(s0, o.identity@);
                            assert(map_of_entries(s0).remove(o.identity@) =~= map_of_entries(s0));
                        }
                    },
                }
            },
            Event::Restarted(mut l) => {
                self.entries.clear();
                let ghost l0 = l@;
                let mut rev: Vec<Object> = Vec::new();
                while l.len() > 0
                    invariant
                        l@ == l0.take(l0.len() - rev@.len()),
                        rev@.len() <= l0.len(),
                        forall|j: int|
                            0 <= j < rev@.len() ==> rev@[j] == l0[l0.len() - 1 - j],
                    decreases l@.len(),
                {
                    let o = l.pop().unwrap();
                    rev.push(o);
                    proof {
                        assert(l@ =~= l0.take(l0.len() - rev@.len()));
                    }
                }
                let ghost r0 = rev@;
                while rev.len() > 0
                    invariant
                        self.wf(),
                        r0.len() == l0.len(),
                        rev@.len() <= r0.len(),
                        forall|j: int|
                            0 <= j < r0.len() ==> r0[j] == l0[l0.len() - 1 - j],
                        rev@ == r0.take(rev@.len() as int),
                        self@ == map_of_entries(l0.take(l0.len() - rev@.len())),
                    decreases rev@.len(),
                {
                    let ghost t = l0.len() - rev@.len();
                    let o = rev.pop().unwrap();
                    proof {
                        assert(rev@ =~= r0.take(rev@.len() as int));
                        assert(o == l0[t]);
                    }
                    self.upsert(o);
                    proof {
                        assert(l0.take(t + 1).drop_last() =~= l0.take(t));
                        assert(l0.take(t + 1).last() == l0[t]);
                        assert(map_of_entries(l0.take(t + 1)) == map_of_entries(l0.take(t)).insert(
                            l0[t].identity@,
                            l0[t],
                        ));
                    }
                }
                proof {
                    assert(l0.take(l0.len() as int) =~= l0);
                }
            },
        }
    }

    /// Whether the store currently holds an object with the identity.
    pub fn contains(&self, id: &ResourceIdentity) -> (r: bool)
        requires
            self.wf(),
        ensures
            r == self@.contains_key(id@),
    {
        match self.find(id) {
            Some(i) => {
                proof {
                    lemma_entries_present(self.entries@, i as int);
                }
                true
            },
            None => {
                proof {
                    lemma_entries_absent(self.entries@, id@);
                }
                false
            },
        }
    }

    /// The object stored under the identity, if any. Reading never
    /// mutates the store.
    pub fn get(&self, id: &ResourceIdentity) -> (r: Option<&Object>)
        requires
            self.wf(),
        ensures
            r matches Some(o) ==> self@.contains_key(id@) && *o == self@[id@],
            r is None ==> !self@.contains_key(id@),
    {
        match self.find(id) {
            Some(i) => {
                proof {
                    lemma_entries_present(self.entries@, i as int);
                }
                Some(&self.entries[i])
            },
            None => {
                proof {
                    lemma_entries_absent(self.entries@, id@);
                }
                None
            },
        }
    }

    /// How many objects the store currently holds.
    pub fn len(&self) -> (n: usize)
        requires
            self.wf(),
        ensures
            n == self@.dom().len(),
    {
        proof {
            lemma_entries_count(self.entries@);
        }
        self.entries.len()
    }

    /// The current entries, one per identity, for readers that walk
    /// the whole mirror; the map they denote is the store's content.
    pub fn objects(&self) -> (r: &Vec<Object>)
        requires
            self.wf(),
        ensures
            unique_identities(r@),
            map_of_entries(r@) == self@,
    {
        &self.entries
    }
}

/// One step of the whole reflect pipeline, in delivery order: trims
/// the bookkeeping metadata from the event, folds it into the store,
/// and returns the observability record to hand to the sink. The
/// trimming never changes which identities the store ends up with nor
/// any identity or content it stores.
pub fn reflect(store: &mut Store, event: Event) -> (rec: EventRecord)
    requires
        old(store).wf(),
    ensures
        final(store).wf(),
        rec == record_of(event),
        match event {
            Event::Applied(o) => final(store)@ == old(store)@.insert(
                o.identity@,
                stripped_object(o),
            ),
            Event::Deleted(o) => final(store)@ == old(store)@.remove(o.identity@),
            Event::Restarted(l) => final(store)@ == map_of_entries(stripped_seq(l@)),
        },
{
    let event = strip_event(event);
    let rec = observe(&event);
    store.apply(event);
    rec
}

/// A sequence of unique identities denotes a map with one key per
/// entry.
proof fn lemma_entries_count(s: Seq<Object>)
    requires
        unique_identities(s),
    ensures
        map_of_entries(s).dom().finite(),
        map_of_entries(s).dom().len() == s.len(),
    decreases s.len(),
{
    if s.len() == 0 {
        assert(map_of_entries(s).dom() =~= Set::<IdentityKey>::empty());
    } else {
        assert forall|a: int, b: int|
            0 <= a < b < s.drop_last().len() implies #[trigger] s.drop_last()[a].identity@
            != #[trigger] s.drop_last()[b].identity@ by {
            assert(s.drop_last()[a] == s[a]);
            assert(s.drop_last()[b] == s[b]);
        }
        lemma_entries_count(s.drop_last());
        assert forall|j: int|
            0 <= j < s.drop_last().len() implies #[trigger] s.drop_last()[j].identity@
            != s.last().identity@ by {
            assert(s.drop_last()[j] == s[j]);
            assert(s[j].identity@ != s[s.len() - 1].identity@);
        }
        lemma_entries_absent(s.drop_last(), s.last().identity@);
        assert(map_of_entries(s).dom() =~= map_of_entries(s.drop_last()).dom().insert(
            s.last().identity@,
        ));
    }
}

} // verus!
