//! The session liveness store: a marker per session id, with a lifetime. A
//! session is alive exactly as long as its marker is there.

use crate::auth::error::CacheFault;
use vstd::prelude::*;

verus! {

/// The markers after one for `session_id` was written with the lifetime `ttl`:
/// it replaces an earlier one, and a lifetime that is not positive removes it.
pub open spec fn written(markers: Map<Seq<char>, int>, session_id: Seq<char>, ttl: int) -> Map<
    Seq<char>,
    int,
> {
    if ttl > 0 {
        markers.insert(session_id, ttl)
    } else {
        markers.remove(session_id)
    }
}

/// The markers after the lifetime of the one for `session_id` was reset to
/// `ttl`: nothing changes where the session has no marker.
pub open spec fn extended(markers: Map<Seq<char>, int>, session_id: Seq<char>, ttl: int) -> Map<
    Seq<char>,
    int,
> {
    if markers.contains_key(session_id) {
        written(markers, session_id, ttl)
    } else {
        markers
    }
}

/// The markers after `seconds` have passed: each lifetime is that much
/// shorter, and a marker whose lifetime is used up is gone.
pub open spec fn elapsed(markers: Map<Seq<char>, int>, seconds: int) -> Map<Seq<char>, int> {
    Map::new(
        |session_id: Seq<char>| markers.contains_key(session_id) && markers[session_id] > seconds,
        |session_id: Seq<char>| markers[session_id] - seconds,
    )
}

/// An expiring key-value cache that holds the liveness markers.
///
/// `markers` maps each live session id to the lifetime, in seconds, that was
/// last written for it. A store that is `dependable` never fails; of any
/// other, a failed write may or may not have taken place.
pub trait SessionStore {
    spec fn valid(&self) -> bool;

    spec fn markers(&self) -> Map<Seq<char>, int>;

    spec fn dependable(&self) -> bool;

    /// Creates or overwrites the marker of `session_id` with the lifetime
    /// `ttl`.
    fn mark_alive(&mut self, session_id: &str, ttl: i64) -> (r: Result<(), CacheFault>)
        requires
            old(self).valid(),
        ensures
            final(self).valid(),
            final(self).dependable() == old(self).dependable(),
            old(self).dependable() ==> r is Ok,
            r is Ok ==> final(self).markers() == written(
                old(self).markers(),
                session_id@,
                ttl as int,
            ),
            r is Err ==> final(self).markers() == old(self).markers() || final(self).markers()
                == written(old(self).markers(), session_id@, ttl as int),
    ;

    /// Tells whether `session_id` has a marker.
    fn is_alive(&mut self, session_id: &str) -> (r: Result<bool, CacheFault>)
        requires
            old(self).valid(),
        ensures
            final(self).valid(),
            final(self).dependable() == old(self).dependable(),
            final(self).markers() == old(self).markers(),
            old(self).dependable() ==> r is Ok,
            r matches Ok(alive) ==> alive == old(self).markers().contains_key(session_id@),
    ;

    /// Resets the lifetime of the marker of `session_id` to `ttl`, if there is
    /// one.
    fn extend(&mut self, session_id: &str, ttl: i64) -> (r: Result<(), CacheFault>)
        requires
            old(self).valid(),
        ensures
            final(self).valid(),
            final(self).dependable() == old(self).dependable(),
            old(self).dependable() ==> r is Ok,
            r is Ok ==> final(self).markers() == extended(
                old(self).markers(),
                session_id@,
                ttl as int,
            ),
            r is Err ==> final(self).markers() == old(self).markers() || final(self).markers()
                == extended(old(self).markers(), session_id@, ttl as int),
    ;

    /// Removes the marker of `session_id`, if there is one.
    fn revoke(&mut self, session_id: &str) -> (r: Result<(), CacheFault>)
        requires
            old(self).valid(),
        ensures
            final(self).valid(),
            final(self).dependable() == old(self).dependable(),
            old(self).dependable() ==> r is Ok,
            r is Ok ==> final(self).markers() == old(self).markers().remove(session_id@),
            r is Err ==> final(self).markers() == old(self).markers() || final(self).markers()
                == old(self).markers().remove(session_id@),
    ;
}

/// One marker of the in-memory store.
#[derive(Debug)]
pub struct Marker {
    pub session_id: String,
    pub ttl: i64,
}

/// Whether some marker of the list belongs to `session_id`.
pub open spec fn holds(entries: Seq<Marker>, session_id: Seq<char>) -> bool {
    exists|i: int| 0 <= i < entries.len() && (#[trigger] entries[i]).session_id@ == session_id
}

/// The place of the marker of `session_id` in the list.
pub open spec fn place(entries: Seq<Marker>, session_id: Seq<char>) -> int {
    choose|i: int| 0 <= i < entries.len() && (#[trigger] entries[i]).session_id@ == session_id
}

/// No session has two markers, and every lifetime is positive.
pub open spec fn well_formed(entries: Seq<Marker>) -> bool {
    &&& forall|i: int, j: int|
        0 <= i < j < entries.len() ==> (#[trigger] entries[i]).session_id@ != (
        #[trigger] entries[j]).session_id@
    &&& forall|i: int| 0 <= i < entries.len() ==> (#[trigger] entries[i]).ttl > 0
}

/// The markers of a list, by session id.
pub open spec fn markers_of(entries: Seq<Marker>) -> Map<Seq<char>, int> {
    Map::new(
        |session_id: Seq<char>| holds(entries, session_id),
        |session_id: Seq<char>| entries[place(entries, session_id)].ttl as int,
    )
}

proof fn lemma_place(entries: Seq<Marker>, i: int)
    requires
        well_formed(entries),
        0 <= i < entries.len(),
    ensures
        holds(entries, entries[i].session_id@),
        place(entries, entries[i].session_id@) == i,
        markers_of(entries).contains_key(entries[i].session_id@),
        markers_of(entries)[entries[i].session_id@] == entries[i].ttl,
{
    let id = entries[i].session_id@;
    assert(0 <= i < entries.len() && entries[i].session_id@ == id);
    let p = place(entries, id);
    assert(0 <= p < entries.len() && entries[p].session_id@ == id);
    if p < i {
        assert(entries[p].session_id@ != entries[i].session_id@);
    } else if i < p {
        assert(entries[i].session_id@ != entries[p].session_id@);
    }
}

proof fn lemma_count(entries: Seq<Marker>)
    requires
        well_formed(entries),
    ensures
        markers_of(entries).dom().finite(),
        markers_of(entries).dom().len() == entries.len(),
    decreases entries.len(),
{
    if entries.len() == 0 {
        assert(markers_of(entries).dom() =~= Set::<Seq<char>>::empty());
    } else {
        let earlier = entries.drop_last();
        let last = entries.last();
        assert(well_formed(earlier)) by {
            assert forall|i: int, j: int| 0 <= i < j < earlier.len() implies (
            #[trigger] earlier[i]).session_id@ != (#[trigger] earlier[j]).session_id@ by {
                assert(entries[i].session_id@ != entries[j].session_id@);
            }
            assert forall|i: int| 0 <= i < earlier.len() implies (#[trigger] earlier[i]).ttl
                > 0 by {
                assert(entries[i].ttl > 0);
            }
        }
        assert(!holds(earlier, last.session_id@)) by {
            if holds(earlier, last.session_id@) {
                let i = place(earlier, last.session_id@);
                assert(entries[i].session_id@ != entries[entries.len() - 1].session_id@);
            }
        }
        lemma_count(earlier);
        lemma_added(earlier, entries);
        assert(markers_of(entries).dom() =~= markers_of(earlier).dom().insert(last.session_id@));
    }
}

/// A liveness store that keeps its markers in memory. It never fails, and
/// time passes in it only when [`MemoryStore::elapse`] is called.
#[derive(Debug)]
pub struct MemoryStore {
    entries: Vec<Marker>,
}

impl MemoryStore {
    pub closed spec fn entries(&self) -> Seq<Marker> {
        self.entries@
    }

    /// A store without markers.
    pub fn new() -> (r: Self)
        ensures
            r.valid(),
            r.markers() == Map::<Seq<char>, int>::empty(),
    {
        let r = MemoryStore { entries: Vec::new() };
        assert(markers_of(r.entries@) =~= Map::<Seq<char>, int>::empty());
        r
    }

    fn find(&self, session_id: &String) -> (r: Option<usize>)
        requires
            well_formed(self.entries@),
        ensures
            r matches Some(i) ==> i < self.entries@.len() && self.entries@[i as int].session_id@
                == session_id@,
            r is None ==> !holds(self.entries@, session_id@),
    {
        let mut i: usize = 0;
        while i < self.entries.len()
            invariant
                i <= self.entries@.len(),
                forall|j: int| 0 <= j < i ==> (#[trigger] self.entries@[j]).session_id@ != session_id@,
            decreases self.entries@.len() - i,
        {
            if self.entries[i].session_id == *session_id {
                return Some(i);
            }
            i = i + 1;
        }
        None
    }

    /// The lifetime that is left of the marker of `session_id`, if it has one.
    pub fn remaining(&self, session_id: &str) -> (r: Option<i64>)
        requires
            self.valid(),
        ensures
            r is Some <==> self.markers().contains_key(session_id@),
            r matches Some(ttl) ==> ttl == self.markers()[session_id@],
    {
        let key = session_id.to_string();
        match self.find(&key) {
            Some(i) => {
                proof {
                    lemma_place(self.entries@, i as int);
                }
                Some(self.entries[i].ttl)
            },
            None => None,
        }
    }

    /// The number of sessions that are alive.
    pub fn len(&self) -> (r: usize)
        requires
            self.valid(),
        ensures
            self.markers().dom().finite(),
            r == self.markers().dom().len(),
    {
        proof {
            lemma_count(self.entries@);
        }
        self.entries.len()
    }

    /// Lets `seconds` pass: every lifetime gets that much shorter, and the
    /// markers whose lifetime is used up disappear.
    pub fn elapse(&mut self, seconds: u64)
        requires
            old(self).valid(),
        ensures
            final(self).valid(),
            final(self).markers() == elapsed(old(self).markers(), seconds as int),
    {
        let mut kept: Vec<Marker> = Vec::new();
        let ghost mut source: Seq<int> = Seq::empty();
        let mut i: usize = 0;
        while i < self.entries.len()
            invariant
                i <= self.entries@.len(),
                well_formed(self.entries@),
                source.len() == kept@.len(),
                forall|k: int|
                    0 <= k < kept@.len() ==> {
                        &&& 0 <= (#[trigger] source[k]) < i
                        &&& kept@[k].session_id@ == self.entries@[source[k]].session_id@
                        &&& kept@[k].ttl == self.entries@[source[k]].ttl - seconds
                        &&& kept@[k].ttl > 0
                    },
                forall|k: int, l: int| 0 <= k < l < kept@.len() ==> source[k] < source[l],
                forall|j: int|
                    0 <= j < i && (#[trigger] self.entries@[j]).ttl > seconds ==> holds(
                        kept@,
                        self.entries@[j].session_id@,
                    ),
            decreases self.entries@.len() - i,
        {
            let ttl = self.entries[i].ttl;
            let ghost before = kept@;
            if seconds < ttl as u64 {
                let rest: i64 = ttl - seconds as i64;
                kept.push(Marker { session_id: self.entries[i].session_id.clone(), ttl: rest });
                proof {
                    source = source.push(i as int);
                    assert(kept@[kept@.len() - 1].session_id@ == self.entries@[i as int].session_id@);
                    assert forall|j: int|
                        0 <= j < i + 1 && (#[trigger] self.entries@[j]).ttl > seconds implies holds(
                        kept@,
                        self.entries@[j].session_id@,
                    ) by {
                        if j < i {
                            let k = choose|k: int|
                                0 <= k < before.len() && (#[trigger] before[k]).session_id@
                                    == self.entries@[j].session_id@;
                            assert(kept@[k].session_id@ == self.entries@[j].session_id@);
                        } else {
                            assert(kept@[kept@.len() - 1].session_id@
                                == self.entries@[j].session_id@);
                        }
                    }
                }
            }
            i = i + 1;
        }
        proof {
            let old_entries = self.entries@;
            let new_entries = kept@;
            assert(well_formed(new_entries)) by {
                assert forall|k: int, l: int| 0 <= k < l < new_entries.len() implies (
                #[trigger] new_entries[k]).session_id@ != (#[trigger] new_entries[l]).session_id@ by {
                    assert(source[k] < source[l]);
                    assert(old_entries[source[k]].session_id@ != old_entries[source[l]].session_id@);
                }
                assert forall|k: int| 0 <= k < new_entries.len() implies (
                #[trigger] new_entries[k]).ttl > 0 by {
                    assert(0 <= source[k]);
                }
            }
            let want = elapsed(markers_of(old_entries), seconds as int);
            let got = markers_of(new_entries);
            assert forall|id: Seq<char>| #[trigger] got.contains_key(id) implies want.contains_key(
                id,
            ) && got[id] == want[id] by {
                let k = place(new_entries, id);
                assert(0 <= k < new_entries.len() && new_entries[k].session_id@ == id);
                lemma_place(new_entries, k);
                assert(0 <= source[k] < old_entries.len());
                lemma_place(old_entries, source[k]);
            }
            assert forall|id: Seq<char>| #[trigger] want.contains_key(id) implies got.contains_key(
                id,
            ) by {
                let j = place(old_entries, id);
                assert(0 <= j < old_entries.len() && old_entries[j].session_id@ == id);
                lemma_place(old_entries, j);
                assert(old_entries[j].ttl > seconds);
                assert(holds(new_entries, old_entries[j].session_id@));
            }
            assert(got =~= want);
        }
        self.entries = kept;
    }
}

impl SessionStore for MemoryStore {
    open spec fn valid(&self) -> bool {
        well_formed(self.entries())
    }

    open spec fn markers(&self) -> Map<Seq<char>, int> {
        markers_of(self.entries())
    }

    open spec fn dependable(&self) -> bool {
        true
    }

    fn mark_alive(&mut self, session_id: &str, ttl: i64) -> (r: Result<(), CacheFault>) {
        let key = session_id.to_string();
        let ghost before = self.entries@;
        let found = self.find(&key);
        if ttl > 0 {
            match found {
                Some(i) => {
                    self.entries.set(i, Marker { session_id: key, ttl });
                    proof {
                        lemma_replaced(before, self.entries@, i as int, ttl as int);
                    }
                },
                None => {
                    self.entries.push(Marker { session_id: key, ttl });
                    proof {
                        lemma_added(before, self.entries@);
                    }
                },
            }
        } else {
            match found {
                Some(i) => {
                    self.entries.remove(i);
                    proof {
                        lemma_removed(before, self.entries@, i as int);
                    }
                },
                None => {
                    assert(markers_of(before).remove(session_id@) =~= markers_of(before));
                },
            }
        }
        Ok(())
    }

    fn is_alive(&mut self, session_id: &str) -> (r: Result<bool, CacheFault>) {
        let key = session_id.to_string();
        match self.find(&key) {
            Some(i) => {
                proof {
                    lemma_place(self.entries@, i as int);
                }
                Ok(true)
            },
            None => Ok(false),
        }
    }

    fn extend(&mut self, session_id: &str, ttl: i64) -> (r: Result<(), CacheFault>) {
        let key = session_id.to_string();
        let ghost before = self.entries@;
        match self.find(&key) {
            Some(i) => {
                proof {
                    lemma_place(before, i as int);
                }
                if ttl > 0 {
                    self.entries.set(i, Marker { session_id: key, ttl });
                    proof {
                        lemma_replaced(before, self.entries@, i as int, ttl as int);
                    }
                } else {
                    self.entries.remove(i);
                    proof {
                        lemma_removed(before, self.entries@, i as int);
                    }
                }
            },
            None => {},
        }
        Ok(())
    }

    fn revoke(&mut self, session_id: &str) -> (r: Result<(), CacheFault>) {
        let key = session_id.to_string();
        let ghost before = self.entries@;
        match self.find(&key) {
            Some(i) => {
                self.entries.remove(i);
                proof {
                    lemma_removed(before, self.entries@, i as int);
                }
            },
            None => {
                assert(markers_of(before).remove(session_id@) =~= markers_of(before));
            },
        }
        Ok(())
    }
}

/// A liveness store that cannot be reached: it holds nothing, and every
/// operation on it fails.
#[derive(Debug)]
pub struct OfflineStore;

impl SessionStore for OfflineStore {
    open spec fn valid(&self) -> bool {
        true
    }

    open spec fn markers(&self) -> Map<Seq<char>, int> {
        Map::empty()
    }

    open spec fn dependable(&self) -> bool {
        false
    }

    /// Fails, whatever the session and the lifetime.
    fn mark_alive(&mut self, session_id: &str, ttl: i64) -> (r: Result<(), CacheFault>)
        ensures
            r is Err,
    {
        Err(CacheFault)
    }

    /// Fails, whatever the session: a store that cannot be reached does not
    /// say that a session is dead.
    fn is_alive(&mut self, session_id: &str) -> (r: Result<bool, CacheFault>)
        ensures
            r is Err,
    {
        Err(CacheFault)
    }

    /// Fails, whatever the session and the lifetime.
    fn extend(&mut self, session_id: &str, ttl: i64) -> (r: Result<(), CacheFault>)
        ensures
            r is Err,
    {
        Err(CacheFault)
    }

    /// Fails, whatever the session.
    fn revoke(&mut self, session_id: &str) -> (r: Result<(), CacheFault>)
        ensures
            r is Err,
    {
        Err(CacheFault)
    }
}

proof fn lemma_replaced(before: Seq<Marker>, after: Seq<Marker>, i: int, ttl: int)
    requires
        well_formed(before),
        0 <= i < before.len(),
        ttl > 0,
        after.len() == before.len(),
        after[i].session_id@ == before[i].session_id@,
        after[i].ttl == ttl,
        forall|j: int| 0 <= j < before.len() && j != i ==> after[j] == before[j],
    ensures
        well_formed(after),
        markers_of(after) == markers_of(before).insert(before[i].session_id@, ttl),
{
    assert forall|j: int| 0 <= j < after.len() implies (#[trigger] after[j]).session_id@
        == before[j].session_id@ by {}
    assert(well_formed(after)) by {
        assert forall|k: int, l: int| 0 <= k < l < after.len() implies (#[trigger] after[k]).session_id@
            != (#[trigger] after[l]).session_id@ by {
            assert(before[k].session_id@ != before[l].session_id@);
        }
    }
    let want = markers_of(before).insert(before[i].session_id@, ttl);
    let got = markers_of(after);
    assert forall|id: Seq<char>| got.contains_key(id) implies want.contains_key(id) && got[id]
        == want[id] by {
        let k = place(after, id);
        assert(0 <= k < after.len() && after[k].session_id@ == id);
        lemma_place(after, k);
        lemma_place(before, k);
    }
    assert forall|id: Seq<char>| want.contains_key(id) implies got.contains_key(id) by {
        if id == before[i].session_id@ {
            lemma_place(after, i);
        } else {
            let k = place(before, id);
            assert(0 <= k < before.len() && before[k].session_id@ == id);
            lemma_place(after, k);
        }
    }
    assert(got =~= want);
}

proof fn lemma_added(before: Seq<Marker>, after: Seq<Marker>)
    requires
        well_formed(before),
        after.len() == before.len() + 1,
        after.last().ttl > 0,
        !holds(before, after.last().session_id@),
        forall|j: int| 0 <= j < before.len() ==> after[j] == before[j],
    ensures
        well_formed(after),
        markers_of(after) == markers_of(before).insert(
            after.last().session_id@,
            after.last().ttl as int,
        ),
{
    let last = after.len() - 1;
    assert(well_formed(after)) by {
        assert forall|k: int, l: int| 0 <= k < l < after.len() implies (#[trigger] after[k]).session_id@
            != (#[trigger] after[l]).session_id@ by {
            if l < last {
                assert(before[k].session_id@ != before[l].session_id@);
            } else {
                assert(before[k].session_id@ != after[last].session_id@);
            }
        }
    }
    let want = markers_of(before).insert(after.last().session_id@, after.last().ttl as int);
    let got = markers_of(after);
    assert forall|id: Seq<char>| got.contains_key(id) implies want.contains_key(id) && got[id]
        == want[id] by {
        let k = place(after, id);
        assert(0 <= k < after.len() && after[k].session_id@ == id);
        lemma_place(after, k);
        if k < last {
            lemma_place(before, k);
        }
    }
    assert forall|id: Seq<char>| want.contains_key(id) implies got.contains_key(id) by {
        if id == after.last().session_id@ {
            lemma_place(after, last);
        } else {
            let k = place(before, id);
            assert(0 <= k < before.len() && before[k].session_id@ == id);
            lemma_place(after, k);
        }
    }
    assert(got =~= want);
}

proof fn lemma_removed(before: Seq<Marker>, after: Seq<Marker>, i: int)
    requires
        well_formed(before),
        0 <= i < before.len(),
        after == before.remove(i),
    ensures
        well_formed(after),
        markers_of(after) == markers_of(before).remove(before[i].session_id@),
{
    assert forall|k: int| 0 <= k < after.len() implies (#[trigger] after[k]) == before[if k < i {
        k
    } else {
        k + 1
    }] by {}
    assert(well_formed(after)) by {
        assert forall|k: int, l: int| 0 <= k < l < after.len() implies (#[trigger] after[k]).session_id@
            != (#[trigger] after[l]).session_id@ by {
            let bk = if k < i { k } else { k + 1 };
            let bl = if l < i { l } else { l + 1 };
            assert(before[bk].session_id@ != before[bl].session_id@);
        }
        assert forall|k: int| 0 <= k < after.len() implies (#[trigger] after[k]).ttl > 0 by {
            let bk = if k < i { k } else { k + 1 };
            assert(before[bk].ttl > 0);
        }
    }
    let want = markers_of(before).remove(before[i].session_id@);
    let got = markers_of(after);
    assert forall|id: Seq<char>| got.contains_key(id) implies want.contains_key(id) && got[id]
        == want[id] by {
        let k = place(after, id);
        assert(0 <= k < after.len() && after[k].session_id@ == id);
        lemma_place(after, k);
        let bk = if k < i { k } else { k + 1 };
        lemma_place(before, bk);
        if bk < i {
            assert(before[bk].session_id@ != before[i].session_id@);
        } else {
            assert(before[i].session_id@ != before[bk].session_id@);
        }
    }
    assert forall|id: Seq<char>| want.contains_key(id) implies got.contains_key(id) by {
        let bk = place(before, id);
        assert(0 <= bk < before.len() && before[bk].session_id@ == id);
        let k = if bk < i { bk } else { bk - 1 };
        assert(after[k] == before[bk]);
        lemma_place(after, k);
    }
    assert(got =~= want);
}

} // verus!
