//! The algorithm-state repository: the latest snapshot of each algorithm, keyed by the
//! algorithm's id.
//!
//! [`AlgoStateRepository`] is the contract that every store has to meet, durable or
//! not. [`MemoryAlgoStateRepository`] meets it in memory.

use vstd::prelude::*;
use crate::algorithm::AlgoStatus;
use crate::ident::Uuid;

verus! {

/// The stored image of an algorithm.
#[derive(Debug, PartialEq, Eq)]
pub struct AlgoSnapshot {
    pub algo_id: Uuid,
    pub kind: String,
    pub status: AlgoStatus,
    /// The algorithm's state in a form its factory can restore.
    pub payload: String,
    pub next_client_seq: u64,
}

/// The mathematical content of an [`AlgoSnapshot`].
pub struct AlgoSnapshotModel {
    pub algo_id: u128,
    pub kind: Seq<char>,
    pub status: AlgoStatus,
    pub payload: Seq<char>,
    pub next_client_seq: u64,
}

impl View for AlgoSnapshot {
    type V = AlgoSnapshotModel;

    open spec fn view(&self) -> AlgoSnapshotModel {
        AlgoSnapshotModel {
            algo_id: self.algo_id.value,
            kind: self.kind@,
            status: self.status,
            payload: self.payload@,
            next_client_seq: self.next_client_seq,
        }
    }
}

impl Clone for AlgoSnapshot {
    fn clone(&self) -> (r: AlgoSnapshot)
        ensures
            r == *self,
    {
        AlgoSnapshot {
            algo_id: self.algo_id,
            kind: self.kind.clone(),
            status: self.status,
            payload: self.payload.clone(),
            next_client_seq: self.next_client_seq,
        }
    }
}

/// Why the repository could not do what it was asked.
#[derive(Debug, PartialEq, Eq)]
pub enum RepositoryError {
    /// Reading or writing the store failed.
    Io(String),
}

/// The snapshot that is stored for `snapshot` under `algo_id`: the snapshot with the
/// key as its id.
pub open spec fn stored_under(algo_id: u128, snapshot: AlgoSnapshotModel) -> AlgoSnapshotModel {
    AlgoSnapshotModel { algo_id, ..snapshot }
}

/// The model of an optional snapshot.
pub open spec fn snapshot_option(s: Option<AlgoSnapshot>) -> Option<AlgoSnapshotModel> {
    match s {
        Some(x) => Some(x@),
        None => None,
    }
}

/// What is stored under a key, if anything.
pub open spec fn lookup(entries: Map<u128, AlgoSnapshotModel>, algo_id: u128) -> Option<AlgoSnapshotModel> {
    if entries.contains_key(algo_id) {
        Some(entries[algo_id])
    } else {
        None
    }
}

/// The id of the `i`-th snapshot of a sequence.
pub open spec fn id_at(s: Seq<AlgoSnapshot>, i: int) -> u128 {
    s[i].algo_id.value
}

/// Whether a snapshot of the sequence has the id `k`.
pub open spec fn holds_id(s: Seq<AlgoSnapshot>, k: u128) -> bool {
    exists|i: int| 0 <= i < s.len() && #[trigger] id_at(s, i) == k
}

/// Whether no two snapshots of a sequence have the same id.
pub open spec fn distinct_ids(s: Seq<AlgoSnapshot>) -> bool {
    forall|i: int, j: int| 0 <= i < j < s.len() ==> #[trigger] id_at(s, i) != #[trigger] id_at(s, j)
}

/// Whether a snapshot is stored under its id as it is, and is working.
pub open spec fn is_active_entry(entries: Map<u128, AlgoSnapshotModel>, x: AlgoSnapshot) -> bool {
    &&& entries.contains_key(x.algo_id.value)
    &&& entries[x.algo_id.value] == x@
    &&& x.status == AlgoStatus::Working
}

/// Whether `listing` is a listing of the active snapshots of `entries`: every listed
/// snapshot is stored under its id and is working, no id is listed twice, and every
/// working snapshot that is stored is listed.
pub open spec fn lists_active(entries: Map<u128, AlgoSnapshotModel>, listing: Seq<AlgoSnapshot>) -> bool {
    &&& forall|i: int| 0 <= i < listing.len() ==> is_active_entry(entries, #[trigger] listing[i])
    &&& distinct_ids(listing)
    &&& forall|k: u128| #[trigger]
        entries.contains_key(k) && entries[k].status == AlgoStatus::Working ==> holds_id(listing, k)
}

/// A key-value store of snapshots, keyed by the algorithm's id.
///
/// A write replaces what was stored under the key as a whole or, where it fails, leaves
/// the store as it was: a reader never sees part of a snapshot.
pub trait AlgoStateRepository {
    /// What the repository holds.
    spec fn entries(&self) -> Map<u128, AlgoSnapshotModel>;

    /// Stores `snapshot` under `algo_id`, in place of what was stored there.
    fn put(&mut self, algo_id: Uuid, snapshot: AlgoSnapshot) -> (r: Result<(), RepositoryError>)
        ensures
            r is Ok ==> final(self).entries() == old(self).entries().insert(
                algo_id.value,
                stored_under(algo_id.value, snapshot@),
            ),
            r is Err ==> final(self).entries() == old(self).entries(),
    ;

    /// The snapshot stored under `algo_id`, if there is one.
    fn get(&self, algo_id: Uuid) -> (r: Result<Option<AlgoSnapshot>, RepositoryError>)
        ensures
            r matches Ok(found) ==> snapshot_option(found) == lookup(self.entries(), algo_id.value),
    ;

    /// The snapshots of the algorithms that are working.
    fn list_active(&self) -> (r: Result<Vec<AlgoSnapshot>, RepositoryError>)
        ensures
            r matches Ok(listing) ==> lists_active(self.entries(), listing@),
    ;

    /// Removes what is stored under `algo_id`.
    fn delete(&mut self, algo_id: Uuid) -> (r: Result<(), RepositoryError>)
        ensures
            r is Ok ==> final(self).entries() == old(self).entries().remove(algo_id.value),
            r is Err ==> final(self).entries() == old(self).entries(),
    ;
}

/// The map that a sequence of snapshots stands for: each snapshot under its id, a later
/// one in place of an earlier one with the same id.
pub open spec fn as_map(s: Seq<AlgoSnapshot>) -> Map<u128, AlgoSnapshotModel>
    decreases s.len(),
{
    if s.len() == 0 {
        Map::empty()
    } else {
        as_map(s.drop_last()).insert(s.last().algo_id.value, s.last()@)
    }
}

/// Dropping the last snapshot of a sequence with distinct ids leaves the ids distinct.
pub proof fn lemma_distinct_front(s: Seq<AlgoSnapshot>)
    requires
        s.len() > 0,
        distinct_ids(s),
    ensures
        distinct_ids(s.drop_last()),
        !holds_id(s.drop_last(), s.last().algo_id.value),
{
    let front = s.drop_last();
    assert forall|i: int, j: int| 0 <= i < j < front.len() implies #[trigger] id_at(front, i) != #[trigger] id_at(
        front,
        j,
    ) by {
        assert(id_at(front, i) == id_at(s, i) && id_at(front, j) == id_at(s, j));
    }
    if holds_id(front, s.last().algo_id.value) {
        let i = choose|i: int| 0 <= i < front.len() && #[trigger] id_at(front, i) == s.last().algo_id.value;
        assert(id_at(s, i) == id_at(front, i));
        assert(id_at(s, s.len() - 1) == s.last().algo_id.value);
    }
}

/// An id is a key of the map exactly if a snapshot of the sequence has it.
pub proof fn lemma_as_map_key(s: Seq<AlgoSnapshot>, k: u128)
    ensures
        as_map(s).contains_key(k) <==> holds_id(s, k),
    decreases s.len(),
{
    if s.len() > 0 {
        let front = s.drop_last();
        lemma_as_map_key(front, k);
        if as_map(s).contains_key(k) {
            if k == s.last().algo_id.value {
                assert(id_at(s, s.len() - 1) == k);
            } else {
                let i = choose|i: int| 0 <= i < front.len() && #[trigger] id_at(front, i) == k;
                assert(id_at(s, i) == k);
            }
        }
        if holds_id(s, k) {
            let i = choose|i: int| 0 <= i < s.len() && #[trigger] id_at(s, i) == k;
            if i < s.len() - 1 {
                assert(id_at(front, i) == k);
            }
        }
    }
}

/// Where the ids are distinct, the map holds each snapshot of the sequence under its
/// id.
pub proof fn lemma_as_map_value(s: Seq<AlgoSnapshot>, i: int)
    requires
        0 <= i < s.len(),
        distinct_ids(s),
    ensures
        as_map(s).contains_key(id_at(s, i)),
        as_map(s)[id_at(s, i)] == s[i]@,
    decreases s.len(),
{
    let front = s.drop_last();
    lemma_distinct_front(s);
    if i < s.len() - 1 {
        lemma_as_map_value(front, i);
        assert(id_at(front, i) == id_at(s, i));
        assert(id_at(s, i) != id_at(s, s.len() - 1));
    }
}

/// Taking a snapshot out of a sequence with distinct ids takes its id out of the map,
/// and the ids stay distinct.
pub proof fn lemma_as_map_remove(s: Seq<AlgoSnapshot>, i: int)
    requires
        0 <= i < s.len(),
        distinct_ids(s),
    ensures
        as_map(s.remove(i)) == as_map(s).remove(id_at(s, i)),
        distinct_ids(s.remove(i)),
    decreases s.len(),
{
    let k = id_at(s, i);
    let t = s.remove(i);
    assert(distinct_ids(t)) by {
        assert forall|a: int, b: int| 0 <= a < b < t.len() implies #[trigger] id_at(t, a) != #[trigger] id_at(
            t,
            b,
        ) by {
            let a2 = if a < i {
                a
            } else {
                a + 1
            };
            let b2 = if b < i {
                b
            } else {
                b + 1
            };
            assert(id_at(t, a) == id_at(s, a2) && id_at(t, b) == id_at(s, b2));
        }
    }
    lemma_distinct_front(s);
    if i == s.len() - 1 {
        assert(t =~= s.drop_last());
        lemma_as_map_key(t, k);
        assert(as_map(t) =~= as_map(s).remove(k));
    } else {
        let front = s.drop_last();
        lemma_as_map_remove(front, i);
        assert(id_at(front, i) == k);
        assert(t.drop_last() =~= front.remove(i));
        assert(t.last() == s.last());
        assert(id_at(s, i) != id_at(s, s.len() - 1));
        assert(as_map(t) =~= as_map(s).remove(k));
    }
}

/// A sequence of snapshots with distinct ids stands for a map with as many keys.
pub proof fn lemma_as_map_size(s: Seq<AlgoSnapshot>)
    requires
        distinct_ids(s),
    ensures
        as_map(s).dom().finite(),
        as_map(s).dom().len() == s.len(),
    decreases s.len(),
{
    if s.len() > 0 {
        let front = s.drop_last();
        lemma_distinct_front(s);
        lemma_as_map_size(front);
        let k = s.last().algo_id.value;
        lemma_as_map_key(front, k);
        assert(as_map(s).dom() =~= as_map(front).dom().insert(k));
    }
}

/// A repository that keeps the snapshots in memory.
#[derive(Debug)]
pub struct MemoryAlgoStateRepository {
    snapshots: Vec<AlgoSnapshot>,
}

impl MemoryAlgoStateRepository {
    #[verifier::type_invariant]
    spec fn well_formed(self) -> bool {
        distinct_ids(self.snapshots@)
    }

    /// What the repository holds.
    pub closed spec fn contents(&self) -> Map<u128, AlgoSnapshotModel> {
        as_map(self.snapshots@)
    }

    /// An empty repository.
    pub fn new() -> (r: MemoryAlgoStateRepository)
        ensures
            r.contents() == Map::<u128, AlgoSnapshotModel>::empty(),
    {
        MemoryAlgoStateRepository { snapshots: Vec::new() }
    }

    /// The number of snapshots held.
    pub fn len(&self) -> (r: usize)
        ensures
            r == self.contents().dom().len(),
            self.contents().dom().finite(),
    {
        proof {
            use_type_invariant(self);
            lemma_as_map_size(self.snapshots@);
        }
        self.snapshots.len()
    }

    /// The position of the snapshot with the given id.
    fn position(&self, algo_id: Uuid) -> (r: Option<usize>)
        ensures
            match r {
                Some(i) => i < self.snapshots@.len() && id_at(self.snapshots@, i as int) == algo_id.value,
                None => !holds_id(self.snapshots@, algo_id.value),
            },
    {
        let mut i: usize = 0;
        while i < self.snapshots.len()
            invariant
                i <= self.snapshots@.len(),
                forall|j: int| 0 <= j < i ==> #[trigger] id_at(self.snapshots@, j) != algo_id.value,
            decreases self.snapshots@.len() - i,
        {
            if self.snapshots[i].algo_id.value == algo_id.value {
                return Some(i);
            }
            i = i + 1;
        }
        None
    }
}

impl AlgoStateRepository for MemoryAlgoStateRepository {
    open spec fn entries(&self) -> Map<u128, AlgoSnapshotModel> {
        self.contents()
    }

    fn put(&mut self, algo_id: Uuid, snapshot: AlgoSnapshot) -> (r: Result<(), RepositoryError>)
        ensures
            r is Ok,
    {
        proof {
            use_type_invariant(&*self);
        }
        let ghost before = self.snapshots@;
        let stored = AlgoSnapshot { algo_id, ..snapshot };
        let found = self.position(algo_id);
        let mut items: Vec<AlgoSnapshot> = Vec::new();
        std::mem::swap(&mut self.snapshots, &mut items);
        match found {
            Some(i) => {
                proof {
                    lemma_as_map_remove(before, i as int);
                }
                items.remove(i);
            },
            None => {
                proof {
                    lemma_as_map_key(before, algo_id.value);
                    assert(as_map(before) =~= as_map(before).remove(algo_id.value));
                }
            },
        }
        let ghost middle = items@;
        proof {
            lemma_as_map_key(middle, algo_id.value);
        }
        items.push(stored);
        proof {
            let after = items@;
            assert(after.drop_last() =~= middle);
            assert(as_map(after) =~= as_map(before).insert(algo_id.value, stored@));
            assert forall|a: int, b: int| 0 <= a < b < after.len() implies #[trigger] id_at(after, a)
                != #[trigger] id_at(after, b) by {
                assert(id_at(after, a) == id_at(middle, a));
                if b < after.len() - 1 {
                    assert(id_at(after, b) == id_at(middle, b));
                }
            }
        }
        std::mem::swap(&mut self.snapshots, &mut items);
        Ok(())
    }

    fn get(&self, algo_id: Uuid) -> (r: Result<Option<AlgoSnapshot>, RepositoryError>)
        ensures
            r is Ok,
    {
        proof {
            use_type_invariant(self);
            lemma_as_map_key(self.snapshots@, algo_id.value);
        }
        match self.position(algo_id) {
            Some(i) => {
                proof {
                    lemma_as_map_value(self.snapshots@, i as int);
                }
                Ok(Some(self.snapshots[i].clone()))
            },
            None => Ok(None),
        }
    }

    fn list_active(&self) -> (r: Result<Vec<AlgoSnapshot>, RepositoryError>)
        ensures
            r is Ok,
    {
        proof {
            use_type_invariant(self);
        }
        let mut listing: Vec<AlgoSnapshot> = Vec::new();
        let ghost mut picked: Seq<int> = Seq::empty();
        let mut i: usize = 0;
        while i < self.snapshots.len()
            invariant
                i <= self.snapshots@.len(),
                picked.len() == listing@.len(),
                forall|a: int|
                    0 <= a < picked.len() ==> 0 <= #[trigger] picked[a] < i && listing@[a]
                        == self.snapshots@[picked[a]],
                forall|a: int| 0 <= a < listing@.len() ==> (#[trigger] listing@[a]).status == AlgoStatus::Working,
                forall|a: int, b: int| 0 <= a < b < picked.len() ==> #[trigger] picked[a] < #[trigger] picked[b],
                forall|j: int|
                    0 <= j < i && (#[trigger] self.snapshots@[j]).status == AlgoStatus::Working ==> picked.contains(
                        j,
                    ),
            decreases self.snapshots@.len() - i,
        {
            match self.snapshots[i].status {
                AlgoStatus::Working => {
                    let ghost old_picked = picked;
                    listing.push(self.snapshots[i].clone());
                    proof {
                        picked = picked.push(i as int);
                        assert(picked[picked.len() - 1] == i);
                        assert forall|j: int|
                            0 <= j < i + 1 && (#[trigger] self.snapshots@[j]).status
                                == AlgoStatus::Working implies picked.contains(j) by {
                            if j < i {
                                assert(old_picked.contains(j));
                                let a = choose|a: int| 0 <= a < old_picked.len() && old_picked[a] == j;
                                assert(picked[a] == j);
                            }
                        }
                    }
                },
                _ => {},
            }
            i = i + 1;
        }
        proof {
            let entries = self.entries();
            let s = self.snapshots@;
            let l = listing@;
            assert forall|a: int| 0 <= a < l.len() implies is_active_entry(entries, #[trigger] l[a]) by {
                let j = picked[a];
                lemma_as_map_value(s, j);
            }
            assert forall|a: int, b: int| 0 <= a < b < l.len() implies #[trigger] id_at(l, a) != #[trigger] id_at(
                l,
                b,
            ) by {
                assert(picked[a] < picked[b]);
                assert(id_at(s, picked[a]) != id_at(s, picked[b]));
            }
            assert forall|k: u128| #[trigger]
                entries.contains_key(k) && entries[k].status == AlgoStatus::Working implies holds_id(l, k) by {
                lemma_as_map_key(s, k);
                let j = choose|j: int| 0 <= j < s.len() && #[trigger] id_at(s, j) == k;
                lemma_as_map_value(s, j);
                assert(s[j].status == AlgoStatus::Working);
                assert(picked.contains(j));
                let a = choose|a: int| 0 <= a < picked.len() && picked[a] == j;
                assert(id_at(l, a) == k);
            }
        }
        Ok(listing)
    }

    fn delete(&mut self, algo_id: Uuid) -> (r: Result<(), RepositoryError>)
        ensures
            r is Ok,
    {
        proof {
            use_type_invariant(&*self);
        }
        let ghost before = self.snapshots@;
        match self.position(algo_id) {
            Some(i) => {
                let mut items: Vec<AlgoSnapshot> = Vec::new();
                std::mem::swap(&mut self.snapshots, &mut items);
                proof {
                    lemma_as_map_remove(before, i as int);
                }
                items.remove(i);
                std::mem::swap(&mut self.snapshots, &mut items);
            },
            None => {
                proof {
                    lemma_as_map_key(before, algo_id.value);
                    assert(as_map(before) =~= as_map(before).remove(algo_id.value));
                }
            },
        }
        Ok(())
    }
}

} // verus!
