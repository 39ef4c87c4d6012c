//! The lease cache: MAC text to leases, with a write-through snapshot.
//!
//! Every change is prepared first as a [`PendingWrite`] that holds the next
//! contents of the cache. The caller writes its snapshot out and hands the
//! outcome to [`LeaseCache::commit`], which applies the change only where the
//! write succeeded: memory and snapshot never part ways.
use vstd::prelude::*;

use crate::lease::{zero_lease, Lease, LeaseView};

verus! {

/// Contents of the cache: MAC text to the leases held for it.
pub type CacheModel = Map<Seq<char>, Seq<LeaseView>>;

/// One entry of a snapshot: MAC text and its leases.
pub type SnapshotEntry = (String, Vec<Lease>);

pub open spec fn leases_view(v: Vec<Lease>) -> Seq<LeaseView> {
    v@.map_values(|l: Lease| l@)
}

/// `entries` spell out exactly the map `m`: keys are distinct, each entry is
/// in `m`, and each key of `m` has an entry.
pub open spec fn spells(entries: Seq<SnapshotEntry>, m: CacheModel) -> bool {
    &&& forall|i: int, j: int|
        0 <= i < j < entries.len() ==> (#[trigger] entries[i]).0@ != (#[trigger] entries[j]).0@
    &&& forall|i: int|
        0 <= i < entries.len() ==> m.contains_key((#[trigger] entries[i]).0@) && m[entries[i].0@]
            == leases_view(entries[i].1)
    &&& forall|k: Seq<char>|
        m.contains_key(k) ==> exists|i: int| 0 <= i < entries.len() && (#[trigger] entries[i]).0@ == k
}

/// Each MAC of the cache holds exactly one lease.
pub open spec fn single_leases(m: CacheModel) -> bool {
    forall|k: Seq<char>| m.contains_key(k) ==> (#[trigger] m[k]).len() == 1
}

/// What removing `mac` from `m` hands back: its lease, or the zero lease
/// with no owner where `mac` is absent.
pub open spec fn removed_lease(m: CacheModel, mac: Seq<char>) -> LeaseView {
    if m.contains_key(mac) && m[mac].len() > 0 {
        m[mac][0]
    } else {
        zero_lease(Seq::empty())
    }
}

/// MAC text to leases, kept as a list of entries with distinct keys.
pub struct LeaseMap {
    entries: Vec<SnapshotEntry>,
    model: Ghost<CacheModel>,
}

impl View for LeaseMap {
    type V = CacheModel;

    closed spec fn view(&self) -> CacheModel {
        self.model@
    }
}

impl LeaseMap {
    pub closed spec fn wf(&self) -> bool {
        spells(self.entries@, self.model@) && single_leases(self.model@)
    }

    pub fn new() -> (r: LeaseMap)
        ensures
            r.wf(),
            r@ == CacheModel::empty(),
    {
        LeaseMap { entries: Vec::new(), model: Ghost(Map::empty()) }
    }

    /// The entries, for writing the snapshot.
    pub fn entries(&self) -> (r: &Vec<SnapshotEntry>)
        requires
            self.wf(),
        ensures
            spells(r@, self@),
            single_leases(self@),
    {
        &self.entries
    }

    fn find(&self, key: &String) -> (r: Option<usize>)
        requires
            self.wf(),
        ensures
            r matches Some(i) ==> i < self.entries@.len() && self.entries@[i as int].0@ == key@,
            r is None ==> !self@.contains_key(key@),
    {
        let mut i: usize = 0;
        while i < self.entries.len()
            invariant
                i <= self.entries@.len(),
                forall|j: int| 0 <= j < i ==> (#[trigger] self.entries@[j]).0@ != key@,
            decreases self.entries@.len() - i,
        {
            if self.entries[i].0 == *key {
                return Some(i);
            }
            i = i + 1;
        }
        None
    }

    /// Puts `[lease]` under `key`, replacing what was there.
    pub fn set_single(&mut self, key: &str, lease: &Lease)
        requires
            old(self).wf(),
        ensures
            final(self).wf(),
            final(self)@ == old(self)@.insert(key@, seq![lease@]),
    {
        let k = key.to_owned();
        let mut v: Vec<Lease> = Vec::new();
        v.push(lease.duplicate());
        assert(leases_view(v) =~= seq![lease@]);
        let ghost m = self.model@.insert(key@, seq![lease@]);
        let ghost at: int;
        match self.find(&k) {
            Some(i) => {
                self.entries.set(i, (k, v));
                proof {
                    at = i as int;
                }
            },
            None => {
                self.entries.push((k, v));
                proof {
                    at = self.entries@.len() - 1;
                }
            },
        }
        self.model = Ghost(m);
        assert(self.entries@[at].0@ == key@);
        assert forall|k2: Seq<char>| m.contains_key(k2) implies exists|i: int|
            0 <= i < self.entries@.len() && (#[trigger] self.entries@[i]).0@ == k2 by {
            if k2 != key@ {
                let j = choose|j: int|
                    0 <= j < old(self).entries@.len() && (#[trigger] old(self).entries@[j]).0@ == k2;
                assert(self.entries@[j].0@ == k2);
            } else {
                assert(self.entries@[at].0@ == k2);
            }
        }
    }

    /// Removes the entry of `key`, handing back its first lease if there was one.
    pub fn take(&mut self, key: &str) -> (r: Option<Lease>)
        requires
            old(self).wf(),
        ensures
            final(self).wf(),
            final(self)@ == old(self)@.remove(key@),
            r is Some <==> old(self)@.contains_key(key@),
            r matches Some(l) ==> l@ == old(self)@[key@][0],
    {
        let k = key.to_owned();
        match self.find(&k) {
            Some(i) => {
                let ghost m = self.model@.remove(key@);
                let (_, mut leases) = self.entries.remove(i);
                assert(leases_view(leases).len() == 1);
                let first = leases.remove(0);
                self.model = Ghost(m);
                assert forall|k2: Seq<char>| m.contains_key(k2) implies exists|j: int|
                    0 <= j < self.entries@.len() && (#[trigger] self.entries@[j]).0@ == k2 by {
                    let j = choose|j: int| 0 <= j < old(self).entries@.len() && (#[trigger] old(self).entries@[j]).0@ == k2;
                    if j < i {
                        assert(self.entries@[j].0@ == k2);
                    } else {
                        assert(j != i);
                        assert(self.entries@[j - 1].0@ == k2);
                    }
                }
                Some(first)
            },
            None => {
                assert(self.model@.remove(key@) =~= self.model@);
                None
            },
        }
    }

    /// Removes every entry.
    pub fn clear(&mut self)
        requires
            old(self).wf(),
        ensures
            final(self).wf(),
            final(self)@ == CacheModel::empty(),
    {
        self.entries.clear();
        self.model = Ghost(Map::empty());
    }

    /// A copy with the same contents.
    pub fn duplicate(&self) -> (r: LeaseMap)
        requires
            self.wf(),
        ensures
            r.wf(),
            r@ == self@,
    {
        let mut out: Vec<SnapshotEntry> = Vec::new();
        let mut i: usize = 0;
        while i < self.entries.len()
            invariant
                self.wf(),
                i <= self.entries@.len(),
                out@.len() == i,
                forall|j: int| 0 <= j < i ==> (#[trigger] out@[j]).0@ == self.entries@[j].0@
                    && leases_view(out@[j].1) == leases_view(self.entries@[j].1),
            decreases self.entries@.len() - i,
        {
            let src = &self.entries[i].1;
            let mut copy: Vec<Lease> = Vec::new();
            let mut n: usize = 0;
            while n < src.len()
                invariant
                    n <= src@.len(),
                    copy@.len() == n,
                    forall|t: int| 0 <= t < n ==> (#[trigger] copy@[t])@ == src@[t]@,
                decreases src@.len() - n,
            {
                copy.push(src[n].duplicate());
                n = n + 1;
            }
            assert(leases_view(copy) =~= leases_view(*src));
            out.push((self.entries[i].0.clone(), copy));
            i = i + 1;
        }
        let r = LeaseMap { entries: out, model: Ghost(self.model@) };
        assert forall|k: Seq<char>| r.model@.contains_key(k) implies exists|j: int|
            0 <= j < r.entries@.len() && (#[trigger] r.entries@[j]).0@ == k by {
            let j = choose|j: int| 0 <= j < self.entries@.len() && (#[trigger] self.entries@[j]).0@ == k;
            assert(r.entries@[j].0@ == k);
        }
        r
    }
}


/// The snapshot could not be written; the message says why.
#[derive(Debug, PartialEq, Eq)]
pub struct StorageError {
    pub message: String,
}

/// A change of the cache that waits for its snapshot to be written.
pub struct PendingWrite {
    next: LeaseMap,
    lease: Lease,
}

impl PendingWrite {
    /// Contents of the cache once the change takes effect.
    pub closed spec fn next_model(&self) -> CacheModel {
        self.next@
    }

    /// The lease that the change hands back once it takes effect.
    pub closed spec fn lease_view(&self) -> LeaseView {
        self.lease@
    }

    pub closed spec fn wf(&self) -> bool {
        self.next.wf()
    }

    /// The entries to write as the snapshot.
    pub fn snapshot(&self) -> (r: &Vec<SnapshotEntry>)
        requires
            self.wf(),
        ensures
            spells(r@, self.next_model()),
            single_leases(self.next_model()),
    {
        self.next.entries()
    }
}

/// The leases held for containers, keyed by MAC text, with the path of the
/// snapshot file.
pub struct LeaseCache {
    mem: LeaseMap,
    path: String,
}

impl View for LeaseCache {
    type V = CacheModel;

    closed spec fn view(&self) -> CacheModel {
        self.mem@
    }
}

impl LeaseCache {
    pub closed spec fn wf(&self) -> bool {
        self.mem.wf()
    }

    pub closed spec fn path_view(&self) -> Seq<char> {
        self.path@
    }

    /// An empty cache whose snapshot lives at `file_path`.
    pub fn new(file_path: String) -> (r: LeaseCache)
        ensures
            r.wf(),
            r@ == CacheModel::empty(),
            r.path_view() == file_path@,
    {
        LeaseCache { mem: LeaseMap::new(), path: file_path }
    }

    /// Path of the snapshot file.
    pub fn path(&self) -> (r: &String)
        ensures
            r@ == self.path_view(),
    {
        &self.path
    }

    /// The entries of the cache, as its snapshot holds them.
    pub fn snapshot(&self) -> (r: &Vec<SnapshotEntry>)
        requires
            self.wf(),
        ensures
            spells(r@, self@),
            single_leases(self@),
    {
        self.mem.entries()
    }

    /// Prepares holding `[lease]` for `mac_addr`, replacing what it held.
    pub fn add_lease(&self, mac_addr: &str, lease: &Lease) -> (r: PendingWrite)
        requires
            self.wf(),
        ensures
            r.wf(),
            r.next_model() == self@.insert(mac_addr@, seq![lease@]),
            r.lease_view() == lease@,
    {
        let mut next = self.mem.duplicate();
        next.set_single(mac_addr, lease);
        PendingWrite { next, lease: lease.duplicate() }
    }

    /// Prepares replacing the lease of `mac_addr`; the same change as
    /// [`LeaseCache::add_lease`].
    pub fn update_lease(&self, mac_addr: &str, lease: Lease) -> (r: PendingWrite)
        requires
            self.wf(),
        ensures
            r.wf(),
            r.next_model() == self@.insert(mac_addr@, seq![lease@]),
            r.lease_view() == lease@,
    {
        let mut next = self.mem.duplicate();
        next.set_single(mac_addr, &lease);
        PendingWrite { next, lease }
    }

    /// Prepares removing `mac_addr`; the change hands back its lease, or the
    /// zero lease where it held none.
    pub fn remove_lease(&self, mac_addr: &str) -> (r: PendingWrite)
        requires
            self.wf(),
        ensures
            r.wf(),
            r.next_model() == self@.remove(mac_addr@),
            r.lease_view() == removed_lease(self@, mac_addr@),
    {
        let mut next = self.mem.duplicate();
        let lease = match next.take(mac_addr) {
            Some(l) => l,
            None => {
                let no_owner = String::new();
                Lease::zeroed(no_owner.as_str())
            },
        };
        PendingWrite { next, lease }
    }

    /// Applies `pending` where its snapshot was written; where the write
    /// failed the cache stays as it was and the failure is handed back.
    pub fn commit(&mut self, pending: PendingWrite, written: Result<(), String>) -> (r: Result<
        Lease,
        StorageError,
    >)
        requires
            old(self).wf(),
            pending.wf(),
        ensures
            final(self).wf(),
            final(self).path_view() == old(self).path_view(),
            written is Ok ==> final(self)@ == pending.next_model() && (r matches Ok(l) && l@
                == pending.lease_view()),
            written matches Err(e) ==> final(self)@ == old(self)@ && (r matches Err(s)
                && s.message == e),
    {
        match written {
            Ok(()) => {
                self.mem = pending.next;
                Ok(pending.lease)
            },
            Err(e) => Err(StorageError { message: e }),
        }
    }

    /// Empties the cache; the caller then truncates the snapshot file.
    pub fn teardown(&mut self)
        requires
            old(self).wf(),
        ensures
            final(self).wf(),
            final(self)@ == CacheModel::empty(),
            final(self).path_view() == old(self).path_view(),
    {
        self.mem.clear();
    }
}

/// Removing a MAC right after adding a lease for it hands back that lease.
pub proof fn lemma_remove_after_add(m: CacheModel, mac: Seq<char>, lease: LeaseView)
    ensures
        removed_lease(m.insert(mac, seq![lease]), mac) == lease,
{
}

/// A change of the cache, as a caller sees it.
pub enum CacheOp {
    /// `add` or `update`: the MAC now holds this one lease.
    Put(Seq<char>, LeaseView),
    Remove(Seq<char>),
}

pub open spec fn apply_op(m: CacheModel, op: CacheOp) -> CacheModel {
    match op {
        CacheOp::Put(k, l) => m.insert(k, seq![l]),
        CacheOp::Remove(k) => m.remove(k),
    }
}

/// Contents after applying `ops` in order to `m`.
pub open spec fn apply_ops(m: CacheModel, ops: Seq<CacheOp>) -> CacheModel
    decreases ops.len(),
{
    if ops.len() == 0 {
        m
    } else {
        apply_op(apply_ops(m, ops.drop_last()), ops.last())
    }
}

/// The lease that the last change of `k` in `ops` put, or `None` where that
/// change removed it or no change touched it.
pub open spec fn latest_lease(ops: Seq<CacheOp>, k: Seq<char>) -> Option<LeaseView>
    decreases ops.len(),
{
    if ops.len() == 0 {
        None
    } else {
        match ops.last() {
            CacheOp::Put(k2, l) => if k2 == k {
                Some(l)
            } else {
                latest_lease(ops.drop_last(), k)
            },
            CacheOp::Remove(k2) => if k2 == k {
                None
            } else {
                latest_lease(ops.drop_last(), k)
            },
        }
    }
}

proof fn lemma_apply_ops(ops: Seq<CacheOp>)
    ensures
        forall|k: Seq<char>|
            #![trigger apply_ops(CacheModel::empty(), ops).contains_key(k)]
            apply_ops(CacheModel::empty(), ops).contains_key(k) <==> latest_lease(ops, k) is Some,
        forall|k: Seq<char>|
            #![trigger apply_ops(CacheModel::empty(), ops)[k]]
            latest_lease(ops, k) is Some ==> apply_ops(CacheModel::empty(), ops)[k] == seq![
                latest_lease(ops, k)->Some_0,
            ],
    decreases ops.len(),
{
    let m = apply_ops(CacheModel::empty(), ops);
    if ops.len() > 0 {
        let prev = ops.drop_last();
        lemma_apply_ops(prev);
        let pm = apply_ops(CacheModel::empty(), prev);
        assert(m == apply_op(pm, ops.last()));
        assert forall|k: Seq<char>|
            (m.contains_key(k) <==> latest_lease(ops, k) is Some) && (latest_lease(ops, k) is Some
                ==> m[k] == seq![latest_lease(ops, k)->Some_0]) by {
            assert(pm.contains_key(k) <==> latest_lease(prev, k) is Some);
            if latest_lease(prev, k) is Some {
                assert(pm[k] == seq![latest_lease(prev, k)->Some_0]);
            }
        }
    }
}

/// After any sequence of changes from an empty cache, a snapshot of the
/// contents has an entry exactly for each MAC whose last change put a lease,
/// that entry holds exactly that lease, and no MAC has two entries.
pub proof fn lemma_snapshot_after_changes(ops: Seq<CacheOp>, entries: Seq<SnapshotEntry>)
    requires
        spells(entries, apply_ops(CacheModel::empty(), ops)),
    ensures
        forall|k: Seq<char>|
            (exists|i: int| 0 <= i < entries.len() && (#[trigger] entries[i]).0@ == k)
                <==> latest_lease(ops, k) is Some,
        forall|i: int|
            0 <= i < entries.len() ==> leases_view((#[trigger] entries[i]).1) == seq![
                latest_lease(ops, entries[i].0@)->Some_0,
            ],
        forall|i: int, j: int|
            0 <= i < j < entries.len() ==> (#[trigger] entries[i]).0@ != (#[trigger] entries[j]).0@,
{
    lemma_apply_ops(ops);
    let m = apply_ops(CacheModel::empty(), ops);
    assert forall|k: Seq<char>|
        (exists|i: int| 0 <= i < entries.len() && (#[trigger] entries[i]).0@ == k)
            <==> latest_lease(ops, k) is Some by {
        if latest_lease(ops, k) is Some {
            assert(m.contains_key(k));
        }
        if exists|i: int| 0 <= i < entries.len() && (#[trigger] entries[i]).0@ == k {
            let i = choose|i: int| 0 <= i < entries.len() && (#[trigger] entries[i]).0@ == k;
            assert(m.contains_key(entries[i].0@));
        }
    }
    assert forall|i: int| 0 <= i < entries.len() implies leases_view((#[trigger] entries[i]).1)
        == seq![latest_lease(ops, entries[i].0@)->Some_0] by {
        assert(m.contains_key(entries[i].0@));
    }
}

} // verus!
