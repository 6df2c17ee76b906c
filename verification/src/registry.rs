//! The relay's authoritative client registry: one record per live,
//! registered connection, mapping its identity to a display name, a public
//! key, and (in the surrounding process) an outbound delivery channel.
//!
//! Records are kept in registration order with strictly increasing
//! identities, so an identity occurs at most once and a membership snapshot
//! is a deterministic, ordered list.

use vstd::prelude::*;

use crate::envelope::{Peer, PeerView};
use crate::util::copy_bytes;
use vstd::pervasive::VecAdditionalExecFns;

verus! {

/// A registered connection: identity, display name, public key. Created on
/// `Register`, destroyed on disconnect.
pub struct PeerRecord {
    pub id: u64,
    pub name: String,
    pub public_key: Vec<u8>,
}

/// The mathematical content of a [`PeerRecord`].
pub struct RecordView {
    pub id: u64,
    pub name: Seq<char>,
    pub public_key: Seq<u8>,
}

impl View for PeerRecord {
    type V = RecordView;

    open spec fn view(&self) -> RecordView {
        RecordView { id: self.id, name: self.name@, public_key: self.public_key@ }
    }
}

/// The registry itself: the records of all currently registered
/// connections, in registration order.
pub struct Registry {
    records: Vec<PeerRecord>,
}

impl View for Registry {
    type V = Seq<RecordView>;

    closed spec fn view(&self) -> Seq<RecordView> {
        self.records@.map_values(|r: PeerRecord| r@)
    }
}

impl Registry {
    /// Identities are strictly increasing along the record list, so each
    /// occurs at most once.
    pub open spec fn wf(&self) -> bool {
        forall|i: int, j: int| 0 <= i < j < self@.len() ==> self@[i].id < self@[j].id
    }

    /// Whether `id` is currently registered.
    pub open spec fn spec_contains(&self, id: u64) -> bool {
        exists|i: int| 0 <= i < self@.len() && self@[i].id == id
    }

    /// The position of `id`'s record (meaningful when registered).
    pub open spec fn spec_index_of(&self, id: u64) -> int {
        choose|i: int| 0 <= i < self@.len() && self@[i].id == id
    }

    /// The record registered under `id` (meaningful when registered).
    pub open spec fn spec_record(&self, id: u64) -> RecordView {
        self@[self.spec_index_of(id)]
    }

    /// The registered identities, in registration order.
    pub open spec fn spec_ids(&self) -> Seq<u64> {
        self@.map_values(|r: RecordView| r.id)
    }

    /// The membership snapshot: each registered identity with its display
    /// name, in registration order.
    pub open spec fn peers_spec(&self) -> Seq<PeerView> {
        self@.map_values(|r: RecordView| (PeerView { id: r.id, name: r.name }))
    }

    /// In a well-formed registry an identity occurs at exactly one position.
    pub proof fn lemma_index_unique(&self, id: u64, i: int)
        requires
            self.wf(),
            0 <= i < self@.len(),
            self@[i].id == id,
        ensures
            self.spec_contains(id),
            self.spec_index_of(id) == i,
    {
        assert(self.spec_contains(id));
        let j = self.spec_index_of(id);
        if i < j {
            assert(self@[i].id < self@[j].id);
        } else if j < i {
            assert(self@[j].id < self@[i].id);
        }
    }

    /// An empty registry: no client is registered.
    pub fn new() -> (r: Registry)
        ensures
            r@ == Seq::<RecordView>::empty(),
            r.wf(),
    {
        let r = Registry { records: Vec::new() };
        proof {
            assert(r@ =~= Seq::<RecordView>::empty());
        }
        r
    }

    /// How many clients are registered; on the relay this equals the number
    /// of live, registered connections at all times.
    pub fn len(&self) -> (r: usize)
        ensures
            r == self@.len(),
    {
        self.records.len()
    }

    /// The position of `id`'s record, or nothing when `id` is not
    /// registered.
    fn find(&self, id: u64) -> (r: Option<usize>)
        requires
            self.wf(),
        ensures
            r matches Some(i) ==> {
                &&& i < self@.len()
                &&& self@[i as int].id == id
                &&& self.spec_contains(id)
                &&& self.spec_index_of(id) == i
            },
            r is None ==> !self.spec_contains(id),
    {
        let n = self.records.len();
        for i in 0..n
            invariant
                n == self@.len(),
                forall|j: int| 0 <= j < i ==> self@[j].id != id,
                self.wf(),
        {
            if self.records[i].id == id {
                proof {
                    self.lemma_index_unique(id, i as int);
                }
                return Some(i);
            }
        }
        None
    }

    /// Whether `id` is currently registered.
    pub fn contains(&self, id: u64) -> (r: bool)
        requires
            self.wf(),
        ensures
            r == self.spec_contains(id),
    {
        self.find(id).is_some()
    }

    /// The public key registered under `id`, or nothing when `id` is not
    /// registered — the caller can tell "peer unknown" apart from a key.
    pub fn lookup_public_key(&self, id: u64) -> (r: Option<Vec<u8>>)
        requires
            self.wf(),
        ensures
            r matches Some(k) ==> self.spec_contains(id) && k@ == self.spec_record(id).public_key,
            r is None ==> !self.spec_contains(id),
    {
        match self.find(id) {
            Some(i) => Some(copy_bytes(&self.records[i].public_key)),
            None => None,
        }
    }

    /// Insert a record for `id`, or overwrite the one it already has.
    /// A fresh `id` must come from the relay's counter, above every
    /// registered identity, which keeps the order strict.
    pub fn upsert(&mut self, id: u64, name: String, public_key: Vec<u8>)
        requires
            old(self).wf(),
            old(self).spec_contains(id) || (forall|i: int|
                0 <= i < old(self)@.len() ==> old(self)@[i].id < id),
        ensures
            final(self).wf(),
            old(self).spec_contains(id) ==> final(self)@ == old(self)@.update(
                old(self).spec_index_of(id),
                (RecordView { id, name: name@, public_key: public_key@ }),
            ),
            !old(self).spec_contains(id) ==> final(self)@ == old(self)@.push(
                (RecordView { id, name: name@, public_key: public_key@ }),
            ),
            final(self).spec_contains(id),
            final(self).spec_record(id) == (RecordView {
                id,
                name: name@,
                public_key: public_key@,
            }),
    {
        let ghost target = RecordView { id, name: name@, public_key: public_key@ };
        let rec = PeerRecord { id, name, public_key };
        match self.find(id) {
            Some(i) => {
                self.records.set(i, rec);
                proof {
                    assert(self@ =~= old(self)@.update(old(self).spec_index_of(id), target));
                    self.lemma_index_unique(id, i as int);
                }
            },
            None => {
                self.records.push(rec);
                proof {
                    assert(self@ =~= old(self)@.push(target));
                    self.lemma_index_unique(id, old(self)@.len() as int);
                }
            },
        }
    }

    /// Remove `id`'s record, if any; the order of the rest is kept.
    pub fn remove_id(&mut self, id: u64)
        requires
            old(self).wf(),
        ensures
            final(self).wf(),
            old(self).spec_contains(id) ==> final(self)@ == old(self)@.remove(
                old(self).spec_index_of(id),
            ),
            !old(self).spec_contains(id) ==> final(self)@ == old(self)@,
            !final(self).spec_contains(id),
    {
        match self.find(id) {
            Some(i) => {
                self.records.remove(i);
                proof {
                    assert(self@ =~= old(self)@.remove(i as int));
                    assert forall|k: int| 0 <= k < self@.len() implies self@[k].id != id by {
                        if k < i {
                            assert(self@[k] == old(self)@[k]);
                        } else {
                            assert(self@[k] == old(self)@[k + 1]);
                        }
                    }
                }
            },
            None => {},
        }
    }

    /// The registered identities, in registration order.
    pub fn ids(&self) -> (r: Vec<u64>)
        ensures
            r@ == self.spec_ids(),
    {
        let mut out: Vec<u64> = Vec::new();
        let n = self.records.len();
        for i in 0..n
            invariant
                n == self@.len(),
                out@.len() == i,
                forall|j: int| 0 <= j < i ==> out@[j] == self@[j].id,
        {
            out.push(self.records[i].id);
        }
        assert(out@ =~= self.spec_ids());
        out
    }

    /// The membership snapshot broadcast to every client: the full current
    /// list of (identity, display name), in registration order.
    pub fn membership(&self) -> (r: Vec<Peer>)
        ensures
            r@.map_values(|p: Peer| p@) == self.peers_spec(),
            r@.len() == self@.len(),
    {
        let mut out: Vec<Peer> = Vec::new();
        let n = self.records.len();
        for i in 0..n
            invariant
                n == self@.len(),
                out@.len() == i,
                forall|j: int| 0 <= j < i ==> out@[j]@ == self.peers_spec()[j],
        {
            let rec = &self.records[i];
            out.push(Peer { id: rec.id, name: rec.name.clone() });
        }
        assert(out@.map_values(|p: Peer| p@) =~= self.peers_spec());
        out
    }

    /// The membership snapshot lists exactly the registered identities, in
    /// registration order: same length, same identity and name at every
    /// position, and identity for identity the same sequence.
    pub proof fn lemma_membership_exact(&self)
        ensures
            self.peers_spec().len() == self@.len(),
            forall|i: int| 0 <= i < self@.len() ==> self.peers_spec()[i].id == self@[i].id
                && self.peers_spec()[i].name == self@[i].name,
            self.peers_spec().map_values(|p: PeerView| p.id) == self.spec_ids(),
    {
        assert(self.peers_spec().map_values(|p: PeerView| p.id) =~= self.spec_ids());
    }
}

} // verus!
