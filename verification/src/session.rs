//! The client's session-key cache: one symmetric key per peer identity,
//! created lazily on the first completed key exchange with that peer.
//!
//! Completing a handshake overwrites any earlier entry for the peer
//! identity, which is how re-keying works after a peer reconnects. A key for
//! an identity that went away is invalidated by removing it. The cache is
//! read by the task sending user messages and written by the task handling
//! `PublicKeyResponse` envelopes; the surrounding process must wrap it in
//! mutual exclusion, since those run concurrently.

use vstd::prelude::*;

use crate::cipher::{SymmetricKey, KEY_LEN};

verus! {

/// One cached session key: 32 bytes of material and when it was derived
/// (a caller-supplied stamp; the store never reads a clock).
pub struct SessionKey {
    pub peer: u64,
    pub key: SymmetricKey,
    pub derived_at: u64,
}

/// The mathematical content of a cached entry.
pub struct SessionView {
    pub key: Seq<u8>,
    pub derived_at: u64,
}

/// The cache itself: for specifications, a map from peer identity to the
/// cached key material.
pub struct SessionStore {
    entries: Vec<SessionKey>,
}

impl View for SessionStore {
    type V = Map<u64, SessionView>;

    closed spec fn view(&self) -> Map<u64, SessionView> {
        Map::new(
            |p: u64| exists|i: int| 0 <= i < self.entries@.len() && self.entries@[i].peer == p,
            |p: u64|
                {
                    let i = choose|i: int|
                        0 <= i < self.entries@.len() && self.entries@[i].peer == p;
                    SessionView {
                        key: self.entries@[i].key@,
                        derived_at: self.entries@[i].derived_at,
                    }
                },
        )
    }
}

impl SessionStore {
    /// Each peer identity occurs at most once, and every cached key holds
    /// 32 bytes of material. Established by `new` and preserved by every
    /// operation.
    pub closed spec fn wf(&self) -> bool {
        &&& forall|i: int, j: int|
            0 <= i < j < self.entries@.len() ==> self.entries@[i].peer != self.entries@[j].peer
        &&& forall|i: int| 0 <= i < self.entries@.len() ==> self.entries@[i].key@.len() == KEY_LEN
    }

    /// A peer that occurs at position `i` is in the view with that entry's
    /// content.
    proof fn lemma_entry_unique(&self, p: u64, i: int)
        requires
            self.wf(),
            0 <= i < self.entries@.len(),
            self.entries@[i].peer == p,
        ensures
            self@.dom().contains(p),
            self@[p] == (SessionView {
                key: self.entries@[i].key@,
                derived_at: self.entries@[i].derived_at,
            }),
    {
        let j = choose|j: int| 0 <= j < self.entries@.len() && self.entries@[j].peer == p;
        if i != j {
            assert(self.entries@[i].peer != self.entries@[j].peer);
        }
    }

    /// An empty cache: no handshake has completed yet.
    pub fn new() -> (r: SessionStore)
        ensures
            r@ == Map::<u64, SessionView>::empty(),
            r.wf(),
    {
        let r = SessionStore { entries: Vec::new() };
        proof {
            assert(r@ =~= Map::<u64, SessionView>::empty());
        }
        r
    }

    /// The position of `peer`'s entry, or nothing.
    fn find(&self, peer: u64) -> (r: Option<usize>)
        requires
            self.wf(),
        ensures
            r matches Some(i) ==> {
                &&& i < self.entries@.len()
                &&& self.entries@[i as int].peer == peer
                &&& self@.dom().contains(peer)
                &&& self@[peer] == (SessionView {
                    key: self.entries@[i as int].key@,
                    derived_at: self.entries@[i as int].derived_at,
                })
            },
            r is None ==> !self@.dom().contains(peer),
    {
        let n = self.entries.len();
        for i in 0..n
            invariant
                self.wf(),
                n == self.entries@.len(),
                forall|j: int| 0 <= j < i ==> self.entries@[j].peer != peer,
        {
            if self.entries[i].peer == peer {
                proof {
                    self.lemma_entry_unique(peer, i as int);
                }
                return Some(i);
            }
        }
        None
    }

    /// Whether a session key for `peer` is cached — whether the handshake
    /// with `peer` has completed.
    pub fn has(&self, peer: u64) -> (r: bool)
        requires
            self.wf(),
        ensures
            r == self@.dom().contains(peer),
    {
        self.find(peer).is_some()
    }

    /// The cached session key for `peer`, or nothing when the handshake has
    /// not completed.
    pub fn get(&self, peer: u64) -> (r: Option<SymmetricKey>)
        requires
            self.wf(),
        ensures
            r matches Some(k) ==> {
                &&& self@.dom().contains(peer)
                &&& k@ == self@[peer].key
                &&& k.wf()
            },
            r is None ==> !self@.dom().contains(peer),
    {
        match self.find(peer) {
            Some(i) => Some(self.entries[i].key.duplicate()),
            None => None,
        }
    }

    /// Cache the session key for `peer`, overwriting any earlier one.
    pub fn put(&mut self, peer: u64, key: SymmetricKey, derived_at: u64)
        requires
            old(self).wf(),
            key.wf(),
        ensures
            final(self).wf(),
            final(self)@ == old(self)@.insert(peer, (SessionView { key: key@, derived_at })),
    {
        let ghost target = SessionView { key: key@, derived_at };
        let entry = SessionKey { peer, key, derived_at };
        match self.find(peer) {
            Some(i) => {
                self.entries.set(i, entry);
                proof {
                    assert forall|k: int|
                        0 <= k < self.entries@.len() implies self.entries@[k].peer == old(
                        self,
                    ).entries@[k].peer by {}
                    assert(self.wf());
                    assert forall|p: u64| #[trigger] self@.dom().contains(p) == old(
                        self,
                    )@.insert(peer, target).dom().contains(p) && (self@.dom().contains(p)
                        ==> self@[p] == old(self)@.insert(peer, target)[p]) by {
                        if p == peer {
                            self.lemma_entry_unique(peer, i as int);
                        } else {
                            assert forall|j: int|
                                0 <= j < self.entries@.len() && self.entries@[j].peer == p implies
                                old(self).entries@[j].peer == p by {}
                            if exists|j: int|
                                0 <= j < old(self).entries@.len() && old(self).entries@[j].peer
                                    == p {
                                let j = choose|j: int|
                                    0 <= j < old(self).entries@.len() && old(
                                        self,
                                    ).entries@[j].peer == p;
                                self.lemma_entry_unique(p, j);
                                old(self).lemma_entry_unique(p, j);
                            }
                        }
                    }
                    assert(self@ =~= old(self)@.insert(peer, target));
                }
            },
            None => {
                self.entries.push(entry);
                proof {
                    assert(forall|j: int|
                        0 <= j < old(self).entries@.len() ==> old(self).entries@[j].peer != peer);
                    assert(self.wf());
                    assert forall|p: u64| #[trigger] self@.dom().contains(p) == old(
                        self,
                    )@.insert(peer, target).dom().contains(p) && (self@.dom().contains(p)
                        ==> self@[p] == old(self)@.insert(peer, target)[p]) by {
                        if p == peer {
                            self.lemma_entry_unique(peer, old(self).entries@.len() as int);
                        } else {
                            if exists|j: int|
                                0 <= j < old(self).entries@.len() && old(self).entries@[j].peer
                                    == p {
                                let j = choose|j: int|
                                    0 <= j < old(self).entries@.len() && old(
                                        self,
                                    ).entries@[j].peer == p;
                                self.lemma_entry_unique(p, j);
                                old(self).lemma_entry_unique(p, j);
                            }
                        }
                    }
                    assert(self@ =~= old(self)@.insert(peer, target));
                }
            },
        }
    }

    /// Drop the session key for `peer`, if any: a peer that reconnects
    /// comes back under a new identity, so its old key must not linger.
    pub fn invalidate(&mut self, peer: u64)
        requires
            old(self).wf(),
        ensures
            final(self).wf(),
            final(self)@ == old(self)@.remove(peer),
    {
        match self.find(peer) {
            Some(i) => {
                self.entries.remove(i);
                proof {
                    assert forall|a: int, b: int|
                        0 <= a < b < self.entries@.len() implies self.entries@[a].peer
                        != self.entries@[b].peer by {
                        let a0 = if a < i as int { a } else { a + 1 };
                        let b0 = if b < i as int { b } else { b + 1 };
                        assert(self.entries@[a] == old(self).entries@[a0]);
                        assert(self.entries@[b] == old(self).entries@[b0]);
                    }
                    assert(self.wf());
                    assert forall|p: u64| #[trigger] self@.dom().contains(p) == old(
                        self,
                    )@.remove(peer).dom().contains(p) && (self@.dom().contains(p) ==> self@[p]
                        == old(self)@.remove(peer)[p]) by {
                        if p != peer {
                            if exists|j: int|
                                0 <= j < self.entries@.len() && self.entries@[j].peer == p {
                                let j = choose|j: int|
                                    0 <= j < self.entries@.len() && self.entries@[j].peer == p;
                                self.lemma_entry_unique(p, j);
                                if j < i as int {
                                    old(self).lemma_entry_unique(p, j);
                                } else {
                                    old(self).lemma_entry_unique(p, j + 1);
                                }
                            }
                            if exists|j: int|
                                0 <= j < old(self).entries@.len() && old(self).entries@[j].peer
                                    == p {
                                let j = choose|j: int|
                                    0 <= j < old(self).entries@.len() && old(
                                        self,
                                    ).entries@[j].peer == p;
                                old(self).lemma_entry_unique(p, j);
                                if j < i as int {
                                    self.lemma_entry_unique(p, j);
                                } else {
                                    self.lemma_entry_unique(p, j - 1);
                                }
                            }
                        }
                    }
                    assert(self@ =~= old(self)@.remove(peer));
                }
            },
            None => {
                proof {
                    assert(self@ =~= old(self)@.remove(peer));
                }
            },
        }
    }
}

} // verus!
