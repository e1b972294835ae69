//! The mathematical model of the session registry, and what holds of every
//! registry that the server can reach.

use crate::session::{PeerAddr, Session};
use vstd::prelude::*;

verus! {

/// The registry as contracts see it.
pub struct Registry {
    /// Sessions whose stream was accepted and that no datagram peer has
    /// claimed yet, oldest first.
    pub unclaimed: Seq<Session>,
    /// Claimed sessions, each under the number of its datagram peer.
    pub claimed: Map<u64, Session>,
    /// How many players the server reports.
    pub player_count: u32,
    /// How many sessions were ever accepted. The next session gets this
    /// number as its id.
    pub sessions_created: u64,
    /// Whether the server runs without a central directory.
    pub standalone: bool,
}

/// A session that a claim with `secret` may take.
pub open spec fn claimable(s: Session, secret: u32) -> bool {
    s.claim_secret_key == secret && !s.claimed
}

/// The position of the oldest session in `unclaimed` that a claim with
/// `secret` may take; the length of `unclaimed` where there is none.
pub open spec fn first_claimable(unclaimed: Seq<Session>, secret: u32) -> int
    decreases unclaimed.len(),
{
    if unclaimed.len() == 0 {
        0
    } else if claimable(unclaimed[0], secret) {
        0
    } else {
        1 + first_claimable(unclaimed.skip(1), secret)
    }
}

/// The session as it is once the datagram peer `addr` has claimed it.
pub open spec fn bound_to(s: Session, addr: PeerAddr) -> Session {
    Session { claimed: true, udp_peer: addr, ..s }
}

/// The keys of the claimed sessions whose player has authenticated.
pub open spec fn authenticated_keys(claimed: Map<u64, Session>) -> Set<u64> {
    claimed.dom().filter(|k: u64| claimed[k].account_id != 0)
}

impl Registry {
    /// The session with this id waits to be claimed.
    pub open spec fn is_unclaimed(self, id: u64) -> bool {
        exists|i: int| 0 <= i < self.unclaimed.len() && #[trigger] self.unclaimed[i].id == id
    }

    /// The session with this id is claimed.
    pub open spec fn is_claimed(self, id: u64) -> bool {
        exists|k: u64| self.claimed.contains_key(k) && #[trigger] self.claimed[k].id == id
    }

    /// The session with this id was accepted once and is in the registry no
    /// more.
    pub open spec fn is_destroyed(self, id: u64) -> bool {
        id < self.sessions_created && !self.is_unclaimed(id) && !self.is_claimed(id)
    }

    /// What holds of every registry that the server can reach.
    pub open spec fn wf(self) -> bool {
        &&& self.claimed.dom().finite()
        &&& forall|i: int|
            0 <= i < self.unclaimed.len() ==> {
                let s = #[trigger] self.unclaimed[i];
                &&& !s.claimed
                &&& s.account_id == 0
                &&& s.account_data.account_id == 0
                &&& s.id < self.sessions_created
            }
        &&& forall|i: int, j: int|
            0 <= i < j < self.unclaimed.len() ==> (#[trigger] self.unclaimed[i]).id != (
            #[trigger] self.unclaimed[j]).id
        &&& forall|k: u64| #[trigger]
            self.claimed.contains_key(k) ==> {
                let s = self.claimed[k];
                &&& s.claimed
                &&& s.udp_peer.spec_key() == k
                &&& s.id < self.sessions_created
                &&& s.account_data.account_id == s.account_id
            }
        &&& forall|k1: u64, k2: u64|
            #![trigger self.claimed[k1], self.claimed[k2]]
            self.claimed.contains_key(k1) && self.claimed.contains_key(k2) && k1 != k2
                ==> self.claimed[k1].id != self.claimed[k2].id
        &&& forall|i: int, k: u64|
            #![trigger self.unclaimed[i], self.claimed[k]]
            0 <= i < self.unclaimed.len() && self.claimed.contains_key(k) ==> self.unclaimed[i].id
                != self.claimed[k].id
        &&& self.player_count == authenticated_keys(self.claimed).len()
    }
}

/// What a claim does: `before` and `after` are the registry before and after
/// the datagram peer `addr` presents `secret`; `claimed` tells whether a
/// session was bound, and `displaced` is the session that was filed under the
/// peer until then.
///
/// The oldest claimable session leaves the unclaimed sessions and is filed
/// under the peer, bound to it. A session that was filed there before leaves
/// the registry, and its player is counted no more. Where no session is
/// claimable, nothing changes.
pub open spec fn claim_step(
    before: Registry,
    after: Registry,
    addr: PeerAddr,
    secret: u32,
    claimed: bool,
    displaced: Option<Session>,
) -> bool {
    let idx = first_claimable(before.unclaimed, secret);
    let key = addr.spec_key();
    if idx < before.unclaimed.len() {
        &&& claimed
        &&& after.unclaimed == before.unclaimed.remove(idx)
        &&& after.claimed == before.claimed.insert(key, bound_to(before.unclaimed[idx], addr))
        &&& displaced == (if before.claimed.contains_key(key) {
            Some(before.claimed[key])
        } else {
            None
        })
        &&& after.player_count == before.player_count - (if before.claimed.contains_key(key)
            && before.claimed[key].account_id != 0 {
            1int
        } else {
            0int
        })
        &&& after.sessions_created == before.sessions_created
        &&& after.standalone == before.standalone
    } else {
        &&& !claimed
        &&& displaced is None
        &&& after == before
    }
}

/// What the end of a session does to the registry: the session with this id
/// leaves the place it is in, and where its player had authenticated, the
/// player is counted no more. `removed` is the session that left, if the
/// registry held one with this id.
pub open spec fn cleanup_step(
    before: Registry,
    after: Registry,
    id: u64,
    removed: Option<Session>,
) -> bool {
    &&& after.sessions_created == before.sessions_created
    &&& after.standalone == before.standalone
    &&& if before.is_unclaimed(id) {
        exists|i: int|
            {
                &&& 0 <= i < before.unclaimed.len()
                &&& (#[trigger] before.unclaimed[i]).id == id
                &&& removed == Some(before.unclaimed[i])
                &&& after.unclaimed == before.unclaimed.remove(i)
                &&& after.claimed == before.claimed
                &&& after.player_count == before.player_count
            }
    } else if before.is_claimed(id) {
        exists|k: u64|
            {
                &&& before.claimed.contains_key(k)
                &&& (#[trigger] before.claimed[k]).id == id
                &&& removed == Some(before.claimed[k])
                &&& after.unclaimed == before.unclaimed
                &&& after.claimed == before.claimed.remove(k)
                &&& after.player_count == before.player_count - (if before.claimed[k].account_id
                    != 0 {
                    1int
                } else {
                    0int
                })
            }
    } else {
        removed is None && after == before
    }
}

/// Putting another state of the same session in the place of a claimed
/// session keeps the registry well formed, as long as the player count
/// follows the change of the account id.
pub proof fn lemma_replace_claimed(before: Registry, after: Registry, key: u64, s: Session)
    requires
        before.wf(),
        before.claimed.contains_key(key),
        s.id == before.claimed[key].id,
        s.claimed,
        s.udp_peer.spec_key() == key,
        s.account_data.account_id == s.account_id,
        after.unclaimed == before.unclaimed,
        after.claimed == before.claimed.insert(key, s),
        after.sessions_created == before.sessions_created,
        after.player_count == before.player_count + (if s.account_id != 0 {
            1int
        } else {
            0int
        }) - (if before.claimed[key].account_id != 0 {
            1int
        } else {
            0int
        }),
    ensures
        after.wf(),
{
    lemma_authenticated_keys_insert(before.claimed, key, s);
    lemma_authenticated_keys_bound(before.claimed);
    assert forall|k1: u64, k2: u64|
        #![trigger after.claimed[k1], after.claimed[k2]]
        after.claimed.contains_key(k1) && after.claimed.contains_key(k2) && k1
            != k2 implies after.claimed[k1].id != after.claimed[k2].id by {
        if k1 != key {
            assert(after.claimed[k1] == before.claimed[k1]);
        }
        if k2 != key {
            assert(after.claimed[k2] == before.claimed[k2]);
        }
        assert(before.claimed[k1].id != before.claimed[k2].id);
    }
    assert forall|i: int, k: u64|
        #![trigger after.unclaimed[i], after.claimed[k]]
        0 <= i < after.unclaimed.len() && after.claimed.contains_key(k) implies after.unclaimed[i].id
        != after.claimed[k].id by {
        assert(before.unclaimed[i].id != before.claimed[k].id);
    }
}

/// Taking a claimed session out keeps the registry well formed, as long as
/// the player count follows.
pub proof fn lemma_remove_claimed(before: Registry, after: Registry, key: u64)
    requires
        before.wf(),
        before.claimed.contains_key(key),
        after.unclaimed == before.unclaimed,
        after.claimed == before.claimed.remove(key),
        after.sessions_created == before.sessions_created,
        after.player_count == before.player_count - (if before.claimed[key].account_id != 0 {
            1int
        } else {
            0int
        }),
    ensures
        after.wf(),
{
    lemma_authenticated_keys_remove(before.claimed, key);
    lemma_authenticated_keys_bound(before.claimed);
    assert forall|k1: u64, k2: u64|
        #![trigger after.claimed[k1], after.claimed[k2]]
        after.claimed.contains_key(k1) && after.claimed.contains_key(k2) && k1
            != k2 implies after.claimed[k1].id != after.claimed[k2].id by {
        assert(before.claimed[k1].id != before.claimed[k2].id);
    }
    assert forall|i: int, k: u64|
        #![trigger after.unclaimed[i], after.claimed[k]]
        0 <= i < after.unclaimed.len() && after.claimed.contains_key(k) implies after.unclaimed[i].id
        != after.claimed[k].id by {
        assert(before.unclaimed[i].id != before.claimed[k].id);
    }
}

/// Taking an unclaimed session out keeps the registry well formed.
pub proof fn lemma_remove_unclaimed(before: Registry, after: Registry, idx: int)
    requires
        before.wf(),
        0 <= idx < before.unclaimed.len(),
        after.unclaimed == before.unclaimed.remove(idx),
        after.claimed == before.claimed,
        after.sessions_created == before.sessions_created,
        after.player_count == before.player_count,
    ensures
        after.wf(),
        forall|i: int|
            0 <= i < after.unclaimed.len() ==> (#[trigger] after.unclaimed[i]).id
                != before.unclaimed[idx].id,
{
    assert forall|i: int| 0 <= i < after.unclaimed.len() implies {
        let s = #[trigger] after.unclaimed[i];
        &&& !s.claimed
        &&& s.account_id == 0
        &&& s.account_data.account_id == 0
        &&& s.id < after.sessions_created
        &&& s.id != before.unclaimed[idx].id
    } by {
        if i < idx {
            assert(after.unclaimed[i] == before.unclaimed[i]);
        } else {
            assert(after.unclaimed[i] == before.unclaimed[i + 1]);
        }
    }
    assert forall|i: int, j: int| 0 <= i < j < after.unclaimed.len() implies (
    #[trigger] after.unclaimed[i]).id != (#[trigger] after.unclaimed[j]).id by {
        let bi = if i < idx { i } else { i + 1 };
        let bj = if j < idx { j } else { j + 1 };
        assert(after.unclaimed[i] == before.unclaimed[bi]);
        assert(after.unclaimed[j] == before.unclaimed[bj]);
    }
    assert forall|i: int, k: u64|
        #![trigger after.unclaimed[i], after.claimed[k]]
        0 <= i < after.unclaimed.len() && after.claimed.contains_key(k) implies after.unclaimed[i].id
        != after.claimed[k].id by {
        let bi = if i < idx { i } else { i + 1 };
        assert(after.unclaimed[i] == before.unclaimed[bi]);
        assert(before.unclaimed[bi].id != before.claimed[k].id);
    }
}

/// Where `idx` is the first position that holds a claimable session, or the
/// length where no position does, `first_claimable` gives `idx`.
pub proof fn lemma_first_claimable(unclaimed: Seq<Session>, secret: u32, idx: int)
    requires
        0 <= idx <= unclaimed.len(),
        forall|j: int| 0 <= j < idx ==> !claimable(#[trigger] unclaimed[j], secret),
        idx < unclaimed.len() ==> claimable(unclaimed[idx], secret),
    ensures
        first_claimable(unclaimed, secret) == idx,
    decreases unclaimed.len(),
{
    if unclaimed.len() == 0 {
    } else if idx == 0 {
    } else {
        assert(!claimable(unclaimed[0], secret));
        let rest = unclaimed.skip(1);
        assert forall|j: int| 0 <= j < idx - 1 implies !claimable(#[trigger] rest[j], secret) by {
            assert(rest[j] == unclaimed[j + 1]);
        }
        lemma_first_claimable(rest, secret, idx - 1);
    }
}

/// `first_claimable` is a position of the sequence or its length; the
/// sessions before it are not claimable, and the session at it is.
pub proof fn lemma_first_claimable_is_first(unclaimed: Seq<Session>, secret: u32)
    ensures
        0 <= first_claimable(unclaimed, secret) <= unclaimed.len(),
        forall|j: int|
            0 <= j < first_claimable(unclaimed, secret) ==> !claimable(
                #[trigger] unclaimed[j],
                secret,
            ),
        first_claimable(unclaimed, secret) < unclaimed.len() ==> claimable(
            unclaimed[first_claimable(unclaimed, secret)],
            secret,
        ),
    decreases unclaimed.len(),
{
    if unclaimed.len() == 0 {
    } else if claimable(unclaimed[0], secret) {
    } else {
        let rest = unclaimed.skip(1);
        lemma_first_claimable_is_first(rest, secret);
        let f = first_claimable(rest, secret);
        assert forall|j: int| 0 <= j < f + 1 implies !claimable(#[trigger] unclaimed[j], secret) by {
            if j > 0 {
                assert(rest[j - 1] == unclaimed[j]);
            }
        }
        if f < rest.len() {
            assert(rest[f] == unclaimed[f + 1]);
        }
    }
}

/// Filing a session under a key adds the key to the authenticated keys where
/// its player has authenticated, and takes it away where not.
pub proof fn lemma_authenticated_keys_insert(claimed: Map<u64, Session>, key: u64, s: Session)
    ensures
        authenticated_keys(claimed.insert(key, s)) == (if s.account_id != 0 {
            authenticated_keys(claimed).insert(key)
        } else {
            authenticated_keys(claimed).remove(key)
        }),
{
    assert(authenticated_keys(claimed.insert(key, s)) =~= (if s.account_id != 0 {
        authenticated_keys(claimed).insert(key)
    } else {
        authenticated_keys(claimed).remove(key)
    }));
}

/// Taking a key out of the table takes it out of the authenticated keys.
pub proof fn lemma_authenticated_keys_remove(claimed: Map<u64, Session>, key: u64)
    ensures
        authenticated_keys(claimed.remove(key)) == authenticated_keys(claimed).remove(key),
{
    assert(authenticated_keys(claimed.remove(key)) =~= authenticated_keys(claimed).remove(key));
}

/// The authenticated keys of a finite table are finitely many, and no more
/// than the table has entries.
pub proof fn lemma_authenticated_keys_bound(claimed: Map<u64, Session>)
    requires
        claimed.dom().finite(),
    ensures
        authenticated_keys(claimed).finite(),
        authenticated_keys(claimed).len() <= claimed.dom().len(),
{
    claimed.dom().lemma_len_filter(|k: u64| claimed[k].account_id != 0);
}

} // verus!
