//! What holds of the registry in every state that the server can reach, and
//! of the server's answers, stated over the models that the contracts use.

use crate::packets::{
    classify, lemma_classify_own_packets, lemma_ping_response_round_trip, ping_datagram, Datagram,
    PacketHeader, PingPacket, PingResponsePacket, ClaimThreadPacket, PING_RESPONSE_PACKET_ID,
};
use crate::registry::{
    claim_step, claimable, cleanup_step, lemma_first_claimable, lemma_first_claimable_is_first,
    Registry,
};
use crate::select::Selector;
use crate::session::{PeerAddr, Session};
use vstd::prelude::*;

verus! {

/// A session that was ever accepted is in exactly one of three places: among
/// the unclaimed sessions, among the claimed sessions, or gone. An id that
/// was never given out is in none of them.
pub proof fn lemma_session_is_in_one_place(r: Registry, id: u64)
    requires
        r.wf(),
    ensures
        id < r.sessions_created ==> {
            ||| r.is_unclaimed(id) && !r.is_claimed(id) && !r.is_destroyed(id)
            ||| !r.is_unclaimed(id) && r.is_claimed(id) && !r.is_destroyed(id)
            ||| !r.is_unclaimed(id) && !r.is_claimed(id) && r.is_destroyed(id)
        },
        id >= r.sessions_created ==> !r.is_unclaimed(id) && !r.is_claimed(id) && !r.is_destroyed(
            id,
        ),
{
    if r.is_unclaimed(id) && r.is_claimed(id) {
        let i = choose|i: int| 0 <= i < r.unclaimed.len() && #[trigger] r.unclaimed[i].id == id;
        let k = choose|k: u64| r.claimed.contains_key(k) && #[trigger] r.claimed[k].id == id;
        assert(r.unclaimed[i].id != r.claimed[k].id);
    }
    if id >= r.sessions_created {
        if r.is_unclaimed(id) {
            let i = choose|i: int| 0 <= i < r.unclaimed.len() && #[trigger] r.unclaimed[i].id == id;
            assert(r.unclaimed[i].id < r.sessions_created);
        }
        if r.is_claimed(id) {
            let k = choose|k: u64| r.claimed.contains_key(k) && #[trigger] r.claimed[k].id == id;
            assert(r.claimed[k].id < r.sessions_created);
        }
    }
}

/// Every session in the table of claimed sessions has its claimed flag set
/// and is the session that the table holds under its own datagram peer.
pub proof fn lemma_claimed_session_is_filed_under_its_peer(r: Registry, key: u64)
    requires
        r.wf(),
        r.claimed.contains_key(key),
    ensures
        r.claimed[key].claimed,
        r.claimed.contains_key(r.claimed[key].udp_peer.spec_key()),
        r.claimed[r.claimed[key].udp_peer.spec_key()] == r.claimed[key],
{
}

/// The claimed flag of a session is set exactly where the session is in the
/// table of claimed sessions: no unclaimed session has it set.
pub proof fn lemma_unclaimed_session_is_not_flagged(r: Registry, i: int)
    requires
        r.wf(),
        0 <= i < r.unclaimed.len(),
    ensures
        !r.unclaimed[i].claimed,
        !r.is_claimed(r.unclaimed[i].id),
{
    if r.is_claimed(r.unclaimed[i].id) {
        let k = choose|k: u64|
            r.claimed.contains_key(k) && #[trigger] r.claimed[k].id == r.unclaimed[i].id;
        assert(r.unclaimed[i].id != r.claimed[k].id);
    }
}

/// A session whose player has authenticated is a claimed session: every
/// unclaimed session has account id zero.
pub proof fn lemma_authenticated_session_is_claimed(r: Registry, i: int)
    requires
        r.wf(),
        0 <= i < r.unclaimed.len(),
    ensures
        r.unclaimed[i].account_id == 0,
{
}

/// The player count is the number of claimed sessions whose player has
/// authenticated.
pub proof fn lemma_player_count_counts_authenticated(r: Registry)
    requires
        r.wf(),
    ensures
        r.player_count == r.claimed.dom().filter(|k: u64| r.claimed[k].account_id != 0).len(),
        r.player_count <= r.claimed.dom().len(),
{
    crate::registry::lemma_authenticated_keys_bound(r.claimed);
}

/// A claim with a secret that no unclaimed session has changes nothing: not
/// one session, not the tables, not the player count.
pub proof fn lemma_failed_claim_changes_nothing(
    before: Registry,
    after: Registry,
    addr: PeerAddr,
    secret: u32,
    claimed: bool,
    displaced: Option<Session>,
)
    requires
        claim_step(before, after, addr, secret, claimed, displaced),
        forall|i: int| 0 <= i < before.unclaimed.len() ==> !claimable(
            #[trigger] before.unclaimed[i],
            secret,
        ),
    ensures
        !claimed,
        displaced is None,
        after == before,
{
    lemma_first_claimable(before.unclaimed, secret, before.unclaimed.len() as int);
}

/// A claim that succeeds leaves the claimed session, bound to the peer, in
/// the table under the peer, and nowhere among the unclaimed sessions if the
/// registry was well formed.
pub proof fn lemma_claim_moves_the_session(
    before: Registry,
    after: Registry,
    addr: PeerAddr,
    secret: u32,
    displaced: Option<Session>,
)
    requires
        before.wf(),
        after.wf(),
        claim_step(before, after, addr, secret, true, displaced),
    ensures
        after.claimed.contains_key(addr.spec_key()),
        after.claimed[addr.spec_key()].claim_secret_key == secret,
        after.claimed[addr.spec_key()].udp_peer == addr,
        after.is_claimed(after.claimed[addr.spec_key()].id),
        !after.is_unclaimed(after.claimed[addr.spec_key()].id),
        after.unclaimed.len() + 1 == before.unclaimed.len(),
{
    lemma_first_claimable_is_first(before.unclaimed, secret);
    let s = after.claimed[addr.spec_key()];
    assert(after.is_claimed(s.id));
    lemma_session_is_in_one_place(after, s.id);
}

/// A session that is claimed does not go back among the unclaimed sessions,
/// neither by a claim nor by the end of a session.
pub proof fn lemma_claimed_session_stays_claimed(
    before: Registry,
    after: Registry,
    id: u64,
    addr: PeerAddr,
    secret: u32,
    claimed: bool,
    displaced: Option<Session>,
    ended: u64,
    removed: Option<Session>,
)
    requires
        before.wf(),
        before.is_claimed(id),
        claim_step(before, after, addr, secret, claimed, displaced) || cleanup_step(
            before,
            after,
            ended,
            removed,
        ),
    ensures
        !after.is_unclaimed(id),
{
    lemma_session_is_in_one_place(before, id);
    lemma_first_claimable_is_first(before.unclaimed, secret);
    if after.is_unclaimed(id) {
        let i = choose|i: int| 0 <= i < after.unclaimed.len() && #[trigger] after.unclaimed[i].id == id;
        if claim_step(before, after, addr, secret, claimed, displaced) {
            let idx = crate::registry::first_claimable(before.unclaimed, secret);
            if idx < before.unclaimed.len() {
                let bi = if i < idx { i } else { i + 1 };
                assert(after.unclaimed[i] == before.unclaimed[bi]);
                assert(before.unclaimed[bi].id == id);
            }
            assert(before.is_unclaimed(id));
        } else {
            if before.is_unclaimed(ended) {
                let at = choose|at: int|
                    {
                        &&& 0 <= at < before.unclaimed.len()
                        &&& (#[trigger] before.unclaimed[at]).id == ended
                        &&& removed == Some(before.unclaimed[at])
                        &&& after.unclaimed == before.unclaimed.remove(at)
                        &&& after.claimed == before.claimed
                        &&& after.player_count == before.player_count
                    };
                let bi = if i < at { i } else { i + 1 };
                assert(after.unclaimed[i] == before.unclaimed[bi]);
                assert(before.unclaimed[bi].id == id);
            } else if before.is_claimed(ended) {
                assert(before.unclaimed[i].id == id);
            } else {
                assert(before.unclaimed[i].id == id);
            }
            assert(before.is_unclaimed(id));
        }
    }
}

/// The id that the next accepted session gets names no session that is or
/// was in the registry: accepting a stream never touches an older session.
pub proof fn lemma_next_id_is_fresh(r: Registry)
    requires
        r.wf(),
    ensures
        !r.is_unclaimed(r.sessions_created),
        !r.is_claimed(r.sessions_created),
        !r.is_destroyed(r.sessions_created),
{
    lemma_session_is_in_one_place(r, r.sessions_created);
}

/// A message to a room or to a level never goes to a session of the account
/// that it comes from.
pub proof fn lemma_origin_is_never_a_receiver(
    s: Session,
    origin_id: i32,
    room_id: u32,
    players: &[i32],
)
    requires
        s.account_id == origin_id,
    ensures
        !(Selector::RoomMessage { origin_id, room_id }).admits(s),
        !(Selector::LevelMessage { origin_id, players }).admits(s),
{
}

/// In the global room, which is room 0, the list of visible players leaves
/// the invisible players out. In every other room it is the list of the
/// room's players.
pub proof fn lemma_visibility_counts_in_the_global_room_only(s: Session, room_id: u32)
    ensures
        s.is_invisible ==> !Selector::VisibleInRoom(0).admits(s),
        !s.is_invisible ==> Selector::VisibleInRoom(0).admits(s) == Selector::InRoom(0).admits(s),
        room_id != 0 ==> Selector::VisibleInRoom(room_id).admits(s) == Selector::InRoom(
            room_id,
        ).admits(s),
{
}

/// The answer to a liveness probe carries the id of that probe, whatever came
/// before it: of two probes with the ids `first` and `second`, the first is
/// answered with `first` and the second with `second`. Each answer carries
/// the player count of the moment.
pub proof fn lemma_probes_are_answered_by_id(first: u32, second: u32, count: u32)
    ensures
        classify(ping_datagram(PingPacket { id: first })) == Datagram::Ping(
            PingPacket { id: first },
        ),
        classify(ping_datagram(PingPacket { id: second })) == Datagram::Ping(
            PingPacket { id: second },
        ),
        PingResponsePacket::decoding(
            (PingResponsePacket { id: first, player_count: count }).datagram().skip(3),
        ) == Some(PingResponsePacket { id: first, player_count: count }),
        PingResponsePacket::decoding(
            (PingResponsePacket { id: second, player_count: count }).datagram().skip(3),
        ) == Some(PingResponsePacket { id: second, player_count: count }),
        PacketHeader::decoding(
            (PingResponsePacket { id: first, player_count: count }).datagram(),
        ) == Some(PacketHeader { packet_id: PING_RESPONSE_PACKET_ID, encrypted: false }),
{
    let claim = ClaimThreadPacket { secret_key: 0 };
    lemma_classify_own_packets(PingPacket { id: first }, claim);
    lemma_classify_own_packets(PingPacket { id: second }, claim);
    lemma_ping_response_round_trip(PingResponsePacket { id: first, player_count: count });
    lemma_ping_response_round_trip(PingResponsePacket { id: second, player_count: count });
}

} // verus!
