//! The game server's registry of sessions and the operations on it.

use crate::bytebuffer::DecodeError;
use crate::data::{LevelId, PlayerAccountData, UserEntry};
use crate::error::ServerError;
use crate::message::{ServerThreadMessage, INLINE_BUFFER_SIZE};
use crate::packets::{classify, parse_datagram, Datagram, PingResponsePacket};
use crate::registry::{
    authenticated_keys, bound_to, claim_step, claimable, cleanup_step, first_claimable,
    lemma_authenticated_keys_bound, lemma_authenticated_keys_insert,
    lemma_authenticated_keys_remove, lemma_first_claimable, lemma_remove_claimed,
    lemma_remove_unclaimed, lemma_replace_claimed, Registry,
};
use crate::session::{is_fresh_session, PeerAddr, Session, SocketPeer};
use crate::table::{table_get, table_insert, table_keys, table_len, table_new, table_remove};
use rustc_hash::FxHashMap;
use std::collections::VecDeque;
use vstd::prelude::*;

verus! {

/// What is to be done about a datagram.
#[derive(Debug)]
pub enum DatagramAction {
    /// Send these bytes back to the sender.
    Reply(Vec<u8>),
    /// The sender has claimed a session. Holds the session that was filed
    /// under the sender until now, if any: it has left the registry.
    Claimed(Option<Session>),
    /// The sender presented a secret that no unclaimed session has. This is
    /// worth a warning.
    ClaimMissed,
    /// Put the message into the queue of the session that the sender has
    /// claimed.
    Route(ServerThreadMessage),
    /// The sender has claimed no session: the datagram is dropped silently.
    Drop,
}

/// How the end of a session is to be reconciled outside the registry.
#[derive(Clone, Copy, PartialEq, Eq, Structural, Debug)]
pub enum Cleanup {
    /// The registry held no such session (any more): nothing is to be done.
    NotRegistered,
    /// The session has left the registry, and its player had not
    /// authenticated: nothing more is to be done.
    Unauthenticated,
    /// The session has left the registry and its player is counted no more.
    /// The room manager is to take the account out of this room and level.
    Player { account_id: i32, room_id: u32, level_id: LevelId },
}

/// What the end of the session `removed` asks for outside the registry.
pub open spec fn cleanup_of(removed: Option<Session>) -> Cleanup {
    match removed {
        None => Cleanup::NotRegistered,
        Some(s) => if s.account_id == 0 {
            Cleanup::Unauthenticated
        } else {
            Cleanup::Player { account_id: s.account_id, room_id: s.room_id, level_id: s.level_id }
        },
    }
}

/// The registry of sessions, with the count of players.
pub struct GameServer {
    unclaimed_threads: VecDeque<Session>,
    threads: FxHashMap<u64, Session>,
    player_count: u32,
    sessions_created: u64,
    standalone: bool,
}

impl View for GameServer {
    type V = Registry;

    closed spec fn view(&self) -> Registry {
        Registry {
            unclaimed: self.unclaimed_threads@,
            claimed: self.threads@,
            player_count: self.player_count,
            sessions_created: self.sessions_created,
            standalone: self.standalone,
        }
    }
}

impl GameServer {
    /// The registry is one that the server can reach.
    pub open spec fn wf(&self) -> bool {
        self@.wf()
    }

    /// A server with no session.
    pub fn new(standalone: bool) -> (server: Self)
        ensures
            server.wf(),
            server@.unclaimed == Seq::<Session>::empty(),
            server@.claimed == Map::<u64, Session>::empty(),
            server@.player_count == 0,
            server@.sessions_created == 0,
            server@.standalone == standalone,
    {
        let server = GameServer {
            unclaimed_threads: VecDeque::new(),
            threads: table_new(),
            player_count: 0,
            sessions_created: 0,
            standalone,
        };
        proof {
            assert(authenticated_keys(server@.claimed) =~= Set::empty());
        }
        server
    }

    /// Takes a stream connection in: makes a session with the given claim
    /// secret, puts it behind the other unclaimed sessions and returns its
    /// id. A peer that is not an IPv4 peer is turned away, and nothing
    /// changes.
    pub fn accept_connection(&mut self, peer: SocketPeer, claim_secret_key: u32) -> (r: Result<
        u64,
        ServerError,
    >)
        requires
            old(self).wf(),
        ensures
            final(self).wf(),
            match r {
                Ok(id) => {
                    &&& peer matches SocketPeer::V4(addr)
                    &&& id == old(self)@.sessions_created
                    &&& final(self)@.unclaimed.len() == old(self)@.unclaimed.len() + 1
                    &&& final(self)@.unclaimed.drop_last() == old(self)@.unclaimed
                    &&& is_fresh_session(final(self)@.unclaimed.last(), id, addr, claim_secret_key)
                    &&& final(self)@.claimed == old(self)@.claimed
                    &&& final(self)@.player_count == old(self)@.player_count
                    &&& final(self)@.sessions_created == id + 1
                    &&& final(self)@.standalone == old(self)@.standalone
                },
                Err(e) => {
                    &&& final(self)@ == old(self)@
                    &&& e == ServerError::UnsupportedFamily <==> peer is V6
                    &&& e == ServerError::SessionIdsExhausted <==> peer is V4
                    &&& peer is V4 ==> old(self)@.sessions_created == u64::MAX
                },
            },
            peer is V4 && old(self)@.sessions_created < u64::MAX ==> r is Ok,
    {
        let addr = match peer {
            SocketPeer::V4(addr) => addr,
            SocketPeer::V6 => {
                return Err(ServerError::UnsupportedFamily);
            },
        };
        if self.sessions_created == u64::MAX {
            return Err(ServerError::SessionIdsExhausted);
        }
        let id = self.sessions_created;
        let thread = Session::new(id, addr, claim_secret_key);
        self.unclaimed_threads.push_back(thread);
        self.sessions_created = id + 1;
        proof {
            let before = old(self)@;
            let after = self@;
            assert(after.unclaimed.drop_last() =~= before.unclaimed);
            assert forall|i: int, j: int| 0 <= i < j < after.unclaimed.len() implies (
            #[trigger] after.unclaimed[i]).id != (#[trigger] after.unclaimed[j]).id by {
                if j < before.unclaimed.len() {
                    assert(after.unclaimed[i] == before.unclaimed[i]);
                    assert(after.unclaimed[j] == before.unclaimed[j]);
                } else {
                    assert(after.unclaimed[i] == before.unclaimed[i]);
                }
            }
            assert forall|i: int| 0 <= i < after.unclaimed.len() implies {
                let s = #[trigger] after.unclaimed[i];
                &&& !s.claimed
                &&& s.account_id == 0
                &&& s.account_data.account_id == 0
                &&& s.id < after.sessions_created
            } by {
                if i < before.unclaimed.len() {
                    assert(after.unclaimed[i] == before.unclaimed[i]);
                }
            }
            assert forall|i: int, k: u64|
                #![trigger after.unclaimed[i], after.claimed[k]]
                0 <= i < after.unclaimed.len() && after.claimed.contains_key(k) implies after.unclaimed[i].id
                != after.claimed[k].id by {
                if i < before.unclaimed.len() {
                    assert(after.unclaimed[i] == before.unclaimed[i]);
                }
            }
        }
        Ok(id)
    }

    /// Binds the datagram peer `udp_addr` to the oldest unclaimed session
    /// that was given `secret_key`. The first part of the result tells
    /// whether there was one. The second part is the session that was filed
    /// under the peer until now, if any: it has left the registry, and whoever
    /// serves its stream is to end it.
    pub fn claim_thread(&mut self, udp_addr: PeerAddr, secret_key: u32) -> (r: (bool, Option<Session>))
        requires
            old(self).wf(),
        ensures
            final(self).wf(),
            claim_step(old(self)@, final(self)@, udp_addr, secret_key, r.0, r.1),
            r.0 <==> exists|i: int|
                0 <= i < old(self)@.unclaimed.len() && claimable(
                    #[trigger] old(self)@.unclaimed[i],
                    secret_key,
                ),
            !r.0 ==> final(self)@ == old(self)@,
    {
        let n = self.unclaimed_threads.len();
        let mut idx: usize = 0;
        let mut found = false;
        while idx < n && !found
            invariant
                *self == *old(self),
                n == self.unclaimed_threads@.len(),
                idx <= n,
                forall|j: int|
                    0 <= j < idx ==> !claimable(#[trigger] self.unclaimed_threads@[j], secret_key),
                found ==> idx < n && claimable(self.unclaimed_threads@[idx as int], secret_key),
            decreases n - idx + (if found { 0int } else { 1int }),
        {
            let thread = &self.unclaimed_threads[idx];
            if thread.claim_secret_key == secret_key && !thread.claimed {
                found = true;
            } else {
                idx += 1;
            }
        }
        proof {
            lemma_first_claimable(self@.unclaimed, secret_key, idx as int);
        }
        if idx >= n {
            return (false, None);
        }
        let ghost before = self@;
        let key = udp_addr.key();
        match self.unclaimed_threads.remove(idx) {
            Some(mut thread) => {
                thread.udp_peer = udp_addr;
                thread.claimed = true;
                assert(thread == bound_to(before.unclaimed[idx as int], udp_addr));
                let displaced = table_insert(&mut self.threads, key, thread);
                proof {
                    lemma_authenticated_keys_insert(before.claimed, key, thread);
                    lemma_authenticated_keys_bound(before.claimed);
                }
                match &displaced {
                    Some(gone) => {
                        if gone.account_id != 0 {
                            assert(authenticated_keys(before.claimed).contains(key));
                            self.player_count = self.player_count - 1;
                        }
                    },
                    None => {},
                }
                proof {
                    let after = self@;
                    assert(before.unclaimed[idx as int].id == thread.id);
                    assert forall|i: int| 0 <= i < after.unclaimed.len() implies {
                        let s = #[trigger] after.unclaimed[i];
                        &&& !s.claimed
                        &&& s.account_id == 0
                        &&& s.account_data.account_id == 0
                        &&& s.id < after.sessions_created
                        &&& s.id != thread.id
                    } by {
                        if i < idx {
                            assert(after.unclaimed[i] == before.unclaimed[i]);
                        } else {
                            assert(after.unclaimed[i] == before.unclaimed[i + 1]);
                        }
                    }
                    assert forall|i: int, j: int| 0 <= i < j < after.unclaimed.len() implies (
                    #[trigger] after.unclaimed[i]).id != (#[trigger] after.unclaimed[j]).id by {
                        let bi = if i < idx { i } else { i + 1 };
                        let bj = if j < idx { j } else { j + 1 };
                        assert(after.unclaimed[i] == before.unclaimed[bi]);
                        assert(after.unclaimed[j] == before.unclaimed[bj]);
                    }
                    assert forall|i: int, k: u64|
                        #![trigger after.unclaimed[i], after.claimed[k]]
                        0 <= i < after.unclaimed.len() && after.claimed.contains_key(k) implies after.unclaimed[i].id
                        != after.claimed[k].id by {
                        let bi = if i < idx { i } else { i + 1 };
                        assert(after.unclaimed[i] == before.unclaimed[bi]);
                        if k != key {
                            assert(after.claimed[k] == before.claimed[k]);
                        }
                    }
                    assert forall|k1: u64, k2: u64|
                        #![trigger after.claimed[k1], after.claimed[k2]]
                        after.claimed.contains_key(k1) && after.claimed.contains_key(k2) && k1
                            != k2 implies after.claimed[k1].id != after.claimed[k2].id by {
                        if k1 != key {
                            assert(after.claimed[k1] == before.claimed[k1]);
                        }
                        if k2 != key {
                            assert(after.claimed[k2] == before.claimed[k2]);
                        }
                    }
                }
                (true, displaced)
            },
            None => (false, None),
        }
    }

    /// Handles a datagram that is addressed to the server itself: answers a
    /// liveness probe with the probe's id and the player count, and performs
    /// a claim. `None` says that the datagram is not for the server. A
    /// datagram that is too short for its packet is an error. Only a claim
    /// changes the registry.
    pub fn try_udp_handle(&mut self, data: &[u8], peer: PeerAddr) -> (r: Result<
        Option<DatagramAction>,
        DecodeError,
    >)
        requires
            old(self).wf(),
        ensures
            final(self).wf(),
            match classify(data@) {
                Datagram::Malformed => r == Err::<Option<DatagramAction>, DecodeError>(
                    DecodeError::NotEnoughData,
                ) && final(self)@ == old(self)@,
                Datagram::Ping(ping) => {
                    &&& r matches Ok(Some(DatagramAction::Reply(bytes)))
                    &&& bytes@ == (PingResponsePacket {
                        id: ping.id,
                        player_count: old(self)@.player_count,
                    }).datagram()
                    &&& final(self)@ == old(self)@
                },
                Datagram::Claim(claim) => {
                    &&& r matches Ok(Some(action))
                    &&& match action {
                        DatagramAction::Claimed(displaced) => claim_step(
                            old(self)@,
                            final(self)@,
                            peer,
                            claim.secret_key,
                            true,
                            displaced,
                        ),
                        DatagramAction::ClaimMissed => claim_step(
                            old(self)@,
                            final(self)@,
                            peer,
                            claim.secret_key,
                            false,
                            None,
                        ),
                        _ => false,
                    }
                },
                Datagram::Other => r matches Ok(None) && final(self)@ == old(self)@,
            },
    {
        match parse_datagram(data) {
            Datagram::Malformed => Err(DecodeError::NotEnoughData),
            Datagram::Ping(ping) => {
                let response = PingResponsePacket { id: ping.id, player_count: self.player_count };
                Ok(Some(DatagramAction::Reply(response.to_datagram())))
            },
            Datagram::Claim(claim) => {
                let (claimed, displaced) = self.claim_thread(peer, claim.secret_key);
                if claimed {
                    Ok(Some(DatagramAction::Claimed(displaced)))
                } else {
                    Ok(Some(DatagramAction::ClaimMissed))
                }
            },
            Datagram::Other => Ok(None),
        }
    }

    /// Decides what is to be done about a datagram that has arrived from
    /// `peer`. A peer that is not an IPv4 peer is turned away. A packet for
    /// the server is handled here. Every other packet goes to the session
    /// that the peer has claimed, in the inline form where it fits, and is
    /// dropped where the peer has claimed none.
    pub fn recv_and_handle_udp(&mut self, data: &[u8], peer: SocketPeer) -> (r: Result<
        DatagramAction,
        ServerError,
    >)
        requires
            old(self).wf(),
        ensures
            final(self).wf(),
            peer is V6 ==> r == Err::<DatagramAction, ServerError>(ServerError::UnsupportedFamily)
                && final(self)@ == old(self)@,
            peer matches SocketPeer::V4(addr) ==> match classify(data@) {
                Datagram::Malformed => r == Err::<DatagramAction, ServerError>(
                    ServerError::Decode(DecodeError::NotEnoughData),
                ) && final(self)@ == old(self)@,
                Datagram::Ping(ping) => {
                    &&& r matches Ok(DatagramAction::Reply(bytes))
                    &&& bytes@ == (PingResponsePacket {
                        id: ping.id,
                        player_count: old(self)@.player_count,
                    }).datagram()
                    &&& final(self)@ == old(self)@
                },
                Datagram::Claim(claim) => {
                    &&& r matches Ok(action)
                    &&& match action {
                        DatagramAction::Claimed(displaced) => claim_step(
                            old(self)@,
                            final(self)@,
                            addr,
                            claim.secret_key,
                            true,
                            displaced,
                        ),
                        DatagramAction::ClaimMissed => claim_step(
                            old(self)@,
                            final(self)@,
                            addr,
                            claim.secret_key,
                            false,
                            None,
                        ),
                        _ => false,
                    }
                },
                Datagram::Other => {
                    &&& final(self)@ == old(self)@
                    &&& if old(self)@.claimed.contains_key(addr.spec_key()) {
                        &&& r matches Ok(DatagramAction::Route(msg))
                        &&& msg.datagram() == Some(data@)
                        &&& data@.len() <= INLINE_BUFFER_SIZE <==> msg is SmallPacket
                        &&& data@.len() > INLINE_BUFFER_SIZE <==> msg is Packet
                    } else {
                        r matches Ok(DatagramAction::Drop)
                    }
                },
            },
    {
        let addr = match peer {
            SocketPeer::V4(addr) => addr,
            SocketPeer::V6 => {
                return Err(ServerError::UnsupportedFamily);
            },
        };
        match self.try_udp_handle(data, addr) {
            Err(e) => Err(ServerError::Decode(e)),
            Ok(Some(action)) => Ok(action),
            Ok(None) => {
                if table_get(&self.threads, addr.key()).is_some() {
                    Ok(DatagramAction::Route(ServerThreadMessage::from_datagram(data)))
                } else {
                    Ok(DatagramAction::Drop)
                }
            },
        }
    }

    /// Reconciles the registry with the end of the session `session_id`:
    /// takes the session out of the place it is in and, where its player had
    /// authenticated, counts the player no more. The result says what is left
    /// to do outside the registry.
    pub fn post_disconnect_cleanup(&mut self, session_id: u64) -> (r: Cleanup)
        requires
            old(self).wf(),
        ensures
            final(self).wf(),
            exists|removed: Option<Session>|
                cleanup_step(old(self)@, final(self)@, session_id, removed) && r == cleanup_of(
                    removed,
                ),
            !final(self)@.is_unclaimed(session_id),
            !final(self)@.is_claimed(session_id),
    {
        let ghost before = self@;
        let n = self.unclaimed_threads.len();
        let mut idx: usize = 0;
        let mut found = false;
        while idx < n && !found
            invariant
                *self == *old(self),
                n == self.unclaimed_threads@.len(),
                idx <= n,
                forall|j: int| 0 <= j < idx ==> (#[trigger] self.unclaimed_threads@[j]).id != session_id,
                found ==> idx < n && self.unclaimed_threads@[idx as int].id == session_id,
            decreases n - idx + (if found { 0int } else { 1int }),
        {
            if self.unclaimed_threads[idx].id == session_id {
                found = true;
            } else {
                idx += 1;
            }
        }
        if found {
            let removed = self.unclaimed_threads.remove(idx);
            proof {
                lemma_remove_unclaimed(before, self@, idx as int);
                assert(before.unclaimed[idx as int].id == session_id);
                assert(before.is_unclaimed(session_id));
                assert(cleanup_step(before, self@, session_id, removed));
                assert(cleanup_of(removed) == Cleanup::Unauthenticated);
                assert forall|k: u64| self@.claimed.contains_key(k) implies (
                #[trigger] self@.claimed[k]).id != session_id by {
                    assert(before.unclaimed[idx as int].id != before.claimed[k].id);
                }
            }
            return Cleanup::Unauthenticated;
        }
        assert(!before.is_unclaimed(session_id));
        let keys = table_keys(&self.threads);
        let mut i: usize = 0;
        let mut hit: Option<u64> = None;
        while i < keys.len() && hit.is_none()
            invariant
                *self == *old(self),
                i <= keys.len(),
                forall|k: u64| keys@.contains(k) <==> self.threads@.contains_key(k),
                forall|j: int|
                    0 <= j < i ==> self.threads@.contains_key(#[trigger] keys@[j])
                        && self.threads@[keys@[j]].id != session_id,
                hit matches Some(k) ==> self.threads@.contains_key(k) && self.threads@[k].id
                    == session_id,
            decreases keys.len() - i + (if hit.is_none() { 1int } else { 0int }),
        {
            let key = keys[i];
            assert(keys@.contains(key));
            match table_get(&self.threads, key) {
                Some(thread) => {
                    if thread.id == session_id {
                        hit = Some(key);
                    } else {
                        i += 1;
                    }
                },
                None => {
                    i += 1;
                },
            }
        }
        match hit {
            Some(key) => {
                let removed = table_remove(&mut self.threads, key);
                match removed {
                    Some(thread) => {
                        if thread.account_id != 0 {
                            proof {
                                lemma_authenticated_keys_bound(before.claimed);
                                lemma_authenticated_keys_remove(before.claimed, key);
                                assert(authenticated_keys(before.claimed).contains(key));
                            }
                            self.player_count = self.player_count - 1;
                        }
                        proof {
                            lemma_remove_claimed(before, self@, key);
                            assert(before.is_claimed(session_id));
                            assert(cleanup_step(before, self@, session_id, Some(thread)));
                            assert forall|k: u64| self@.claimed.contains_key(k) implies (
                            #[trigger] self@.claimed[k]).id != session_id by {
                                assert(before.claimed[k].id != before.claimed[key].id);
                            }
                            assert forall|j: int| 0 <= j < self@.unclaimed.len() implies (
                            #[trigger] self@.unclaimed[j]).id != session_id by {}
                        }
                        let outcome = if thread.account_id == 0 {
                            Cleanup::Unauthenticated
                        } else {
                            Cleanup::Player {
                                account_id: thread.account_id,
                                room_id: thread.room_id,
                                level_id: thread.level_id,
                            }
                        };
                        assert(cleanup_step(before, self@, session_id, Some(thread)) && outcome
                            == cleanup_of(Some(thread)));
                        outcome
                    },
                    None => Cleanup::NotRegistered,
                }
            },
            None => {
                proof {
                    assert forall|k: u64| before.claimed.contains_key(k) implies (
                    #[trigger] before.claimed[k]).id != session_id by {
                        assert(keys@.contains(k));
                        let j = choose|j: int| 0 <= j < keys@.len() && keys@[j] == k;
                        assert(self.threads@[keys@[j]].id != session_id);
                    }
                    assert(!before.is_claimed(session_id));
                    assert(cleanup_step(before, self@, session_id, None)
                        && Cleanup::NotRegistered == cleanup_of(None));
                }
                Cleanup::NotRegistered
            },
        }
    }

    /// The number of players that the server reports.
    pub fn player_count(&self) -> (n: u32)
        ensures
            n == self@.player_count,
    {
        self.player_count
    }

    /// Whether the server runs without a central directory.
    pub fn is_standalone(&self) -> (r: bool)
        ensures
            r == self@.standalone,
    {
        self.standalone
    }

    /// The number of sessions that wait to be claimed.
    pub fn unclaimed_count(&self) -> (n: usize)
        ensures
            n == self@.unclaimed.len(),
    {
        self.unclaimed_threads.len()
    }

    /// The number of claimed sessions.
    pub fn thread_count(&self) -> (n: usize)
        ensures
            n == self@.claimed.len(),
    {
        table_len(&self.threads)
    }

    /// The keys of the claimed sessions, each once, in the order in which the
    /// table hands them out. Nothing is said of that order.
    pub fn claimed_keys(&self) -> (keys: Vec<u64>)
        ensures
            keys@.no_duplicates(),
            forall|k: u64| keys@.contains(k) <==> self@.claimed.contains_key(k),
    {
        table_keys(&self.threads)
    }

    /// The session that is filed under `key`, if there is one.
    pub fn get_thread(&self, key: u64) -> (r: Option<&Session>)
        ensures
            r == (if self@.claimed.contains_key(key) {
                Some(&self@.claimed[key])
            } else {
                None
            }),
    {
        table_get(&self.threads, key)
    }

    /// The unclaimed session at `index`, counted from the oldest.
    pub fn get_unclaimed(&self, index: usize) -> (r: Option<&Session>)
        ensures
            r == (if index < self@.unclaimed.len() {
                Some(&self@.unclaimed[index as int])
            } else {
                None
            }),
    {
        if index < self.unclaimed_threads.len() {
            Some(&self.unclaimed_threads[index])
        } else {
            None
        }
    }

    /// Attaches an account to the session that `udp_peer` has claimed, and
    /// counts its player. Fails, and changes nothing, where the peer has
    /// claimed no session, where the account id is zero, where the session
    /// has an account already, or where the count cannot grow; the error is
    /// that of the first of these that holds.
    pub fn authenticate(
        &mut self,
        udp_peer: PeerAddr,
        account_data: PlayerAccountData,
        user_entry: UserEntry,
    ) -> (r: Result<(), ServerError>)
        requires
            old(self).wf(),
        ensures
            final(self).wf(),
            r == authenticate_result(old(self)@, udp_peer, account_data.account_id),
            r is Err ==> final(self)@ == old(self)@,
            r is Ok ==> final(self)@ == (Registry {
                claimed: old(self)@.claimed.insert(
                    udp_peer.spec_key(),
                    Session {
                        account_id: account_data.account_id,
                        account_data,
                        user_entry,
                        ..old(self)@.claimed[udp_peer.spec_key()]
                    },
                ),
                player_count: (old(self)@.player_count + 1) as u32,
                ..old(self)@
            }),
    {
        let ghost before = self@;
        let key = udp_peer.key();
        if account_data.account_id == 0 {
            if table_get(&self.threads, key).is_none() {
                return Err(ServerError::NotClaimed);
            }
            return Err(ServerError::InvalidAccount);
        }
        match table_get(&self.threads, key) {
            None => {
                return Err(ServerError::NotClaimed);
            },
            Some(thread) => {
                if thread.account_id != 0 {
                    return Err(ServerError::AlreadyAuthenticated);
                }
            },
        }
        if self.player_count == u32::MAX {
            return Err(ServerError::ServerFull);
        }
        match table_remove(&mut self.threads, key) {
            Some(mut thread) => {
                thread.account_id = account_data.account_id;
                thread.account_data = account_data;
                thread.user_entry = user_entry;
                table_insert(&mut self.threads, key, thread);
                self.player_count = self.player_count + 1;
                proof {
                    assert(self@.claimed =~= before.claimed.insert(key, thread));
                    lemma_replace_claimed(before, self@, key, thread);
                }
                Ok(())
            },
            None => Err(ServerError::NotClaimed),
        }
    }

    /// Records where the player of the session that `udp_peer` has claimed
    /// is, and whether other players may see them. Returns whether the peer
    /// has claimed a session; where not, nothing changes.
    pub fn update_presence(
        &mut self,
        udp_peer: PeerAddr,
        room_id: u32,
        level_id: LevelId,
        is_invisible: bool,
    ) -> (r: bool)
        requires
            old(self).wf(),
        ensures
            final(self).wf(),
            r == old(self)@.claimed.contains_key(udp_peer.spec_key()),
            !r ==> final(self)@ == old(self)@,
            r ==> final(self)@ == (Registry {
                claimed: old(self)@.claimed.insert(
                    udp_peer.spec_key(),
                    Session {
                        room_id,
                        level_id,
                        is_invisible,
                        ..old(self)@.claimed[udp_peer.spec_key()]
                    },
                ),
                ..old(self)@
            }),
    {
        let ghost before = self@;
        let key = udp_peer.key();
        match table_remove(&mut self.threads, key) {
            Some(mut thread) => {
                thread.room_id = room_id;
                thread.level_id = level_id;
                thread.is_invisible = is_invisible;
                table_insert(&mut self.threads, key, thread);
                proof {
                    assert(self@.claimed =~= before.claimed.insert(key, thread));
                    lemma_replace_claimed(before, self@, key, thread);
                }
                true
            },
            None => {
                assert(self@.claimed =~= before.claimed);
                false
            },
        }
    }

    /// Lets `f` change the directory record of the session that `udp_peer`
    /// has claimed. `f` returns whether the record is to be sent to the
    /// central directory, and the record as it is to be kept. The result
    /// holds the record to send, if `f` asked for it. Fails, and changes
    /// nothing, where the peer has claimed no session.
    pub fn update_user<F: FnOnce(UserEntry) -> (bool, UserEntry)>(
        &mut self,
        udp_peer: PeerAddr,
        f: F,
    ) -> (r: Result<Option<UserEntry>, ServerError>)
        requires
            old(self).wf(),
            old(self)@.claimed.contains_key(udp_peer.spec_key()) ==> call_requires(
                f,
                (old(self)@.claimed[udp_peer.spec_key()].user_entry,),
            ),
        ensures
            final(self).wf(),
            r is Ok <==> old(self)@.claimed.contains_key(udp_peer.spec_key()),
            r matches Err(e) ==> e == ServerError::NotClaimed && final(self)@ == old(self)@,
            r matches Ok(push) ==> {
                let key = udp_peer.spec_key();
                let kept = final(self)@.claimed[key].user_entry;
                &&& call_ensures(f, (old(self)@.claimed[key].user_entry,), (push is Some, kept))
                &&& push matches Some(sent) ==> sent == kept
                &&& final(self)@ == (Registry {
                    claimed: old(self)@.claimed.insert(
                        key,
                        Session { user_entry: kept, ..old(self)@.claimed[key] },
                    ),
                    ..old(self)@
                })
            },
    {
        let ghost before = self@;
        let key = udp_peer.key();
        match table_remove(&mut self.threads, key) {
            Some(mut thread) => {
                let (dirty, entry) = f(thread.user_entry);
                let push = if dirty {
                    Some(entry.clone())
                } else {
                    None
                };
                thread.user_entry = entry;
                table_insert(&mut self.threads, key, thread);
                proof {
                    assert(self@.claimed =~= before.claimed.insert(key, thread));
                    lemma_replace_claimed(before, self@, key, thread);
                }
                Ok(push)
            },
            None => {
                assert(self@.claimed =~= before.claimed);
                Err(ServerError::NotClaimed)
            },
        }
    }
}

/// Whether an account can be attached to the session that `udp_peer` has
/// claimed, and if not, why not.
pub open spec fn authenticate_result(before: Registry, udp_peer: PeerAddr, account_id: i32) -> Result<
    (),
    ServerError,
> {
    let key = udp_peer.spec_key();
    if !before.claimed.contains_key(key) {
        Err(ServerError::NotClaimed)
    } else if account_id == 0 {
        Err(ServerError::InvalidAccount)
    } else if before.claimed[key].account_id != 0 {
        Err(ServerError::AlreadyAuthenticated)
    } else if before.player_count == u32::MAX {
        Err(ServerError::ServerFull)
    } else {
        Ok(())
    }
}

} // verus!
