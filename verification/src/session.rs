//! One connected player: the state that belongs to a stream connection from
//! the moment it is accepted until it is reconciled.

use crate::data::{LevelId, PlayerAccountData, UserEntry};
use vstd::prelude::*;

verus! {

/// An IPv4 socket address: the address as a 32-bit number, most significant
/// octet first, and the port.
#[derive(Clone, Copy, PartialEq, Eq, Structural, Debug)]
pub struct PeerAddr {
    pub ip: u32,
    pub port: u16,
}

/// The peer of a connection or of a datagram, as the transport reports it.
/// Only IPv4 peers are served.
#[derive(Clone, Copy, PartialEq, Eq, Structural, Debug)]
pub enum SocketPeer {
    V4(PeerAddr),
    V6,
}

impl PeerAddr {
    /// The number under which the table of claimed sessions files this
    /// address: the address in the upper bits, the port in the lower sixteen.
    pub open spec fn spec_key(&self) -> u64 {
        (self.ip as int * 0x1_0000 + self.port as int) as u64
    }

    #[verifier::when_used_as_spec(spec_key)]
    pub fn key(&self) -> (k: u64)
        ensures
            k == self.spec_key(),
    {
        (self.ip as u64) * 0x1_0000 + (self.port as u64)
    }

    /// The address of four octets and a port.
    pub fn from_octets(a: u8, b: u8, c: u8, d: u8, port: u16) -> (addr: Self)
        ensures
            addr.ip == a as int * 0x100_0000 + b as int * 0x1_0000 + c as int * 0x100 + d as int,
            addr.port == port,
    {
        let ip: u32 = (a as u32) * 0x100_0000 + (b as u32) * 0x1_0000 + (c as u32) * 0x100 + (
        d as u32);
        PeerAddr { ip, port }
    }

    /// The address that is filed under `key`, where there is one.
    pub fn from_key(key: u64) -> (addr: Option<Self>)
        ensures
            match addr {
                Some(p) => p.spec_key() == key,
                None => forall|p: PeerAddr| p.spec_key() != key,
            },
    {
        if key > 0xFFFF_FFFF_FFFF {
            return None;
        }
        let ip: u32 = (key / 0x1_0000) as u32;
        let port: u16 = (key % 0x1_0000) as u16;
        Some(PeerAddr { ip, port })
    }

    /// The address that stands for "no peer yet".
    pub fn unspecified() -> (addr: Self)
        ensures
            addr == (PeerAddr { ip: 0, port: 0 }),
    {
        PeerAddr { ip: 0, port: 0 }
    }
}

/// Two addresses that are filed under the same number are the same address.
pub proof fn lemma_key_is_injective(a: PeerAddr, b: PeerAddr)
    requires
        a.spec_key() == b.spec_key(),
    ensures
        a == b,
{
}

/// The state of one player's connection.
#[derive(Debug)]
pub struct Session {
    /// The number that the registry gave the session when it accepted the
    /// stream. No two sessions of one registry share it.
    pub id: u64,
    /// The peer of the stream connection.
    pub tcp_peer: PeerAddr,
    /// The secret that a datagram peer must present to be bound to this
    /// session.
    pub claim_secret_key: u32,
    /// Whether a datagram peer has been bound to the session.
    pub claimed: bool,
    /// The datagram peer, once there is one.
    pub udp_peer: PeerAddr,
    /// Zero until the player has authenticated.
    pub account_id: i32,
    /// Zero while the player is in the global room.
    pub room_id: u32,
    /// Zero while the player is on no level.
    pub level_id: LevelId,
    pub is_invisible: bool,
    pub account_data: PlayerAccountData,
    pub user_entry: UserEntry,
}

/// `s` is a session as the acceptor makes it for the stream from `tcp_peer`:
/// it has the id and the claim secret that it was given, no datagram peer,
/// no account, no room and no level.
pub open spec fn is_fresh_session(s: Session, id: u64, tcp_peer: PeerAddr, claim_secret_key: u32) -> bool {
    &&& s.id == id
    &&& s.tcp_peer == tcp_peer
    &&& s.claim_secret_key == claim_secret_key
    &&& !s.claimed
    &&& s.udp_peer == (PeerAddr { ip: 0, port: 0 })
    &&& s.account_id == 0
    &&& s.room_id == 0
    &&& s.level_id == 0
    &&& !s.is_invisible
    &&& s.account_data.account_id == 0
    &&& s.account_data.user_id == 0
    &&& s.account_data.name@ == Seq::<char>::empty()
    &&& s.account_data.name_color is None
    &&& s.user_entry.account_id == 0
    &&& s.user_entry.user_name@ == Seq::<char>::empty()
    &&& s.user_entry.user_role == 0
    &&& !s.user_entry.is_banned
    &&& !s.user_entry.is_muted
    &&& !s.user_entry.is_whitelisted
}

impl Session {
    /// A session as the acceptor makes it: unclaimed, unauthenticated, in no
    /// room and on no level.
    pub fn new(id: u64, tcp_peer: PeerAddr, claim_secret_key: u32) -> (s: Self)
        ensures
            is_fresh_session(s, id, tcp_peer, claim_secret_key),
    {
        Session {
            id,
            tcp_peer,
            claim_secret_key,
            claimed: false,
            udp_peer: PeerAddr::unspecified(),
            account_id: 0,
            room_id: 0,
            level_id: 0,
            is_invisible: false,
            account_data: PlayerAccountData::new(),
            user_entry: UserEntry::new(0),
        }
    }

    pub open spec fn spec_authenticated(&self) -> bool {
        self.account_id != 0
    }

    /// Whether the player has authenticated.
    #[verifier::when_used_as_spec(spec_authenticated)]
    pub fn authenticated(&self) -> (r: bool)
        ensures
            r == self.spec_authenticated(),
    {
        self.account_id != 0
    }

    /// The level that room previews show for this session.
    pub fn shown_level(&self) -> (r: LevelId)
        ensures
            r == crate::data::shown_level(self.level_id),
    {
        if crate::data::is_editorcollab_level(self.level_id) {
            0
        } else {
            self.level_id
        }
    }
}

} // verus!
