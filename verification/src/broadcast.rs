//! Who receives a message that is meant for many: the players on a level, the
//! players of a room, everybody.
//!
//! The server decides on the receivers while it holds the registry and hands
//! the message out afterwards. A broadcast is therefore a value: the message,
//! once, and the keys of the sessions whose queues it goes into.

use crate::error::ServerError;
use crate::message::{
    ChatMessageBroadcastPacket, RoomInfo, RoomInfoPacket, ServerThreadMessage, VoiceBroadcastPacket,
};
use crate::select::{is_walk, Selector};
use crate::server::GameServer;
use std::sync::Arc;
use vstd::prelude::*;

verus! {

/// A message with the sessions that it is to be put into the queues of.
#[derive(Clone, Debug)]
pub struct Broadcast {
    pub message: ServerThreadMessage,
    /// The keys of the receiving sessions in the table of claimed sessions.
    pub targets: Vec<u64>,
}

/// What a session is told when the server goes into maintenance.
pub open spec fn maintenance_notice() -> Seq<char> {
    "The server is now under maintenance, please try connecting again later"@
}

/// What a session is told when its account logs in a second time.
pub open spec fn duplicate_login_notice() -> Seq<char> {
    "Someone logged into the same account from a different place."@
}

/// For how many seconds the eviction of a session waits for the session to
/// end.
pub const EVICTION_TIMEOUT_SECS: u64 = 10;

impl GameServer {
    /// A message of the player `origin_id` to the players on their level.
    /// `players` are the accounts that the room manager has on that level, if
    /// it has the level at all. The receivers are the authenticated sessions
    /// of those accounts, without the sessions of `origin_id`.
    pub fn broadcast_user_message(
        &self,
        msg: ServerThreadMessage,
        origin_id: i32,
        players: Option<&[i32]>,
    ) -> (r: Broadcast)
        ensures
            r.message == msg,
            match players {
                Some(on_level) => is_walk(
                    self@.claimed,
                    r.targets@,
                    Selector::LevelMessage { origin_id, players: on_level },
                ),
                None => r.targets@.len() == 0,
            },
            forall|i: int|
                0 <= i < r.targets@.len() ==> self@.claimed.contains_key(#[trigger] r.targets@[i])
                    && self@.claimed[r.targets@[i]].account_id != origin_id,
    {
        let targets = match players {
            Some(on_level) => {
                let selector = Selector::LevelMessage { origin_id, players: on_level };
                let keys = self.select(&selector);
                assert forall|i: int| 0 <= i < keys@.len() implies self@.claimed.contains_key(
                    #[trigger] keys@[i],
                ) && self@.claimed[keys@[i]].account_id != origin_id by {
                    assert(keys@.contains(keys@[i]));
                }
                keys
            },
            None => Vec::new(),
        };
        Broadcast { message: msg, targets }
    }

    /// A voice frame, for the players on the level of the player it comes
    /// from.
    pub fn broadcast_voice_packet(&self, vpkt: Arc<VoiceBroadcastPacket>, players: Option<&[i32]>) -> (r:
        Broadcast)
        ensures
            r.message == ServerThreadMessage::BroadcastVoice(vpkt),
            match players {
                Some(on_level) => is_walk(
                    self@.claimed,
                    r.targets@,
                    Selector::LevelMessage { origin_id: vpkt.player_id, players: on_level },
                ),
                None => r.targets@.len() == 0,
            },
            forall|i: int|
                0 <= i < r.targets@.len() ==> self@.claimed.contains_key(#[trigger] r.targets@[i])
                    && self@.claimed[r.targets@[i]].account_id != vpkt.player_id,
    {
        let origin_id = vpkt.player_id;
        self.broadcast_user_message(ServerThreadMessage::BroadcastVoice(vpkt), origin_id, players)
    }

    /// A chat message, for the players on the level of the player it comes
    /// from.
    pub fn broadcast_chat_packet(
        &self,
        tpkt: ChatMessageBroadcastPacket,
        players: Option<&[i32]>,
    ) -> (r: Broadcast)
        ensures
            r.message == ServerThreadMessage::BroadcastText(tpkt),
            match players {
                Some(on_level) => is_walk(
                    self@.claimed,
                    r.targets@,
                    Selector::LevelMessage { origin_id: tpkt.player_id, players: on_level },
                ),
                None => r.targets@.len() == 0,
            },
            forall|i: int|
                0 <= i < r.targets@.len() ==> self@.claimed.contains_key(#[trigger] r.targets@[i])
                    && self@.claimed[r.targets@[i]].account_id != tpkt.player_id,
    {
        let origin_id = tpkt.player_id;
        self.broadcast_user_message(ServerThreadMessage::BroadcastText(tpkt), origin_id, players)
    }

    /// A message of the player `origin_id` to the other authenticated players
    /// of a room.
    pub fn broadcast_room_message(&self, msg: ServerThreadMessage, origin_id: i32, room_id: u32) -> (r:
        Broadcast)
        ensures
            r.message == msg,
            is_walk(self@.claimed, r.targets@, Selector::RoomMessage { origin_id, room_id }),
            forall|i: int|
                0 <= i < r.targets@.len() ==> self@.claimed.contains_key(#[trigger] r.targets@[i])
                    && self@.claimed[r.targets@[i]].account_id != origin_id,
    {
        let selector = Selector::RoomMessage { origin_id, room_id };
        let targets = self.select(&selector);
        assert forall|i: int| 0 <= i < targets@.len() implies self@.claimed.contains_key(
            #[trigger] targets@[i],
        ) && self@.claimed[targets@[i]].account_id != origin_id by {
            assert(targets@.contains(targets@[i]));
        }
        Broadcast { message: msg, targets }
    }

    /// Tells every authenticated player of a room what the room is now.
    /// `info` is what the room manager tells of the room, if it has the room.
    /// The global room, which is room 0, is never announced.
    pub fn broadcast_room_info(&self, room_id: u32, info: Option<RoomInfo>) -> (r: Option<Broadcast>)
        ensures
            r is Some <==> room_id != 0 && info is Some,
            r matches Some(b) ==> {
                &&& b.message == ServerThreadMessage::BroadcastRoomInfo(
                    RoomInfoPacket { info: info->Some_0 },
                )
                &&& is_walk(
                    self@.claimed,
                    b.targets@,
                    Selector::RoomMessage { origin_id: 0, room_id },
                )
            },
    {
        if room_id == 0 {
            return None;
        }
        match info {
            Some(info) => {
                let pkt = RoomInfoPacket { info };
                Some(
                    self.broadcast_room_message(
                        ServerThreadMessage::BroadcastRoomInfo(pkt),
                        0,
                        room_id,
                    ),
                )
            },
            None => None,
        }
    }

    /// What follows a refresh of the configuration from the central
    /// directory. `refreshed` tells whether the directory answered, and
    /// `is_maintenance` whether it then reports maintenance. A refresh that
    /// failed is an error. Under maintenance every claimed session is told to
    /// end.
    pub fn refresh_bootdata(&self, refreshed: bool, is_maintenance: bool) -> (r: Result<
        Option<Broadcast>,
        ServerError,
    >)
        ensures
            !refreshed <==> r is Err,
            r matches Err(e) ==> e == ServerError::RefreshFailure,
            r matches Ok(sweep) ==> {
                &&& sweep is Some <==> is_maintenance
                &&& sweep matches Some(b) ==> {
                    &&& b.message matches ServerThreadMessage::TerminationNotice(text)
                    &&& text@ == maintenance_notice()
                    &&& is_walk(self@.claimed, b.targets@, Selector::All)
                }
            },
    {
        if !refreshed {
            return Err(ServerError::RefreshFailure);
        }
        if is_maintenance {
            let targets = self.select(&Selector::All);
            let message = ServerThreadMessage::termination(
                "The server is now under maintenance, please try connecting again later",
            );
            Ok(Some(Broadcast { message, targets }))
        } else {
            Ok(None)
        }
    }

    /// Where a claimed session has the account `account_id`, the notice that
    /// tells one such session to end, so that the account can log in anew;
    /// `None` where no session has the account. Whoever delivers the notice
    /// then waits for the session to be reconciled, see `eviction_outcome`.
    pub fn check_already_logged_in(&self, account_id: i32) -> (r: Option<Broadcast>)
        requires
            self.wf(),
        ensures
            r is None <==> forall|k: u64|
                self@.claimed.contains_key(k) ==> (#[trigger] self@.claimed[k]).account_id
                    != account_id,
            r matches Some(b) ==> {
                &&& b.message matches ServerThreadMessage::TerminationNotice(text)
                &&& text@ == duplicate_login_notice()
                &&& b.targets@.len() == 1
                &&& self@.claimed.contains_key(b.targets@[0])
                &&& self@.claimed[b.targets@[0]].account_id == account_id
            },
    {
        match self.find_thread(&Selector::Account(account_id)) {
            Some(thread) => {
                let key = thread.udp_peer.key();
                let mut targets: Vec<u64> = Vec::new();
                targets.push(key);
                let message = ServerThreadMessage::termination(
                    "Someone logged into the same account from a different place.",
                );
                Some(Broadcast { message, targets })
            },
            None => None,
        }
    }
}

/// How the eviction of a session ends: well where the session was reconciled
/// within the time allowed, with an error where it was not.
pub fn eviction_outcome(reconciled_in_time: bool) -> (r: Result<(), ServerError>)
    ensures
        r is Ok <==> reconciled_in_time,
        r matches Err(e) ==> e == ServerError::EvictionTimeout,
{
    if reconciled_in_time {
        Ok(())
    } else {
        Err(ServerError::EvictionTimeout)
    }
}

/// Whether the players of a room are to be told what the room is now, after
/// the room manager has taken a player out of it: only where the player owned
/// the room, and never for the global room.
pub fn room_info_due(was_owner: bool, room_id: u32) -> (r: bool)
    ensures
        r == (was_owner && room_id != 0),
{
    was_owner && room_id != 0
}

} // verus!
