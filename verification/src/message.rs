//! What is put into the inbound queue of a session.

use std::sync::Arc;
use vstd::prelude::*;
use vstd::slice::slice_to_vec;

verus! {

/// A datagram of at most this many bytes is handed to a session in a buffer
/// of fixed size, a longer one in a vector.
pub const INLINE_BUFFER_SIZE: usize = 164;

/// A voice frame of one player, encoded once and handed to every listener.
#[derive(Clone, Debug)]
pub struct VoiceBroadcastPacket {
    pub player_id: i32,
    pub data: Vec<u8>,
}

/// A chat message of one player.
#[derive(Debug)]
pub struct ChatMessageBroadcastPacket {
    pub player_id: i32,
    pub message: String,
}

/// What the room manager tells of a room.
#[derive(Debug)]
pub struct RoomInfo {
    pub id: u32,
    pub owner: i32,
    pub name: String,
}

/// What the list of public rooms shows of a room.
#[derive(Debug)]
pub struct RoomListingInfo {
    pub id: u32,
    pub owner: i32,
    pub name: String,
    pub player_count: u16,
}

/// Tells the players of a room what the room is now.
#[derive(Debug)]
pub struct RoomInfoPacket {
    pub info: RoomInfo,
}

/// One entry of the inbound queue of a session.
#[derive(Debug)]
pub enum ServerThreadMessage {
    /// A short datagram: the buffer, and how many of its bytes are the datagram.
    SmallPacket(([u8; INLINE_BUFFER_SIZE], usize)),
    /// A long datagram.
    Packet(Vec<u8>),
    BroadcastVoice(Arc<VoiceBroadcastPacket>),
    BroadcastText(ChatMessageBroadcastPacket),
    BroadcastRoomInfo(RoomInfoPacket),
    /// The reader sends the reason to the player and ends.
    TerminationNotice(String),
}

impl Clone for ChatMessageBroadcastPacket {
    fn clone(&self) -> (r: Self)
        ensures
            r == *self,
    {
        ChatMessageBroadcastPacket { player_id: self.player_id, message: self.message.clone() }
    }
}

impl Clone for RoomInfo {
    fn clone(&self) -> (r: Self)
        ensures
            r == *self,
    {
        RoomInfo { id: self.id, owner: self.owner, name: self.name.clone() }
    }
}

impl Clone for RoomListingInfo {
    fn clone(&self) -> (r: Self)
        ensures
            r == *self,
    {
        RoomListingInfo {
            id: self.id,
            owner: self.owner,
            name: self.name.clone(),
            player_count: self.player_count,
        }
    }
}

impl Clone for RoomInfoPacket {
    fn clone(&self) -> (r: Self)
        ensures
            r == *self,
    {
        RoomInfoPacket { info: self.info.clone() }
    }
}

impl Clone for ServerThreadMessage {
    /// A copy of the message. A long datagram is copied byte by byte, and a
    /// voice frame is shared with the message it is copied from.
    fn clone(&self) -> (r: Self)
        ensures
            r.datagram() == self.datagram(),
            match *self {
                ServerThreadMessage::Packet(_) => r is Packet,
                ServerThreadMessage::BroadcastVoice(_) => r is BroadcastVoice,
                _ => r == *self,
            },
    {
        match self {
            ServerThreadMessage::SmallPacket((buf, len)) => ServerThreadMessage::SmallPacket(
                (*buf, *len),
            ),
            ServerThreadMessage::Packet(bytes) => ServerThreadMessage::Packet(bytes.clone()),
            ServerThreadMessage::BroadcastVoice(packet) => ServerThreadMessage::BroadcastVoice(
                packet.clone(),
            ),
            ServerThreadMessage::BroadcastText(packet) => ServerThreadMessage::BroadcastText(
                packet.clone(),
            ),
            ServerThreadMessage::BroadcastRoomInfo(packet) => ServerThreadMessage::BroadcastRoomInfo(
                packet.clone(),
            ),
            ServerThreadMessage::TerminationNotice(reason) => ServerThreadMessage::TerminationNotice(
                reason.clone(),
            ),
        }
    }
}

impl ServerThreadMessage {
    /// The bytes of the datagram that the message carries, if it carries one.
    pub open spec fn datagram(self) -> Option<Seq<u8>> {
        match self {
            ServerThreadMessage::SmallPacket((buf, len)) => if len <= INLINE_BUFFER_SIZE {
                Some(buf@.subrange(0, len as int))
            } else {
                None
            },
            ServerThreadMessage::Packet(bytes) => Some(bytes@),
            _ => None,
        }
    }

    /// Wraps a datagram for the queue of the session that owns its peer: in
    /// the inline form where it fits, else in a vector.
    pub fn from_datagram(data: &[u8]) -> (msg: Self)
        ensures
            msg.datagram() == Some(data@),
            data@.len() <= INLINE_BUFFER_SIZE <==> msg is SmallPacket,
            data@.len() > INLINE_BUFFER_SIZE <==> msg is Packet,
            msg matches ServerThreadMessage::SmallPacket((buf, len)) ==> len == data@.len()
                && forall|i: int| len <= i < INLINE_BUFFER_SIZE ==> buf@[i] == 0,
    {
        let len = data.len();
        if len <= INLINE_BUFFER_SIZE {
            let mut inline_buf = [0u8; INLINE_BUFFER_SIZE];
            let mut i: usize = 0;
            while i < len
                invariant
                    len == data@.len(),
                    len <= INLINE_BUFFER_SIZE,
                    i <= len,
                    forall|j: int| 0 <= j < i ==> inline_buf@[j] == data@[j],
                    forall|j: int| i <= j < INLINE_BUFFER_SIZE ==> inline_buf@[j] == 0,
                decreases len - i,
            {
                inline_buf[i] = data[i];
                i += 1;
            }
            assert(inline_buf@.subrange(0, len as int) =~= data@);
            ServerThreadMessage::SmallPacket((inline_buf, len))
        } else {
            ServerThreadMessage::Packet(slice_to_vec(data))
        }
    }

    /// A notice that ends the session, with the reason that the player is shown.
    pub fn termination(reason: &str) -> (msg: Self)
        ensures
            msg matches ServerThreadMessage::TerminationNotice(text) && text@ == reason@,
    {
        ServerThreadMessage::TerminationNotice(reason.to_string())
    }
}

} // verus!
