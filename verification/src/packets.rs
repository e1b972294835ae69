//! The packets that the server itself reads and writes: the liveness probe
//! and its response, and the claim of a session by a datagram peer.
//!
//! Every packet starts with a header of three bytes: the packet id as a
//! big-endian 16-bit value, then a flag that tells whether the body is
//! encrypted.

use crate::bytebuffer::{
    be_u16, be_u32, bool_byte, u16_be_bytes, u32_be_bytes, ByteBuffer, ByteReader, DecodeError,
};
use vstd::prelude::*;

verus! {

/// Length of an encoded packet header.
pub const PACKET_HEADER_SIZE: usize = 3;

/// Packet id of a liveness probe.
pub const PING_PACKET_ID: u16 = 10000;

/// Packet id of a session claim.
pub const CLAIM_THREAD_PACKET_ID: u16 = 10005;

/// Packet id of the response to a liveness probe.
pub const PING_RESPONSE_PACKET_ID: u16 = 20000;

/// Length of an encoded probe response, without its header.
pub const PING_RESPONSE_ENCODED_SIZE: usize = 8;

/// What every packet starts with.
#[derive(Clone, Copy, PartialEq, Eq, Structural, Debug)]
pub struct PacketHeader {
    pub packet_id: u16,
    pub encrypted: bool,
}

/// A liveness probe. The response carries the same correlation id.
#[derive(Clone, Copy, PartialEq, Eq, Structural, Debug)]
pub struct PingPacket {
    pub id: u32,
}

/// The request of a datagram peer to be bound to the session that was given
/// this secret.
#[derive(Clone, Copy, PartialEq, Eq, Structural, Debug)]
pub struct ClaimThreadPacket {
    pub secret_key: u32,
}

/// The answer to a liveness probe.
#[derive(Clone, Copy, PartialEq, Eq, Structural, Debug)]
pub struct PingResponsePacket {
    pub id: u32,
    pub player_count: u32,
}

impl PacketHeader {
    pub open spec fn encoding(self) -> Seq<u8> {
        u16_be_bytes(self.packet_id).push(bool_byte(self.encrypted))
    }

    /// The header at the front of `bytes`, if `bytes` is long enough to hold one.
    pub open spec fn decoding(bytes: Seq<u8>) -> Option<PacketHeader> {
        if bytes.len() >= 3 {
            Some(PacketHeader { packet_id: be_u16(bytes), encrypted: bytes[2] != 0 })
        } else {
            None
        }
    }

    pub fn encode(&self, buf: &mut ByteBuffer)
        ensures
            final(buf)@ == old(buf)@ + self.encoding(),
    {
        buf.write_u16(self.packet_id);
        buf.write_bool(self.encrypted);
        assert(buf@ =~= old(buf)@ + self.encoding());
    }

    /// Reads a header. On success the cursor has moved past it; on failure
    /// nothing is promised of the cursor.
    pub fn decode(reader: &mut ByteReader) -> (r: Result<PacketHeader, DecodeError>)
        ensures
            match r {
                Ok(h) => PacketHeader::decoding(old(reader).remaining()) == Some(h) && final(
                    reader).remaining() == old(reader).remaining().skip(3),
                Err(e) => PacketHeader::decoding(old(reader).remaining()) is None && e
                    == DecodeError::NotEnoughData,
            },
    {
        let ghost start = reader.remaining();
        let packet_id = reader.read_u16()?;
        let encrypted = reader.read_bool()?;
        assert(reader.remaining() =~= start.skip(3));
        Ok(PacketHeader { packet_id, encrypted })
    }
}

impl PingPacket {
    pub open spec fn encoding(self) -> Seq<u8> {
        u32_be_bytes(self.id)
    }

    pub open spec fn decoding(bytes: Seq<u8>) -> Option<PingPacket> {
        if bytes.len() >= 4 {
            Some(PingPacket { id: be_u32(bytes) })
        } else {
            None
        }
    }

    pub fn encode(&self, buf: &mut ByteBuffer)
        ensures
            final(buf)@ == old(buf)@ + self.encoding(),
    {
        buf.write_u32(self.id);
    }

    pub fn decode(reader: &mut ByteReader) -> (r: Result<PingPacket, DecodeError>)
        ensures
            match r {
                Ok(p) => PingPacket::decoding(old(reader).remaining()) == Some(p) && final(
                    reader).remaining() == old(reader).remaining().skip(4),
                Err(e) => PingPacket::decoding(old(reader).remaining()) is None && e
                    == DecodeError::NotEnoughData,
            },
    {
        let id = reader.read_u32()?;
        Ok(PingPacket { id })
    }
}

impl ClaimThreadPacket {
    pub open spec fn encoding(self) -> Seq<u8> {
        u32_be_bytes(self.secret_key)
    }

    pub open spec fn decoding(bytes: Seq<u8>) -> Option<ClaimThreadPacket> {
        if bytes.len() >= 4 {
            Some(ClaimThreadPacket { secret_key: be_u32(bytes) })
        } else {
            None
        }
    }

    pub fn encode(&self, buf: &mut ByteBuffer)
        ensures
            final(buf)@ == old(buf)@ + self.encoding(),
    {
        buf.write_u32(self.secret_key);
    }

    pub fn decode(reader: &mut ByteReader) -> (r: Result<ClaimThreadPacket, DecodeError>)
        ensures
            match r {
                Ok(p) => ClaimThreadPacket::decoding(old(reader).remaining()) == Some(p) && final(
                    reader).remaining() == old(reader).remaining().skip(4),
                Err(e) => ClaimThreadPacket::decoding(old(reader).remaining()) is None && e
                    == DecodeError::NotEnoughData,
            },
    {
        let secret_key = reader.read_u32()?;
        Ok(ClaimThreadPacket { secret_key })
    }
}

impl PingResponsePacket {
    pub open spec fn encoding(self) -> Seq<u8> {
        u32_be_bytes(self.id) + u32_be_bytes(self.player_count)
    }

    pub open spec fn decoding(bytes: Seq<u8>) -> Option<PingResponsePacket> {
        if bytes.len() >= 8 {
            Some(PingResponsePacket { id: be_u32(bytes), player_count: be_u32(bytes.skip(4)) })
        } else {
            None
        }
    }

    /// The whole datagram that answers a probe: header, then body.
    pub open spec fn datagram(self) -> Seq<u8> {
        (PacketHeader { packet_id: PING_RESPONSE_PACKET_ID, encrypted: false }).encoding()
            + self.encoding()
    }

    pub fn encode(&self, buf: &mut ByteBuffer)
        ensures
            final(buf)@ == old(buf)@ + self.encoding(),
    {
        buf.write_u32(self.id);
        buf.write_u32(self.player_count);
        assert(buf@ =~= old(buf)@ + self.encoding());
    }

    pub fn decode(reader: &mut ByteReader) -> (r: Result<PingResponsePacket, DecodeError>)
        ensures
            match r {
                Ok(p) => PingResponsePacket::decoding(old(reader).remaining()) == Some(p) && final(
                    reader).remaining() == old(reader).remaining().skip(8),
                Err(e) => PingResponsePacket::decoding(old(reader).remaining()) is None && e
                    == DecodeError::NotEnoughData,
            },
    {
        let ghost start = reader.remaining();
        if reader.data.len() < 8 {
            return Err(DecodeError::NotEnoughData);
        }
        let id = reader.read_u32()?;
        let player_count = reader.read_u32()?;
        assert(reader.remaining() =~= start.skip(8));
        Ok(PingResponsePacket { id, player_count })
    }

    /// Encodes the response as a datagram of its own.
    pub fn to_datagram(&self) -> (bytes: Vec<u8>)
        ensures
            bytes@ == self.datagram(),
            bytes@.len() == PACKET_HEADER_SIZE + PING_RESPONSE_ENCODED_SIZE,
    {
        let mut buf = ByteBuffer::new();
        let header = PacketHeader { packet_id: PING_RESPONSE_PACKET_ID, encrypted: false };
        header.encode(&mut buf);
        self.encode(&mut buf);
        assert(buf@ =~= self.datagram());
        buf.into_bytes()
    }
}

/// What a datagram is to the server.
#[derive(Clone, Copy, PartialEq, Eq, Structural, Debug)]
pub enum Datagram {
    /// Too short for a header, or too short for the packet that its header
    /// announces.
    Malformed,
    /// A liveness probe, which the server answers itself.
    Ping(PingPacket),
    /// The claim of a session, which the server handles itself.
    Claim(ClaimThreadPacket),
    /// A packet for the session that the sender has claimed.
    Other,
}

/// What the bytes of a datagram are to the server.
pub open spec fn classify(data: Seq<u8>) -> Datagram {
    match PacketHeader::decoding(data) {
        None => Datagram::Malformed,
        Some(header) => if header.packet_id == PING_PACKET_ID {
            match PingPacket::decoding(data.skip(3)) {
                Some(p) => Datagram::Ping(p),
                None => Datagram::Malformed,
            }
        } else if header.packet_id == CLAIM_THREAD_PACKET_ID {
            match ClaimThreadPacket::decoding(data.skip(3)) {
                Some(p) => Datagram::Claim(p),
                None => Datagram::Malformed,
            }
        } else {
            Datagram::Other
        },
    }
}

/// Reads the header of a datagram and, where the packet is one of the
/// server's own, its body.
pub fn parse_datagram(data: &[u8]) -> (r: Datagram)
    ensures
        r == classify(data@),
{
    let mut reader = ByteReader::from_bytes(data);
    let header = match PacketHeader::decode(&mut reader) {
        Ok(header) => header,
        Err(_) => {
            return Datagram::Malformed;
        },
    };
    if header.packet_id == PING_PACKET_ID {
        match PingPacket::decode(&mut reader) {
            Ok(p) => Datagram::Ping(p),
            Err(_) => Datagram::Malformed,
        }
    } else if header.packet_id == CLAIM_THREAD_PACKET_ID {
        match ClaimThreadPacket::decode(&mut reader) {
            Ok(p) => Datagram::Claim(p),
            Err(_) => Datagram::Malformed,
        }
    } else {
        Datagram::Other
    }
}

/// The datagram that carries a liveness probe.
pub open spec fn ping_datagram(p: PingPacket) -> Seq<u8> {
    (PacketHeader { packet_id: PING_PACKET_ID, encrypted: false }).encoding() + p.encoding()
}

/// The datagram that carries a claim.
pub open spec fn claim_datagram(p: ClaimThreadPacket) -> Seq<u8> {
    (PacketHeader { packet_id: CLAIM_THREAD_PACKET_ID, encrypted: false }).encoding()
        + p.encoding()
}

/// The datagram of a probe is read as that probe, and the datagram of a claim
/// as that claim.
pub proof fn lemma_classify_own_packets(ping: PingPacket, claim: ClaimThreadPacket)
    ensures
        classify(ping_datagram(ping)) == Datagram::Ping(ping),
        classify(claim_datagram(claim)) == Datagram::Claim(claim),
{
    let ph = PacketHeader { packet_id: PING_PACKET_ID, encrypted: false };
    let ch = PacketHeader { packet_id: CLAIM_THREAD_PACKET_ID, encrypted: false };
    lemma_header_round_trip(ph, ping.encoding());
    lemma_header_round_trip(ch, claim.encoding());
    lemma_ping_round_trip(ping, Seq::empty());
    lemma_claim_round_trip(claim, Seq::empty());
    assert(ping.encoding() + Seq::<u8>::empty() =~= ping.encoding());
    assert(claim.encoding() + Seq::<u8>::empty() =~= claim.encoding());
}

/// A header that was encoded is decoded to itself, whatever bytes follow it.
pub proof fn lemma_header_round_trip(h: PacketHeader, rest: Seq<u8>)
    ensures
        PacketHeader::decoding(h.encoding() + rest) == Some(h),
        (h.encoding() + rest).skip(3) == rest,
{
    assert((h.encoding() + rest).skip(3) =~= rest);
}

/// A probe that was encoded is decoded to itself.
pub proof fn lemma_ping_round_trip(p: PingPacket, rest: Seq<u8>)
    ensures
        PingPacket::decoding(p.encoding() + rest) == Some(p),
{
}

/// A claim that was encoded is decoded to itself.
pub proof fn lemma_claim_round_trip(p: ClaimThreadPacket, rest: Seq<u8>)
    ensures
        ClaimThreadPacket::decoding(p.encoding() + rest) == Some(p),
{
}

/// A probe response that was encoded is decoded to itself, and the datagram
/// that carries it starts with the response header.
pub proof fn lemma_ping_response_round_trip(p: PingResponsePacket)
    ensures
        PingResponsePacket::decoding(p.encoding()) == Some(p),
        PacketHeader::decoding(p.datagram()) == Some(
            PacketHeader { packet_id: PING_RESPONSE_PACKET_ID, encrypted: false },
        ),
        PingResponsePacket::decoding(p.datagram().skip(3)) == Some(p),
{
    let h = PacketHeader { packet_id: PING_RESPONSE_PACKET_ID, encrypted: false };
    lemma_header_round_trip(h, p.encoding());
    assert(p.encoding().skip(4) =~= u32_be_bytes(p.player_count));
}

} // verus!
