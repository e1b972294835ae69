//! Colour values that player data carries, with their wire encoding.

use crate::bytebuffer::{ByteBuffer, ByteReader, DecodeError};
use vstd::prelude::*;

verus! {

/// An opaque colour: red, green, blue.
#[derive(Clone, Copy, PartialEq, Eq, Structural, Debug)]
pub struct Color3B {
    pub r: u8,
    pub g: u8,
    pub b: u8,
}

/// A colour with an alpha channel.
#[derive(Clone, Copy, PartialEq, Eq, Structural, Debug)]
pub struct Color4B {
    pub r: u8,
    pub g: u8,
    pub b: u8,
    pub a: u8,
}

impl Default for Color3B {
    fn default() -> (c: Self)
        ensures
            c == (Color3B { r: 0, g: 0, b: 0 }),
    {
        Color3B { r: 0, g: 0, b: 0 }
    }
}

impl Default for Color4B {
    fn default() -> (c: Self)
        ensures
            c == (Color4B { r: 0, g: 0, b: 0, a: 0 }),
    {
        Color4B { r: 0, g: 0, b: 0, a: 0 }
    }
}

impl Color3B {
    /// The three bytes that stand for the colour on the wire.
    pub open spec fn encoding(self) -> Seq<u8> {
        seq![self.r, self.g, self.b]
    }

    /// The colour that the first three bytes of `bytes` stand for.
    pub open spec fn decoding(bytes: Seq<u8>) -> Option<Color3B> {
        if bytes.len() >= 3 {
            Some(Color3B { r: bytes[0], g: bytes[1], b: bytes[2] })
        } else {
            None
        }
    }

    /// Appends the colour's encoding to `buf`.
    pub fn encode(&self, buf: &mut ByteBuffer)
        ensures
            final(buf)@ == old(buf)@ + self.encoding(),
    {
        buf.write_u8(self.r);
        buf.write_u8(self.g);
        buf.write_u8(self.b);
        assert(buf@ =~= old(buf)@ + self.encoding());
    }

    /// Reads a colour from the front of what `reader` still holds. On success
    /// the cursor has moved past it.
    pub fn decode(reader: &mut ByteReader) -> (r: Result<Color3B, DecodeError>)
        ensures
            match r {
                Ok(c) => Color3B::decoding(old(reader).remaining()) == Some(c) && final(reader).remaining() == old(reader).remaining().skip(3),
                Err(e) => Color3B::decoding(old(reader).remaining()) is None && e
                    == DecodeError::NotEnoughData,
            },
    {
        let ghost start = reader.remaining();
        let r = reader.read_u8()?;
        let g = reader.read_u8()?;
        let b = reader.read_u8()?;
        assert(reader.remaining() =~= start.skip(3));
        Ok(Color3B { r, g, b })
    }
}

impl Color4B {
    /// The four bytes that stand for the colour on the wire.
    pub open spec fn encoding(self) -> Seq<u8> {
        seq![self.r, self.g, self.b, self.a]
    }

    /// The colour that the first four bytes of `bytes` stand for.
    pub open spec fn decoding(bytes: Seq<u8>) -> Option<Color4B> {
        if bytes.len() >= 4 {
            Some(Color4B { r: bytes[0], g: bytes[1], b: bytes[2], a: bytes[3] })
        } else {
            None
        }
    }

    /// Appends the colour's encoding to `buf`.
    pub fn encode(&self, buf: &mut ByteBuffer)
        ensures
            final(buf)@ == old(buf)@ + self.encoding(),
    {
        buf.write_u8(self.r);
        buf.write_u8(self.g);
        buf.write_u8(self.b);
        buf.write_u8(self.a);
        assert(buf@ =~= old(buf)@ + self.encoding());
    }

    /// Reads a colour from the front of what `reader` still holds. On success
    /// the cursor has moved past it.
    pub fn decode(reader: &mut ByteReader) -> (r: Result<Color4B, DecodeError>)
        ensures
            match r {
                Ok(c) => Color4B::decoding(old(reader).remaining()) == Some(c) && final(reader).remaining() == old(reader).remaining().skip(4),
                Err(e) => Color4B::decoding(old(reader).remaining()) is None && e
                    == DecodeError::NotEnoughData,
            },
    {
        let ghost start = reader.remaining();
        let r = reader.read_u8()?;
        let g = reader.read_u8()?;
        let b = reader.read_u8()?;
        let a = reader.read_u8()?;
        assert(reader.remaining() =~= start.skip(4));
        Ok(Color4B { r, g, b, a })
    }
}

/// A colour that was encoded is decoded to itself, whatever bytes follow it.
pub proof fn lemma_color3b_round_trip(c: Color3B, rest: Seq<u8>)
    ensures
        Color3B::decoding(c.encoding() + rest) == Some(c),
{
}

/// A colour with alpha that was encoded is decoded to itself, whatever bytes
/// follow it.
pub proof fn lemma_color4b_round_trip(c: Color4B, rest: Seq<u8>)
    ensures
        Color4B::decoding(c.encoding() + rest) == Some(c),
{
}

} // verus!
