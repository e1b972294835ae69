//! Fixed-width, big-endian wire encoding of the scalar values that packets
//! are made of.

use vstd::prelude::*;
use vstd::slice::slice_subrange;

verus! {

/// Why a value could not be read from a byte sequence.
#[derive(Clone, Copy, PartialEq, Eq, Structural, Debug)]
pub enum DecodeError {
    /// The input ended before the value did.
    NotEnoughData,
}

/// The 16-bit value whose big-endian encoding starts `bytes`.
pub open spec fn be_u16(bytes: Seq<u8>) -> u16
    recommends
        bytes.len() >= 2,
{
    (bytes[0] as int * 0x100 + bytes[1] as int) as u16
}

/// The 32-bit value whose big-endian encoding starts `bytes`.
pub open spec fn be_u32(bytes: Seq<u8>) -> u32
    recommends
        bytes.len() >= 4,
{
    (bytes[0] as int * 0x100_0000 + bytes[1] as int * 0x1_0000 + bytes[2] as int * 0x100
        + bytes[3] as int) as u32
}

/// The two bytes that encode `value`, most significant first.
pub open spec fn u16_be_bytes(value: u16) -> Seq<u8> {
    seq![(value / 0x100) as u8, (value % 0x100) as u8]
}

/// The four bytes that encode `value`, most significant first.
pub open spec fn u32_be_bytes(value: u32) -> Seq<u8> {
    seq![
        (value / 0x100_0000) as u8,
        ((value / 0x1_0000) % 0x100) as u8,
        ((value / 0x100) % 0x100) as u8,
        (value % 0x100) as u8,
    ]
}

/// The byte that encodes a flag.
pub open spec fn bool_byte(value: bool) -> u8 {
    if value {
        1
    } else {
        0
    }
}

/// Decoding the encoding of a 16-bit value gives the value back, whatever
/// follows the two bytes.
pub proof fn lemma_u16_round_trip(value: u16, rest: Seq<u8>)
    ensures
        be_u16(u16_be_bytes(value) + rest) == value,
        u16_be_bytes(value).len() == 2,
{
}

/// Decoding the encoding of a 32-bit value gives the value back, whatever
/// follows the four bytes.
pub proof fn lemma_u32_round_trip(value: u32, rest: Seq<u8>)
    ensures
        be_u32(u32_be_bytes(value) + rest) == value,
        u32_be_bytes(value).len() == 4,
{
}

/// A cursor over the bytes of one packet: it holds what has not been read yet.
pub struct ByteReader<'a> {
    pub data: &'a [u8],
}

impl<'a> ByteReader<'a> {
    /// The bytes that are still to be read.
    pub open spec fn remaining(&self) -> Seq<u8> {
        self.data@
    }

    pub fn from_bytes(data: &'a [u8]) -> (reader: Self)
        ensures
            reader.remaining() == data@,
    {
        ByteReader { data }
    }

    /// Reads one byte, or fails and leaves the cursor where it was.
    pub fn read_u8(&mut self) -> (r: Result<u8, DecodeError>)
        ensures
            old(self).remaining().len() >= 1 <==> r is Ok,
            r matches Ok(v) ==> v == old(self).remaining()[0] && final(self).remaining() == old(self).remaining().skip(1),
            r matches Err(e) ==> e == DecodeError::NotEnoughData && final(self).remaining() == old(self).remaining(),
    {
        if self.data.len() < 1 {
            return Err(DecodeError::NotEnoughData);
        }
        let value = self.data[0];
        self.data = slice_subrange(self.data, 1, self.data.len());
        Ok(value)
    }

    /// Reads a flag: one byte, set when the byte is not zero.
    pub fn read_bool(&mut self) -> (r: Result<bool, DecodeError>)
        ensures
            old(self).remaining().len() >= 1 <==> r is Ok,
            r matches Ok(v) ==> v == (old(self).remaining()[0] != 0) && final(self).remaining()
                == old(self).remaining().skip(1),
            r matches Err(e) ==> e == DecodeError::NotEnoughData && final(self).remaining() == old(self).remaining(),
    {
        match self.read_u8() {
            Ok(byte) => Ok(byte != 0),
            Err(e) => Err(e),
        }
    }

    /// Reads a big-endian 16-bit value, or fails and leaves the cursor where
    /// it was.
    pub fn read_u16(&mut self) -> (r: Result<u16, DecodeError>)
        ensures
            old(self).remaining().len() >= 2 <==> r is Ok,
            r matches Ok(v) ==> v == be_u16(old(self).remaining()) && final(self).remaining()
                == old(self).remaining().skip(2),
            r matches Err(e) ==> e == DecodeError::NotEnoughData && final(self).remaining() == old(self).remaining(),
    {
        if self.data.len() < 2 {
            return Err(DecodeError::NotEnoughData);
        }
        let hi: u16 = self.data[0] as u16;
        let lo: u16 = self.data[1] as u16;
        self.data = slice_subrange(self.data, 2, self.data.len());
        Ok(hi * 0x100 + lo)
    }

    /// Reads a big-endian 32-bit value, or fails and leaves the cursor where
    /// it was.
    pub fn read_u32(&mut self) -> (r: Result<u32, DecodeError>)
        ensures
            old(self).remaining().len() >= 4 <==> r is Ok,
            r matches Ok(v) ==> v == be_u32(old(self).remaining()) && final(self).remaining()
                == old(self).remaining().skip(4),
            r matches Err(e) ==> e == DecodeError::NotEnoughData && final(self).remaining() == old(self).remaining(),
    {
        if self.data.len() < 4 {
            return Err(DecodeError::NotEnoughData);
        }
        let b0: u32 = self.data[0] as u32;
        let b1: u32 = self.data[1] as u32;
        let b2: u32 = self.data[2] as u32;
        let b3: u32 = self.data[3] as u32;
        self.data = slice_subrange(self.data, 4, self.data.len());
        Ok(b0 * 0x100_0000 + b1 * 0x1_0000 + b2 * 0x100 + b3)
    }
}

/// A growing buffer that packets are encoded into.
pub struct ByteBuffer {
    pub data: Vec<u8>,
}

impl View for ByteBuffer {
    type V = Seq<u8>;

    open spec fn view(&self) -> Seq<u8> {
        self.data@
    }
}

impl ByteBuffer {
    pub fn new() -> (buf: Self)
        ensures
            buf@ == Seq::<u8>::empty(),
    {
        ByteBuffer { data: Vec::new() }
    }

    pub fn write_u8(&mut self, value: u8)
        ensures
            final(self)@ == old(self)@.push(value),
    {
        self.data.push(value);
    }

    pub fn write_bool(&mut self, value: bool)
        ensures
            final(self)@ == old(self)@.push(bool_byte(value)),
    {
        self.data.push(if value { 1 } else { 0 });
    }

    pub fn write_u16(&mut self, value: u16)
        ensures
            final(self)@ == old(self)@ + u16_be_bytes(value),
    {
        self.data.push((value / 0x100) as u8);
        self.data.push((value % 0x100) as u8);
        assert(self@ =~= old(self)@ + u16_be_bytes(value));
    }

    pub fn write_u32(&mut self, value: u32)
        ensures
            final(self)@ == old(self)@ + u32_be_bytes(value),
    {
        self.data.push((value / 0x100_0000) as u8);
        self.data.push(((value / 0x1_0000) % 0x100) as u8);
        self.data.push(((value / 0x100) % 0x100) as u8);
        self.data.push((value % 0x100) as u8);
        assert(self@ =~= old(self)@ + u32_be_bytes(value));
    }

    /// Hands the encoded bytes out.
    pub fn into_bytes(self) -> (bytes: Vec<u8>)
        ensures
            bytes@ == self@,
    {
        self.data
    }
}

} // verus!
