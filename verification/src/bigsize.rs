//! BigSize: the variable-length integer of Lightning's TLV format.
//!
//! It is like Bitcoin's variable-length integer except that the
//! multi-byte payloads are serialized big-endian, and decoding rejects
//! non-canonical encodings (a value written wider than necessary).

use vstd::prelude::*;

use crate::even_odd::EvenOdd;

verus! {

/// A 64-bit value carried in BigSize variable-length encoding.
#[derive(Clone, Copy, Debug, PartialEq, Eq, Structural)]
pub struct BigSize(pub u64);

/// Decoding failures for [`BigSize`].
#[derive(Clone, Copy, Debug, PartialEq, Eq, Structural)]
pub enum BigsizeError {
    /// The input ended before the announced payload was complete.
    UnexpectedEof,
    /// The value was written wider than necessary.
    NonCanonical,
}

/// A two-byte big-endian payload read as a number.
pub open spec fn be16(b1: u8, b0: u8) -> u64 {
    ((b1 as u64) << 8) | (b0 as u64)
}

/// A four-byte big-endian payload read as a number.
pub open spec fn be32(b3: u8, b2: u8, b1: u8, b0: u8) -> u64 {
    ((b3 as u64) << 24) | ((b2 as u64) << 16) | ((b1 as u64) << 8) | (b0 as u64)
}

/// An eight-byte big-endian payload read as a number.
pub open spec fn be64(b7: u8, b6: u8, b5: u8, b4: u8, b3: u8, b2: u8, b1: u8, b0: u8) -> u64 {
    ((b7 as u64) << 56) | ((b6 as u64) << 48) | ((b5 as u64) << 40) | ((b4 as u64) << 32)
        | ((b3 as u64) << 24) | ((b2 as u64) << 16) | ((b1 as u64) << 8) | (b0 as u64)
}

/// The BigSize encoding of `v`: a one-byte discriminant (for values
/// above 0xFC) followed by the value in big-endian bytes.
pub open spec fn bigsize_encoding(v: u64) -> Seq<u8> {
    if v <= 0xFC {
        seq![v as u8]
    } else if v <= 0xFFFF {
        seq![0xFDu8, (v >> 8) as u8, v as u8]
    } else if v <= 0xFFFFFFFF {
        seq![0xFEu8, (v >> 24) as u8, (v >> 16) as u8, (v >> 8) as u8, v as u8]
    } else {
        seq![
            0xFFu8,
            (v >> 56) as u8,
            (v >> 48) as u8,
            (v >> 40) as u8,
            (v >> 32) as u8,
            (v >> 24) as u8,
            (v >> 16) as u8,
            (v >> 8) as u8,
            v as u8,
        ]
    }
}

impl BigSize {
    /// Serializes the value in BigSize encoding.
    pub fn encode(&self) -> (r: Result<Vec<u8>, BigsizeError>)
        ensures
            r matches Ok(bytes) && bytes@ == bigsize_encoding(self.0),
    {
        let v = self.0;
        let mut result: Vec<u8> = Vec::new();
        if v <= 0xFC {
            result.push(v as u8);
        } else if v <= 0xFFFF {
            result.push(0xFD);
            result.push((v >> 8) as u8);
            result.push(v as u8);
        } else if v <= 0xFFFFFFFF {
            result.push(0xFE);
            result.push((v >> 24) as u8);
            result.push((v >> 16) as u8);
            result.push((v >> 8) as u8);
            result.push(v as u8);
        } else {
            result.push(0xFF);
            result.push((v >> 56) as u8);
            result.push((v >> 48) as u8);
            result.push((v >> 40) as u8);
            result.push((v >> 32) as u8);
            result.push((v >> 24) as u8);
            result.push((v >> 16) as u8);
            result.push((v >> 8) as u8);
            result.push(v as u8);
        }
        proof {
            assert(result@ =~= bigsize_encoding(self.0));
        }
        Ok(result)
    }
}

/// What decoding yields on an input whose length does not exceed the
/// encoded form announced by its first byte: the value, or the reason
/// the bytes are not a BigSize.
pub open spec fn bigsize_decoded(data: Seq<u8>) -> Result<BigSize, BigsizeError>
    recommends
        data.len() >= 1,
{
    if data[0] == 0xFF {
        if data.len() < 9 {
            Err(BigsizeError::UnexpectedEof)
        } else {
            if be64(data[1], data[2], data[3], data[4], data[5], data[6], data[7], data[8])
                < 0x100000000 {
                Err(BigsizeError::NonCanonical)
            } else {
                Ok(BigSize(be64(data[1], data[2], data[3], data[4], data[5], data[6], data[7],
                            data[8])))
            }
        }
    } else if data[0] == 0xFE {
        if data.len() < 5 {
            Err(BigsizeError::UnexpectedEof)
        } else {
            if be32(data[1], data[2], data[3], data[4]) < 0x10000 {
                Err(BigsizeError::NonCanonical)
            } else {
                Ok(BigSize(be32(data[1], data[2], data[3], data[4])))
            }
        }
    } else if data[0] == 0xFD {
        if data.len() < 3 {
            Err(BigsizeError::UnexpectedEof)
        } else {
            if be16(data[1], data[2]) < 0xFD {
                Err(BigsizeError::NonCanonical)
            } else {
                Ok(BigSize(be16(data[1], data[2])))
            }
        }
    } else {
        Ok(BigSize(data[0] as u64))
    }
}

impl BigSize {
    /// Deserializes a BigSize value, rejecting truncated payloads and
    /// non-canonical encodings. The input may not run past the form its
    /// first byte announces: the value of a longer buffer would silently
    /// depend on bytes that are not part of the encoding.
    pub fn decode(data: &Vec<u8>) -> (r: Result<BigSize, BigsizeError>)
        requires
            data@.len() >= 1,
            data@[0] == 0xFD ==> data@.len() <= 3,
            data@[0] == 0xFE ==> data@.len() <= 5,
            data@[0] == 0xFF ==> data@.len() <= 9,
        ensures
            r == bigsize_decoded(data@),
    {
        let disc = data[0];
        if disc == 0xFF {
            if data.len() < 9 {
                return Err(BigsizeError::UnexpectedEof);
            }
            let value: u64 = ((data[1] as u64) << 56) | ((data[2] as u64) << 48)
                | ((data[3] as u64) << 40) | ((data[4] as u64) << 32) | ((data[5] as u64) << 24)
                | ((data[6] as u64) << 16) | ((data[7] as u64) << 8) | (data[8] as u64);
            if value < 0x100000000 {
                Err(BigsizeError::NonCanonical)
            } else {
                Ok(BigSize(value))
            }
        } else if disc == 0xFE {
            if data.len() < 5 {
                return Err(BigsizeError::UnexpectedEof);
            }
            let value: u64 = ((data[1] as u64) << 24) | ((data[2] as u64) << 16)
                | ((data[3] as u64) << 8) | (data[4] as u64);
            if value < 0x10000 {
                Err(BigsizeError::NonCanonical)
            } else {
                Ok(BigSize(value))
            }
        } else if disc == 0xFD {
            if data.len() < 3 {
                return Err(BigsizeError::UnexpectedEof);
            }
            let value: u64 = ((data[1] as u64) << 8) | (data[2] as u64);
            if value < 0xFD {
                Err(BigsizeError::NonCanonical)
            } else {
                Ok(BigSize(value))
            }
        } else {
            Ok(BigSize(disc as u64))
        }
    }
}

impl EvenOdd for BigSize {
    open spec fn value(&self) -> int {
        self.0 as int
    }

    fn is_even(&self) -> (r: bool) {
        self.0 % 2 == 0
    }

    fn is_odd(&self) -> (r: bool) {
        !self.is_even()
    }
}

/// Canonicity law: decoding an encoding yields the encoded value back.
pub proof fn lemma_bigsize_round_trip(v: u64)
    ensures
        bigsize_decoded(bigsize_encoding(v)) == Ok::<BigSize, BigsizeError>(BigSize(v)),
{
    if v <= 0xFC {
        assert((v as u8) as u64 == v && (v as u8) < 0xFD) by (bit_vector)
            requires v <= 0xFC;
    } else if v <= 0xFFFF {
        assert(((((v >> 8) as u8) as u64) << 8) | ((v as u8) as u64) == v) by (bit_vector)
            requires v <= 0xFFFF;
    } else if v <= 0xFFFFFFFF {
        assert(((((v >> 24) as u8) as u64) << 24) | ((((v >> 16) as u8) as u64) << 16)
            | ((((v >> 8) as u8) as u64) << 8) | ((v as u8) as u64) == v) by (bit_vector)
            requires v <= 0xFFFFFFFF;
    } else {
        assert(((((v >> 56) as u8) as u64) << 56) | ((((v >> 48) as u8) as u64) << 48)
            | ((((v >> 40) as u8) as u64) << 40) | ((((v >> 32) as u8) as u64) << 32)
            | ((((v >> 24) as u8) as u64) << 24) | ((((v >> 16) as u8) as u64) << 16)
            | ((((v >> 8) as u8) as u64) << 8) | ((v as u8) as u64) == v) by (bit_vector);
    }
}

} // verus!
