//! MIDI message primitives: raw byte messages, status-byte tag and channel
//! nibbles, sysex framing, and the 14-bit big-endian fader value codec.

use vstd::prelude::*;

verus! {

/// First byte of a system-exclusive message.
pub const SYSEX_START: u8 = 0xf0;
/// Last byte of a system-exclusive message.
pub const SYSEX_END: u8 = 0xf7;
/// Largest value a 14-bit fader position can carry.
pub const NORMALIZED_MAX: u16 = 0x3fff;

/// A raw MIDI message: the bytes as read from or written to the wire.
#[derive(Clone, Debug, PartialEq)]
pub struct Msg {
    bytes: Vec<u8>,
}

impl View for Msg {
    type V = Seq<u8>;

    closed spec fn view(&self) -> Seq<u8> {
        self.bytes@
    }
}

/// Tag nibble (high 4 bits) of a status byte.
pub open spec fn spec_tag(status: u8) -> u8 {
    status & 0xf0
}

/// Channel nibble (low 4 bits) of a status byte.
pub open spec fn spec_chan(status: u8) -> u8 {
    status & 0x0f
}

/// Whether a byte sequence is a well-framed sysex message.
pub open spec fn sysex_framed(bytes: Seq<u8>) -> bool {
    &&& bytes.len() >= 2
    &&& bytes[0] == SYSEX_START
    &&& bytes[bytes.len() - 1] == SYSEX_END
}

/// The payload of a well-framed sysex message (framing bytes stripped).
pub open spec fn sysex_payload(bytes: Seq<u8>) -> Seq<u8> {
    bytes.subrange(1, bytes.len() - 1)
}

impl Msg {
    pub fn from_bytes(bytes: Vec<u8>) -> (r: Msg)
        ensures
            r@ == bytes@,
    {
        Msg { bytes }
    }

    pub fn inner(&self) -> (r: &Vec<u8>)
        ensures
            r@ == self@,
    {
        &self.bytes
    }

    /// Frames `payload` as a system-exclusive message.
    pub fn new_sysex(payload: &Vec<u8>) -> (r: Msg)
        ensures
            r@ == seq![SYSEX_START] + payload@ + seq![SYSEX_END],
    {
        let mut bytes: Vec<u8> = Vec::new();
        bytes.push(SYSEX_START);
        let mut i: usize = 0;
        while i < payload.len()
            invariant
                i <= payload@.len(),
                bytes@ == seq![SYSEX_START] + payload@.subrange(0, i as int),
            decreases payload@.len() - i,
        {
            bytes.push(payload[i]);
            proof {
                assert(bytes@ =~= seq![SYSEX_START] + payload@.subrange(0, i + 1));
            }
            i += 1;
        }
        bytes.push(SYSEX_END);
        proof {
            assert(payload@.subrange(0, payload@.len() as int) =~= payload@);
            assert(bytes@ =~= seq![SYSEX_START] + payload@ + seq![SYSEX_END]);
        }
        Msg { bytes }
    }

    /// Strips the sysex framing, or reports that the message is not a
    /// well-framed sysex message.
    pub fn parse_sysex(&self) -> (r: Option<Vec<u8>>)
        ensures
            r is Some <==> sysex_framed(self@),
            r matches Some(p) ==> p@ == sysex_payload(self@),
    {
        let n = self.bytes.len();
        if n < 2 || self.bytes[0] != SYSEX_START || self.bytes[n - 1] != SYSEX_END {
            return None;
        }
        let mut payload: Vec<u8> = Vec::new();
        let mut i: usize = 1;
        while i < n - 1
            invariant
                1 <= i <= n - 1,
                n == self@.len(),
                payload@ == self@.subrange(1, i as int),
            decreases n - i,
        {
            payload.push(self.bytes[i]);
            proof {
                assert(payload@ =~= self@.subrange(1, i + 1));
            }
            i += 1;
        }
        proof {
            assert(payload@ =~= sysex_payload(self@));
        }
        Some(payload)
    }
}

/// High 7 bits of a 14-bit fader value: the first byte on the wire.
pub open spec fn hi7(v: u16) -> u8 {
    ((v >> 7) & 0x7f) as u8
}

/// Low 7 bits of a 14-bit fader value: the second byte on the wire.
pub open spec fn lo7(v: u16) -> u8 {
    (v & 0x7f) as u8
}

/// What decoding two wire bytes as a 14-bit big-endian fader value yields:
/// the value when both bytes are 7-bit clean, nothing otherwise.
pub open spec fn spec_normalized_from_be(hi: u8, lo: u8) -> Option<u16> {
    if hi < 0x80 && lo < 0x80 {
        Some((((hi as u16) << 7) | (lo as u16)) as u16)
    } else {
        None
    }
}

/// Encodes a 14-bit fader position as its two big-endian 7-bit wire bytes.
pub fn normalized_to_be(v: u16) -> (r: (u8, u8))
    requires
        v <= NORMALIZED_MAX,
    ensures
        r.0 == hi7(v),
        r.1 == lo7(v),
{
    let hi = ((v >> 7) & 0x7f) as u8;
    let lo = (v & 0x7f) as u8;
    (hi, lo)
}

/// Decodes two wire bytes into a 14-bit fader position; rejects bytes with
/// the top bit set, which cannot occur in MIDI data bytes.
pub fn normalized_from_be(hi: u8, lo: u8) -> (r: Option<u16>)
    ensures
        r == spec_normalized_from_be(hi, lo),
        r matches Some(v) ==> v <= NORMALIZED_MAX,
{
    if hi < 0x80 && lo < 0x80 {
        let v: u16 = ((hi as u16) << 7) | (lo as u16);
        proof {
            assert(v <= NORMALIZED_MAX) by (bit_vector)
                requires
                    v == (((hi as u16) << 7) | (lo as u16)) && hi < 0x80 && lo < 0x80,
            ;
        }
        Some(v)
    } else {
        None
    }
}

/// Round-trip law: decoding the two bytes that encode a representable 14-bit
/// fader value yields exactly that value.
pub proof fn lemma_normalized_round_trip(v: u16)
    requires
        v <= NORMALIZED_MAX,
    ensures
        spec_normalized_from_be(hi7(v), lo7(v)) == Some(v),
{
    assert(hi7(v) < 0x80 && lo7(v) < 0x80 && ((((hi7(v) as u16) << 7) | (lo7(v) as u16)) as u16)
        == v) by (bit_vector)
        requires
            v <= 0x3fff,
    ;
}

} // verus!
