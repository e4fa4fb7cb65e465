//! Messages sent by an outdoor temperature probe (source address `0x20`).
use vstd::prelude::*;

use vstd::slice::slice_to_vec;

use crate::bytes::{append_bytes, i16_be, lemma_i16_be_injective, read_array, read_i16_be};

verus! {

/// A probe message; the variant is selected by the frame's declared length.
#[derive(Debug, PartialEq)]
#[allow(inconsistent_fields)]
pub enum SondePayload {
    /// Length 17: nine opaque sensor bytes and the outdoor temperature in
    /// tenths of a degree, big-endian.
    SondeTemperatureMessage { data: [u8; 9], temperature: i16 },
    /// Length 6: the empty answer to an association broadcast.
    SondeAssociationAnnounceMessage { data: Vec<u8> },
    /// Length 8: the init message, two data bytes.
    SondeInitMessage { data: Vec<u8> },
    /// Any other length: the raw payload bytes.
    SondeUnknownMessage { data: Vec<u8> },
}

/// Lengths that select a typed probe message.
pub open spec fn sonde_known_length(length: u8) -> bool {
    length == 17 || length == 6 || length == 8
}

impl SondePayload {
    /// The message is the one that a frame of this length decodes to.
    pub open spec fn fits(&self, length: u8) -> bool {
        match self {
            SondePayload::SondeTemperatureMessage { .. } => length == 17,
            SondePayload::SondeAssociationAnnounceMessage { data } => length == 6 && data@.len()
                == 0,
            SondePayload::SondeInitMessage { data } => length == 8 && data@.len() == 2,
            SondePayload::SondeUnknownMessage { data } => 6 <= length && !sonde_known_length(
                length,
            ) && data@.len() == length - 6,
        }
    }

    /// The payload bytes on the wire.
    pub open spec fn wire_bytes(&self) -> Seq<u8> {
        match self {
            SondePayload::SondeTemperatureMessage { data, temperature } => data@ + i16_be(
                *temperature,
            ),
            SondePayload::SondeAssociationAnnounceMessage { data } => data@,
            SondePayload::SondeInitMessage { data } => data@,
            SondePayload::SondeUnknownMessage { data } => data@,
        }
    }

    /// Field-by-field equality, byte vectors compared by content.
    pub open spec fn same_as(&self, other: &SondePayload) -> bool {
        match (self, other) {
            (
                SondePayload::SondeTemperatureMessage { data: d1, temperature: t1 },
                SondePayload::SondeTemperatureMessage { data: d2, temperature: t2 },
            ) => d1 == d2 && t1 == t2,
            (
                SondePayload::SondeAssociationAnnounceMessage { data: d1 },
                SondePayload::SondeAssociationAnnounceMessage { data: d2 },
            ) => d1@ == d2@,
            (
                SondePayload::SondeInitMessage { data: d1 },
                SondePayload::SondeInitMessage { data: d2 },
            ) => d1@ == d2@,
            (
                SondePayload::SondeUnknownMessage { data: d1 },
                SondePayload::SondeUnknownMessage { data: d2 },
            ) => d1@ == d2@,
            _ => false,
        }
    }

    /// Decodes the payload of a probe frame of the given length.
    pub fn decode(payload: &[u8], length: u8) -> (r: SondePayload)
        requires
            6 <= length,
            payload@.len() == length - 6,
        ensures
            r.fits(length),
            r.wire_bytes() == payload@,
    {
        if length == 17 {
            let data: [u8; 9] = read_array(payload, 0);
            let temperature = read_i16_be(payload[9], payload[10]);
            assert(payload@ =~= data@ + i16_be(temperature));
            SondePayload::SondeTemperatureMessage { data, temperature }
        } else if length == 6 {
            SondePayload::SondeAssociationAnnounceMessage { data: slice_to_vec(payload) }
        } else if length == 8 {
            SondePayload::SondeInitMessage { data: slice_to_vec(payload) }
        } else {
            SondePayload::SondeUnknownMessage { data: slice_to_vec(payload) }
        }
    }

    /// Tells whether the message is the one a frame of this length decodes to.
    pub fn check(&self, length: u8) -> (r: bool)
        ensures
            r == self.fits(length),
    {
        match self {
            SondePayload::SondeTemperatureMessage { .. } => length == 17,
            SondePayload::SondeAssociationAnnounceMessage { data } => length == 6 && data.len()
                == 0,
            SondePayload::SondeInitMessage { data } => length == 8 && data.len() == 2,
            SondePayload::SondeUnknownMessage { data } => 6 <= length && length != 17 && length
                != 6 && length != 8 && data.len() == (length - 6) as usize,
        }
    }

    /// Appends the payload bytes to `out`.
    pub fn encode_into(&self, out: &mut Vec<u8>)
        ensures
            final(out)@ == old(out)@ + self.wire_bytes(),
    {
        match self {
            SondePayload::SondeTemperatureMessage { data, temperature } => {
                append_bytes(out, data);
                out.push(((*temperature as u16) >> 8u16) as u8);
                out.push(*temperature as u8);
            },
            SondePayload::SondeAssociationAnnounceMessage { data } => append_bytes(out, data),
            SondePayload::SondeInitMessage { data } => append_bytes(out, data),
            SondePayload::SondeUnknownMessage { data } => append_bytes(out, data),
        }
        assert(final(out)@ =~= old(out)@ + self.wire_bytes());
    }

    /// A message that fits a length takes exactly `length - 6` bytes.
    pub proof fn lemma_wire_length(&self, length: u8)
        requires
            self.fits(length),
        ensures
            self.wire_bytes().len() == length - 6,
    {
    }

    /// Two messages that fit the same length and share their bytes are the same.
    pub proof fn lemma_injective(&self, other: &SondePayload, length: u8)
        requires
            self.fits(length),
            other.fits(length),
            self.wire_bytes() == other.wire_bytes(),
        ensures
            self.same_as(other),
    {
        match (self, other) {
            (
                SondePayload::SondeTemperatureMessage { data: d1, temperature: t1 },
                SondePayload::SondeTemperatureMessage { data: d2, temperature: t2 },
            ) => {
                let w = self.wire_bytes();
                assert(d1@ =~= w.subrange(0, 9));
                assert(d2@ =~= w.subrange(0, 9));
                assert(d1 =~= d2);
                assert(i16_be(*t1) =~= w.subrange(9, 11));
                assert(i16_be(*t2) =~= w.subrange(9, 11));
                lemma_i16_be_injective(*t1, *t2);
            },
            _ => {},
        }
    }
}

} // verus!
