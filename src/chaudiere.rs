//! Messages sent by the boiler (source address `0x80`).
//!
//! Date and time fields are kept as the plain bytes received; reading them as
//! binary-coded decimal, as an earlier revision of the boiler protocol was
//! understood, is left to the caller through [`bcd_value`].
use vstd::prelude::*;
use vstd::slice::slice_to_vec;

use crate::bytes::{append_bytes, i16_le, lemma_i16_le_injective, read_array, read_i16_le};

verus! {

/// A boiler message; the variant is selected by the frame's declared length.
#[derive(Debug, PartialEq)]
#[allow(inconsistent_fields)]
pub enum ChaudierePayload {
    /// Length 11: the boiler offers its network identity to a new device.
    ChaudiereAssociationBroadcast { unknown: u8, network_id: [u8; 4] },
    /// Length 15: the answer to a probe, with the boiler's clock and two data bytes.
    ChaudiereSondeResponseMessage {
        unknown_start: u8,
        year: u8,
        month: u8,
        day: u8,
        hour: u8,
        minute: u8,
        second: u8,
        data: Vec<u8>,
    },
    /// Length 49: the answer to a satellite; temperatures in tenths of a
    /// degree, little-endian.
    ChaudiereSetTemperatureMessageResponse {
        unknown_start: [u8; 2],
        temperature_exterieure: i16,
        unknown: u8,
        year: u8,
        month: u8,
        day: u8,
        hour: u8,
        minute: u8,
        second: u8,
        unknown_1: [u8; 3],
        temperature: i16,
        consigne: i16,
        unknown_2: [u8; 2],
        signature: [u8; 3],
        static_part_2: [u8; 20],
    },
    /// Length 55: 49 raw bytes.
    ChaudiereToSatelliteUnknownMessageResponse { data: Vec<u8> },
    /// Any other length: the raw payload bytes.
    ChaudiereUnknownMessage { data: Vec<u8> },
}

/// Lengths that select a typed boiler message.
pub open spec fn chaudiere_known_length(length: u8) -> bool {
    length == 11 || length == 15 || length == 49 || length == 55
}

impl ChaudierePayload {
    /// The message is the one that a frame of this length decodes to.
    pub open spec fn fits(&self, length: u8) -> bool {
        match self {
            ChaudierePayload::ChaudiereAssociationBroadcast { .. } => length == 11,
            ChaudierePayload::ChaudiereSondeResponseMessage { data, .. } => length == 15
                && data@.len() == 2,
            ChaudierePayload::ChaudiereSetTemperatureMessageResponse { .. } => length == 49,
            ChaudierePayload::ChaudiereToSatelliteUnknownMessageResponse { data } => length == 55
                && data@.len() == 49,
            ChaudierePayload::ChaudiereUnknownMessage { data } => 6 <= length
                && !chaudiere_known_length(length) && data@.len() == length - 6,
        }
    }

    /// The payload bytes on the wire.
    pub open spec fn wire_bytes(&self) -> Seq<u8> {
        match self {
            ChaudierePayload::ChaudiereAssociationBroadcast { unknown, network_id } => seq![
                *unknown,
            ] + network_id@,
            ChaudierePayload::ChaudiereSondeResponseMessage {
                unknown_start,
                year,
                month,
                day,
                hour,
                minute,
                second,
                data,
            } => seq![*unknown_start, *year, *month, *day, *hour, *minute, *second] + data@,
            ChaudierePayload::ChaudiereSetTemperatureMessageResponse {
                unknown_start,
                temperature_exterieure,
                unknown,
                year,
                month,
                day,
                hour,
                minute,
                second,
                unknown_1,
                temperature,
                consigne,
                unknown_2,
                signature,
                static_part_2,
            } => unknown_start@ + i16_le(*temperature_exterieure) + seq![
                *unknown,
                *year,
                *month,
                *day,
                *hour,
                *minute,
                *second,
            ] + unknown_1@ + i16_le(*temperature) + i16_le(*consigne) + unknown_2@ + signature@
                + static_part_2@,
            ChaudierePayload::ChaudiereToSatelliteUnknownMessageResponse { data } => data@,
            ChaudierePayload::ChaudiereUnknownMessage { data } => data@,
        }
    }

    /// Field-by-field equality, byte vectors compared by content.
    pub open spec fn same_as(&self, other: &ChaudierePayload) -> bool {
        match (self, other) {
            (
                ChaudierePayload::ChaudiereAssociationBroadcast { .. },
                ChaudierePayload::ChaudiereAssociationBroadcast { .. },
            ) => self == other,
            (
                ChaudierePayload::ChaudiereSondeResponseMessage {
                    unknown_start: a1,
                    year: y1,
                    month: mo1,
                    day: d1,
                    hour: h1,
                    minute: mi1,
                    second: s1,
                    data: v1,
                },
                ChaudierePayload::ChaudiereSondeResponseMessage {
                    unknown_start: a2,
                    year: y2,
                    month: mo2,
                    day: d2,
                    hour: h2,
                    minute: mi2,
                    second: s2,
                    data: v2,
                },
            ) => a1 == a2 && y1 == y2 && mo1 == mo2 && d1 == d2 && h1 == h2 && mi1 == mi2 && s1
                == s2 && v1@ == v2@,
            (
                ChaudierePayload::ChaudiereSetTemperatureMessageResponse { .. },
                ChaudierePayload::ChaudiereSetTemperatureMessageResponse { .. },
            ) => self == other,
            (
                ChaudierePayload::ChaudiereToSatelliteUnknownMessageResponse { data: v1 },
                ChaudierePayload::ChaudiereToSatelliteUnknownMessageResponse { data: v2 },
            ) => v1@ == v2@,
            (
                ChaudierePayload::ChaudiereUnknownMessage { data: v1 },
                ChaudierePayload::ChaudiereUnknownMessage { data: v2 },
            ) => v1@ == v2@,
            _ => false,
        }
    }

    /// Decodes the payload of a boiler frame of the given length.
    pub fn decode(payload: &[u8], length: u8) -> (r: ChaudierePayload)
        requires
            6 <= length,
            payload@.len() == length - 6,
        ensures
            r.fits(length),
            r.wire_bytes() == payload@,
    {
        if length == 11 {
            let unknown = payload[0];
            let network_id: [u8; 4] = read_array(payload, 1);
            assert(payload@ =~= seq![unknown] + network_id@);
            ChaudierePayload::ChaudiereAssociationBroadcast { unknown, network_id }
        } else if length == 15 {
            let data = slice_to_vec(vstd::slice::slice_subrange(payload, 7, 9));
            let r = ChaudierePayload::ChaudiereSondeResponseMessage {
                unknown_start: payload[0],
                year: payload[1],
                month: payload[2],
                day: payload[3],
                hour: payload[4],
                minute: payload[5],
                second: payload[6],
                data,
            };
            assert(r.wire_bytes() =~= payload@);
            r
        } else if length == 49 {
            let unknown_start: [u8; 2] = read_array(payload, 0);
            let temperature_exterieure = read_i16_le(payload[2], payload[3]);
            let unknown_1: [u8; 3] = read_array(payload, 11);
            let temperature = read_i16_le(payload[14], payload[15]);
            let consigne = read_i16_le(payload[16], payload[17]);
            let unknown_2: [u8; 2] = read_array(payload, 18);
            let signature: [u8; 3] = read_array(payload, 20);
            let static_part_2: [u8; 20] = read_array(payload, 23);
            let r = ChaudierePayload::ChaudiereSetTemperatureMessageResponse {
                unknown_start,
                temperature_exterieure,
                unknown: payload[4],
                year: payload[5],
                month: payload[6],
                day: payload[7],
                hour: payload[8],
                minute: payload[9],
                second: payload[10],
                unknown_1,
                temperature,
                consigne,
                unknown_2,
                signature,
                static_part_2,
            };
            assert(r.wire_bytes() =~= payload@);
            r
        } else if length == 55 {
            ChaudierePayload::ChaudiereToSatelliteUnknownMessageResponse {
                data: slice_to_vec(payload),
            }
        } else {
            ChaudierePayload::ChaudiereUnknownMessage { data: slice_to_vec(payload) }
        }
    }

    /// Tells whether the message is the one a frame of this length decodes to.
    pub fn check(&self, length: u8) -> (r: bool)
        ensures
            r == self.fits(length),
    {
        match self {
            ChaudierePayload::ChaudiereAssociationBroadcast { .. } => length == 11,
            ChaudierePayload::ChaudiereSondeResponseMessage { data, .. } => length == 15
                && data.len() == 2,
            ChaudierePayload::ChaudiereSetTemperatureMessageResponse { .. } => length == 49,
            ChaudierePayload::ChaudiereToSatelliteUnknownMessageResponse { data } => length == 55
                && data.len() == 49,
            ChaudierePayload::ChaudiereUnknownMessage { data } => 6 <= length && length != 11
                && length != 15 && length != 49 && length != 55 && data.len() == (length - 6) as usize,
        }
    }

    /// Appends the payload bytes to `out`.
    pub fn encode_into(&self, out: &mut Vec<u8>)
        ensures
            final(out)@ == old(out)@ + self.wire_bytes(),
    {
        match self {
            ChaudierePayload::ChaudiereAssociationBroadcast { unknown, network_id } => {
                out.push(*unknown);
                append_bytes(out, network_id);
            },
            ChaudierePayload::ChaudiereSondeResponseMessage {
                unknown_start,
                year,
                month,
                day,
                hour,
                minute,
                second,
                data,
            } => {
                out.push(*unknown_start);
                out.push(*year);
                out.push(*month);
                out.push(*day);
                out.push(*hour);
                out.push(*minute);
                out.push(*second);
                append_bytes(out, data);
            },
            ChaudierePayload::ChaudiereSetTemperatureMessageResponse {
                unknown_start,
                temperature_exterieure,
                unknown,
                year,
                month,
                day,
                hour,
                minute,
                second,
                unknown_1,
                temperature,
                consigne,
                unknown_2,
                signature,
                static_part_2,
            } => {
                append_bytes(out, unknown_start);
                out.push(*temperature_exterieure as u8);
                out.push(((*temperature_exterieure as u16) >> 8u16) as u8);
                out.push(*unknown);
                out.push(*year);
                out.push(*month);
                out.push(*day);
                out.push(*hour);
                out.push(*minute);
                out.push(*second);
                append_bytes(out, unknown_1);
                out.push(*temperature as u8);
                out.push(((*temperature as u16) >> 8u16) as u8);
                out.push(*consigne as u8);
                out.push(((*consigne as u16) >> 8u16) as u8);
                append_bytes(out, unknown_2);
                append_bytes(out, signature);
                append_bytes(out, static_part_2);
            },
            ChaudierePayload::ChaudiereToSatelliteUnknownMessageResponse { data } => append_bytes(
                out,
                data,
            ),
            ChaudierePayload::ChaudiereUnknownMessage { data } => append_bytes(out, data),
        }
        assert(final(out)@ =~= old(out)@ + self.wire_bytes());
    }

    /// A message that fits a length takes exactly `length - 6` bytes.
    pub proof fn lemma_wire_length(&self, length: u8)
        requires
            self.fits(length),
        ensures
            self.wire_bytes().len() == length - 6,
    {
    }

    /// Two messages that fit the same length and share their bytes are the same.
    pub proof fn lemma_injective(&self, other: &ChaudierePayload, length: u8)
        requires
            self.fits(length),
            other.fits(length),
            self.wire_bytes() == other.wire_bytes(),
        ensures
            self.same_as(other),
    {
        let w = self.wire_bytes();
        let w2 = other.wire_bytes();
        match (self, other) {
            (
                ChaudierePayload::ChaudiereAssociationBroadcast { unknown: u1, network_id: n1 },
                ChaudierePayload::ChaudiereAssociationBroadcast { unknown: u2, network_id: n2 },
            ) => {
                assert(w[0] == *u1 && w2[0] == *u2);
                assert(n1@ =~= w.subrange(1, 5) && n2@ =~= w2.subrange(1, 5));
                assert(n1 =~= n2);
            },
            (
                ChaudierePayload::ChaudiereSondeResponseMessage { data: v1, .. },
                ChaudierePayload::ChaudiereSondeResponseMessage { data: v2, .. },
            ) => {
                assert(w[0] == w2[0] && w[1] == w2[1] && w[2] == w2[2] && w[3] == w2[3]);
                assert(w[4] == w2[4] && w[5] == w2[5] && w[6] == w2[6]);
                assert(v1@ =~= w.subrange(7, 9) && v2@ =~= w2.subrange(7, 9));
            },
            (
                ChaudierePayload::ChaudiereSetTemperatureMessageResponse {
                    unknown_start: a1,
                    temperature_exterieure: te1,
                    unknown_1: b1,
                    temperature: t1,
                    consigne: c1,
                    unknown_2: e1,
                    signature: g1,
                    static_part_2: p1,
                    ..
                },
                ChaudierePayload::ChaudiereSetTemperatureMessageResponse {
                    unknown_start: a2,
                    temperature_exterieure: te2,
                    unknown_1: b2,
                    temperature: t2,
                    consigne: c2,
                    unknown_2: e2,
                    signature: g2,
                    static_part_2: p2,
                    ..
                },
            ) => {
                assert(a1@ =~= w.subrange(0, 2) && a2@ =~= w2.subrange(0, 2));
                assert(a1 =~= a2);
                assert(i16_le(*te1) =~= w.subrange(2, 4) && i16_le(*te2) =~= w2.subrange(2, 4));
                lemma_i16_le_injective(*te1, *te2);
                assert(w[4] == w2[4] && w[5] == w2[5] && w[6] == w2[6] && w[7] == w2[7]);
                assert(w[8] == w2[8] && w[9] == w2[9] && w[10] == w2[10]);
                assert(b1@ =~= w.subrange(11, 14) && b2@ =~= w2.subrange(11, 14));
                assert(b1 =~= b2);
                assert(i16_le(*t1) =~= w.subrange(14, 16) && i16_le(*t2) =~= w2.subrange(14, 16));
                lemma_i16_le_injective(*t1, *t2);
                assert(i16_le(*c1) =~= w.subrange(16, 18) && i16_le(*c2) =~= w2.subrange(16, 18));
                lemma_i16_le_injective(*c1, *c2);
                assert(e1@ =~= w.subrange(18, 20) && e2@ =~= w2.subrange(18, 20));
                assert(e1 =~= e2);
                assert(g1@ =~= w.subrange(20, 23) && g2@ =~= w2.subrange(20, 23));
                assert(g1 =~= g2);
                assert(p1@ =~= w.subrange(23, 43) && p2@ =~= w2.subrange(23, 43));
                assert(p1 =~= p2);
            },
            _ => {},
        }
    }
}

/// The number that a byte writes in binary-coded decimal, if both its halves
/// are decimal digits (`0x23` writes 23).
pub fn bcd_value(b: u8) -> (r: Option<u8>)
    ensures
        r is Some <==> b / 16 <= 9 && b % 16 <= 9,
        r is Some ==> r->Some_0 == (b / 16) * 10 + b % 16,
{
    let hi = b / 16;
    let lo = b % 16;
    if hi <= 9 && lo <= 9 {
        Some(hi * 10 + lo)
    } else {
        None
    }
}

} // verus!
