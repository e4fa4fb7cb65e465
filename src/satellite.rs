//! Messages sent by a satellite thermostat (source addresses `0x08` to `0x0a`).
use vstd::prelude::*;
use vstd::slice::slice_to_vec;

use crate::bytes::{append_bytes, i16_le, lemma_i16_le_injective, read_array, read_i16_le};

verus! {

/// The heating-mode flags packed into one byte of a temperature message.
#[derive(Debug, Clone, Copy, PartialEq, Eq, Structural)]
pub struct ModeFlags {
    /// Three bits, the most significant of the byte.
    pub unknown_mode1: u8,
    /// Frost protection.
    pub hors_gel: bool,
    /// Two bits.
    pub unknown_mode2: u8,
    /// Manual override.
    pub derogation: bool,
    /// Sun boost, the least significant bit.
    pub soleil: bool,
}

/// A flag as one bit.
pub open spec fn bit_of(b: bool) -> u8 {
    if b {
        1
    } else {
        0
    }
}

impl ModeFlags {
    /// Each field fits its bit width.
    pub open spec fn in_range(&self) -> bool {
        self.unknown_mode1 < 8 && self.unknown_mode2 < 4
    }

    /// The byte that holds the flags: widths 3, 1, 2, 1, 1 from the most
    /// significant bit down.
    pub open spec fn packed(&self) -> u8 {
        (self.unknown_mode1 << 5u8) | (bit_of(self.hors_gel) << 4u8) | (self.unknown_mode2 << 2u8)
            | (bit_of(self.derogation) << 1u8) | bit_of(self.soleil)
    }
}

proof fn lemma_unpack_bits(b: u8)
    ensures
        ((b >> 5u8) << 5u8) | (((b >> 4u8) & 1) << 4u8) | (((b >> 2u8) & 3) << 2u8) | (((b
            >> 1u8) & 1) << 1u8) | (b & 1) == b,
        b >> 5u8 < 8,
        (b >> 2u8) & 3 < 4,
        (b >> 4u8) & 1 < 2,
        (b >> 1u8) & 1 < 2,
        b & 1 < 2,
{
    assert(((b >> 5u8) << 5u8) | (((b >> 4u8) & 1) << 4u8) | (((b >> 2u8) & 3) << 2u8) | (((b
        >> 1u8) & 1) << 1u8) | (b & 1) == b) by (bit_vector);
    assert(b >> 5u8 < 8) by (bit_vector);
    assert((b >> 2u8) & 3 < 4) by (bit_vector);
    assert((b >> 4u8) & 1 < 2) by (bit_vector);
    assert((b >> 1u8) & 1 < 2) by (bit_vector);
    assert(b & 1 < 2) by (bit_vector);
}

proof fn lemma_pack_bits(m1: u8, h: u8, m2: u8, d: u8, s: u8)
    requires
        m1 < 8,
        h < 2,
        m2 < 4,
        d < 2,
        s < 2,
    ensures
        ({
            let b = (m1 << 5u8) | (h << 4u8) | (m2 << 2u8) | (d << 1u8) | s;
            b >> 5u8 == m1 && (b >> 4u8) & 1 == h && (b >> 2u8) & 3 == m2 && (b >> 1u8) & 1
                == d && b & 1 == s
        }),
{
    assert({
        let b = (m1 << 5u8) | (h << 4u8) | (m2 << 2u8) | (d << 1u8) | s;
        b >> 5u8 == m1 && (b >> 4u8) & 1 == h && (b >> 2u8) & 3 == m2 && (b >> 1u8) & 1 == d
            && b & 1 == s
    }) by (bit_vector)
        requires
            m1 < 8,
            h < 2,
            m2 < 4,
            d < 2,
            s < 2,
    ;
}

/// Packs the flags into their byte.
pub fn pack_flags(f: ModeFlags) -> (r: u8)
    requires
        f.in_range(),
    ensures
        r == f.packed(),
{
    let h: u8 = if f.hors_gel {
        1
    } else {
        0
    };
    let d: u8 = if f.derogation {
        1
    } else {
        0
    };
    let s: u8 = if f.soleil {
        1
    } else {
        0
    };
    (f.unknown_mode1 << 5u8) | (h << 4u8) | (f.unknown_mode2 << 2u8) | (d << 1u8) | s
}

/// Reads the flags out of their byte.
pub fn unpack_flags(b: u8) -> (r: ModeFlags)
    ensures
        r.in_range(),
        r.packed() == b,
{
    proof {
        lemma_unpack_bits(b);
    }
    ModeFlags {
        unknown_mode1: b >> 5u8,
        hors_gel: (b >> 4u8) & 1 == 1,
        unknown_mode2: (b >> 2u8) & 3,
        derogation: (b >> 1u8) & 1 == 1,
        soleil: b & 1 == 1,
    }
}

/// Flags that fit their widths are recovered exactly from their byte.
pub proof fn lemma_flags_round_trip(f: ModeFlags, g: ModeFlags)
    requires
        f.in_range(),
        g.in_range(),
        f.packed() == g.packed(),
    ensures
        f == g,
{
    lemma_pack_bits(
        f.unknown_mode1,
        bit_of(f.hors_gel),
        f.unknown_mode2,
        bit_of(f.derogation),
        bit_of(f.soleil),
    );
    lemma_pack_bits(
        g.unknown_mode1,
        bit_of(g.hors_gel),
        g.unknown_mode2,
        bit_of(g.derogation),
        bit_of(g.soleil),
    );
}

/// A satellite message; the variant is selected by the frame's declared length.
#[derive(Debug, PartialEq)]
#[allow(inconsistent_fields)]
pub enum SatellitePayload {
    /// Length 17.
    SatelliteInitMessage { static_part: [u8; 7], message_part: [u8; 4] },
    /// Length 8: two data bytes.
    SatelliteInitEmptyMessage { data: Vec<u8> },
    /// Length 10: the answer to an association broadcast.
    SatelliteAssocationAnnounceMessage { unknown: u8, version: [u8; 3] },
    /// Length 23: room temperature and setpoint in tenths of a degree,
    /// little-endian, then the mode flags byte.
    SatelliteSetTemperatureMessage {
        static_part: [u8; 3],
        unknown1: u8,
        static_part_end: [u8; 3],
        unknown2: u8,
        message_static_part: [u8; 2],
        temperature: i16,
        consigne: i16,
        unknown_mode1: u8,
        hors_gel: bool,
        unknown_mode2: u8,
        derogation: bool,
        soleil: bool,
        signature: [u8; 2],
    },
    /// Any other length: the raw payload bytes.
    SatelliteUnknowMessage { data: Vec<u8> },
}

/// Lengths that select a typed satellite message.
pub open spec fn satellite_known_length(length: u8) -> bool {
    length == 17 || length == 8 || length == 10 || length == 23
}

impl SatellitePayload {
    /// The message is the one that a frame of this length decodes to.
    pub open spec fn fits(&self, length: u8) -> bool {
        match self {
            SatellitePayload::SatelliteInitMessage { .. } => length == 17,
            SatellitePayload::SatelliteInitEmptyMessage { data } => length == 8 && data@.len() == 2,
            SatellitePayload::SatelliteAssocationAnnounceMessage { .. } => length == 10,
            SatellitePayload::SatelliteSetTemperatureMessage { unknown_mode1, unknown_mode2, .. } =>
                length == 23 && *unknown_mode1 < 8 && *unknown_mode2 < 4,
            SatellitePayload::SatelliteUnknowMessage { data } => 6 <= length
                && !satellite_known_length(length) && data@.len() == length - 6,
        }
    }

    /// The payload bytes on the wire.
    pub open spec fn wire_bytes(&self) -> Seq<u8> {
        match self {
            SatellitePayload::SatelliteInitMessage { static_part, message_part } => static_part@
                + message_part@,
            SatellitePayload::SatelliteInitEmptyMessage { data } => data@,
            SatellitePayload::SatelliteAssocationAnnounceMessage { unknown, version } => seq![
                *unknown,
            ] + version@,
            SatellitePayload::SatelliteSetTemperatureMessage {
                static_part,
                unknown1,
                static_part_end,
                unknown2,
                message_static_part,
                temperature,
                consigne,
                unknown_mode1,
                hors_gel,
                unknown_mode2,
                derogation,
                soleil,
                signature,
            } => static_part@ + seq![*unknown1] + static_part_end@ + seq![*unknown2]
                + message_static_part@ + i16_le(*temperature) + i16_le(*consigne) + seq![
                ModeFlags {
                    unknown_mode1: *unknown_mode1,
                    hors_gel: *hors_gel,
                    unknown_mode2: *unknown_mode2,
                    derogation: *derogation,
                    soleil: *soleil,
                }.packed(),
            ] + signature@,
            SatellitePayload::SatelliteUnknowMessage { data } => data@,
        }
    }

    /// Field-by-field equality, byte vectors compared by content.
    pub open spec fn same_as(&self, other: &SatellitePayload) -> bool {
        match (self, other) {
            (
                SatellitePayload::SatelliteInitMessage { static_part: a1, message_part: b1 },
                SatellitePayload::SatelliteInitMessage { static_part: a2, message_part: b2 },
            ) => a1 == a2 && b1 == b2,
            (
                SatellitePayload::SatelliteInitEmptyMessage { data: d1 },
                SatellitePayload::SatelliteInitEmptyMessage { data: d2 },
            ) => d1@ == d2@,
            (
                SatellitePayload::SatelliteAssocationAnnounceMessage { unknown: u1, version: v1 },
                SatellitePayload::SatelliteAssocationAnnounceMessage { unknown: u2, version: v2 },
            ) => u1 == u2 && v1 == v2,
            (
                SatellitePayload::SatelliteSetTemperatureMessage { .. },
                SatellitePayload::SatelliteSetTemperatureMessage { .. },
            ) => self == other,
            (
                SatellitePayload::SatelliteUnknowMessage { data: d1 },
                SatellitePayload::SatelliteUnknowMessage { data: d2 },
            ) => d1@ == d2@,
            _ => false,
        }
    }

    /// Decodes the payload of a satellite frame of the given length.
    pub fn decode(payload: &[u8], length: u8) -> (r: SatellitePayload)
        requires
            6 <= length,
            payload@.len() == length - 6,
        ensures
            r.fits(length),
            r.wire_bytes() == payload@,
    {
        if length == 17 {
            let static_part: [u8; 7] = read_array(payload, 0);
            let message_part: [u8; 4] = read_array(payload, 7);
            assert(payload@ =~= static_part@ + message_part@);
            SatellitePayload::SatelliteInitMessage { static_part, message_part }
        } else if length == 8 {
            SatellitePayload::SatelliteInitEmptyMessage { data: slice_to_vec(payload) }
        } else if length == 10 {
            let unknown = payload[0];
            let version: [u8; 3] = read_array(payload, 1);
            assert(payload@ =~= seq![unknown] + version@);
            SatellitePayload::SatelliteAssocationAnnounceMessage { unknown, version }
        } else if length == 23 {
            let static_part: [u8; 3] = read_array(payload, 0);
            let unknown1 = payload[3];
            let static_part_end: [u8; 3] = read_array(payload, 4);
            let unknown2 = payload[7];
            let message_static_part: [u8; 2] = read_array(payload, 8);
            let temperature = read_i16_le(payload[10], payload[11]);
            let consigne = read_i16_le(payload[12], payload[13]);
            let flags = unpack_flags(payload[14]);
            let signature: [u8; 2] = read_array(payload, 15);
            let r = SatellitePayload::SatelliteSetTemperatureMessage {
                static_part,
                unknown1,
                static_part_end,
                unknown2,
                message_static_part,
                temperature,
                consigne,
                unknown_mode1: flags.unknown_mode1,
                hors_gel: flags.hors_gel,
                unknown_mode2: flags.unknown_mode2,
                derogation: flags.derogation,
                soleil: flags.soleil,
                signature,
            };
            assert(r.wire_bytes() =~= payload@);
            r
        } else {
            SatellitePayload::SatelliteUnknowMessage { data: slice_to_vec(payload) }
        }
    }

    /// Tells whether the message is the one a frame of this length decodes to.
    pub fn check(&self, length: u8) -> (r: bool)
        ensures
            r == self.fits(length),
    {
        match self {
            SatellitePayload::SatelliteInitMessage { .. } => length == 17,
            SatellitePayload::SatelliteInitEmptyMessage { data } => length == 8 && data.len() == 2,
            SatellitePayload::SatelliteAssocationAnnounceMessage { .. } => length == 10,
            SatellitePayload::SatelliteSetTemperatureMessage { unknown_mode1, unknown_mode2, .. } =>
                length == 23 && *unknown_mode1 < 8 && *unknown_mode2 < 4,
            SatellitePayload::SatelliteUnknowMessage { data } => 6 <= length && length != 17
                && length != 8 && length != 10 && length != 23 && data.len() == (length - 6) as usize,
        }
    }

    /// Every packed field fits its bit width.
    pub open spec fn encodable(&self) -> bool {
        match self {
            SatellitePayload::SatelliteSetTemperatureMessage { unknown_mode1, unknown_mode2, .. } =>
                *unknown_mode1 < 8 && *unknown_mode2 < 4,
            _ => true,
        }
    }

    /// Appends the payload bytes to `out`.
    pub fn encode_into(&self, out: &mut Vec<u8>)
        requires
            self.encodable(),
        ensures
            final(out)@ == old(out)@ + self.wire_bytes(),
    {
        match self {
            SatellitePayload::SatelliteInitMessage { static_part, message_part } => {
                append_bytes(out, static_part);
                append_bytes(out, message_part);
            },
            SatellitePayload::SatelliteInitEmptyMessage { data } => append_bytes(out, data),
            SatellitePayload::SatelliteAssocationAnnounceMessage { unknown, version } => {
                out.push(*unknown);
                append_bytes(out, version);
            },
            SatellitePayload::SatelliteSetTemperatureMessage {
                static_part,
                unknown1,
                static_part_end,
                unknown2,
                message_static_part,
                temperature,
                consigne,
                unknown_mode1,
                hors_gel,
                unknown_mode2,
                derogation,
                soleil,
                signature,
            } => {
                append_bytes(out, static_part);
                out.push(*unknown1);
                append_bytes(out, static_part_end);
                out.push(*unknown2);
                append_bytes(out, message_static_part);
                out.push(*temperature as u8);
                out.push(((*temperature as u16) >> 8u16) as u8);
                out.push(*consigne as u8);
                out.push(((*consigne as u16) >> 8u16) as u8);
                let flags = ModeFlags {
                    unknown_mode1: *unknown_mode1,
                    hors_gel: *hors_gel,
                    unknown_mode2: *unknown_mode2,
                    derogation: *derogation,
                    soleil: *soleil,
                };
                out.push(pack_flags(flags));
                append_bytes(out, signature);
            },
            SatellitePayload::SatelliteUnknowMessage { data } => append_bytes(out, data),
        }
        assert(final(out)@ =~= old(out)@ + self.wire_bytes());
    }

    /// A message that fits a length takes exactly `length - 6` bytes.
    pub proof fn lemma_wire_length(&self, length: u8)
        requires
            self.fits(length),
        ensures
            self.wire_bytes().len() == length - 6,
    {
    }

    /// Two messages that fit the same length and share their bytes are the same.
    pub proof fn lemma_injective(&self, other: &SatellitePayload, length: u8)
        requires
            self.fits(length),
            other.fits(length),
            self.wire_bytes() == other.wire_bytes(),
        ensures
            self.same_as(other),
    {
        let w = self.wire_bytes();
        match (self, other) {
            (
                SatellitePayload::SatelliteInitMessage { static_part: a1, message_part: b1 },
                SatellitePayload::SatelliteInitMessage { static_part: a2, message_part: b2 },
            ) => {
                assert(a1@ =~= w.subrange(0, 7) && a2@ =~= w.subrange(0, 7));
                assert(b1@ =~= w.subrange(7, 11) && b2@ =~= w.subrange(7, 11));
                assert(a1 =~= a2 && b1 =~= b2);
            },
            (
                SatellitePayload::SatelliteAssocationAnnounceMessage { unknown: u1, version: v1 },
                SatellitePayload::SatelliteAssocationAnnounceMessage { unknown: u2, version: v2 },
            ) => {
                assert(w[0] == *u1 && w[0] == *u2);
                assert(v1@ =~= w.subrange(1, 4) && v2@ =~= w.subrange(1, 4));
                assert(v1 =~= v2);
            },
            (
                SatellitePayload::SatelliteSetTemperatureMessage {
                    static_part: sp1,
                    unknown1: x1,
                    static_part_end: se1,
                    unknown2: y1,
                    message_static_part: ms1,
                    temperature: t1,
                    consigne: c1,
                    unknown_mode1: m11,
                    hors_gel: h1,
                    unknown_mode2: m21,
                    derogation: d1,
                    soleil: s1,
                    signature: g1,
                },
                SatellitePayload::SatelliteSetTemperatureMessage {
                    static_part: sp2,
                    unknown1: x2,
                    static_part_end: se2,
                    unknown2: y2,
                    message_static_part: ms2,
                    temperature: t2,
                    consigne: c2,
                    unknown_mode1: m12,
                    hors_gel: h2,
                    unknown_mode2: m22,
                    derogation: d2,
                    soleil: s2,
                    signature: g2,
                },
            ) => {
                let w2 = other.wire_bytes();
                assert(sp1@ =~= w.subrange(0, 3) && sp2@ =~= w2.subrange(0, 3));
                assert(sp1 =~= sp2);
                assert(w[3] == *x1 && w2[3] == *x2);
                assert(se1@ =~= w.subrange(4, 7) && se2@ =~= w2.subrange(4, 7));
                assert(se1 =~= se2);
                assert(w[7] == *y1 && w2[7] == *y2);
                assert(ms1@ =~= w.subrange(8, 10) && ms2@ =~= w2.subrange(8, 10));
                assert(ms1 =~= ms2);
                assert(i16_le(*t1) =~= w.subrange(10, 12) && i16_le(*t2) =~= w2.subrange(10, 12));
                lemma_i16_le_injective(*t1, *t2);
                assert(i16_le(*c1) =~= w.subrange(12, 14) && i16_le(*c2) =~= w2.subrange(12, 14));
                lemma_i16_le_injective(*c1, *c2);
                let f1 = ModeFlags {
                    unknown_mode1: *m11,
                    hors_gel: *h1,
                    unknown_mode2: *m21,
                    derogation: *d1,
                    soleil: *s1,
                };
                let f2 = ModeFlags {
                    unknown_mode1: *m12,
                    hors_gel: *h2,
                    unknown_mode2: *m22,
                    derogation: *d2,
                    soleil: *s2,
                };
                assert(w[14] == f1.packed() && w2[14] == f2.packed());
                lemma_flags_round_trip(f1, f2);
                assert(g1@ =~= w.subrange(15, 17) && g2@ =~= w2.subrange(15, 17));
                assert(g1 =~= g2);
            },
            _ => {},
        }
    }
}

} // verus!
