//! Whole frames: the header, the dispatch on the source address and the
//! declared length, and the laws that tie decoding to encoding.
//!
//! On the wire a frame is `[length][to][from][request_id: 2, big-endian]
//! [req_or_answer][msg_type]` followed by `length - 6` payload bytes.
use vstd::prelude::*;
use vstd::slice::slice_subrange;

use crate::bytes::{lemma_u16_be_injective, read_u16_be, u16_be};
use crate::chaudiere::{chaudiere_known_length, ChaudierePayload};
use crate::satellite::{satellite_known_length, SatellitePayload};
use crate::sonde::{sonde_known_length, SondePayload};

verus! {

/// The header of every frame.
#[derive(Debug, Clone, Copy, PartialEq, Eq, Structural)]
pub struct FrisquetMetadata {
    /// Number of bytes that follow this one; also selects the message variant.
    pub length: u8,
    pub to_addr: u8,
    pub from_addr: u8,
    pub request_id: u16,
    /// High bit set on an answer.
    pub req_or_answer: u8,
    pub msg_type: u8,
}

impl FrisquetMetadata {
    /// The seven header bytes.
    pub open spec fn wire_bytes(&self) -> Seq<u8> {
        seq![self.length, self.to_addr, self.from_addr] + u16_be(self.request_id) + seq![
            self.req_or_answer,
            self.msg_type,
        ]
    }
}

/// The device category, given by the source address.
#[derive(Debug, Clone, Copy, PartialEq, Eq, Structural)]
pub enum Family {
    Satellite,
    Sonde,
    Chaudiere,
}

/// The family that sends from an address: `0x08` to `0x0a` a satellite,
/// `0x20` a probe, `0x80` the boiler.
pub open spec fn family_of(addr: u8) -> Option<Family> {
    if 0x08 <= addr <= 0x0a {
        Some(Family::Satellite)
    } else if addr == 0x20 {
        Some(Family::Sonde)
    } else if addr == 0x80 {
        Some(Family::Chaudiere)
    } else {
        None
    }
}

/// The family that sends from `addr`, if any.
pub fn source_family(addr: u8) -> (r: Option<Family>)
    ensures
        r == family_of(addr),
{
    if 0x08 <= addr && addr <= 0x0a {
        Some(Family::Satellite)
    } else if addr == 0x20 {
        Some(Family::Sonde)
    } else if addr == 0x80 {
        Some(Family::Chaudiere)
    } else {
        None
    }
}

/// Lengths that select a typed message of the family.
pub open spec fn known_length(family: Family, length: u8) -> bool {
    match family {
        Family::Satellite => satellite_known_length(length),
        Family::Sonde => sonde_known_length(length),
        Family::Chaudiere => chaudiere_known_length(length),
    }
}

/// The payload of a frame, by family.
#[derive(Debug, PartialEq)]
pub enum FrisquetData {
    Satellite(SatellitePayload),
    Chaudiere(ChaudierePayload),
    Sonde(SondePayload),
}

impl FrisquetData {
    /// The family whose messages the payload belongs to.
    pub open spec fn family(&self) -> Family {
        match self {
            FrisquetData::Satellite(_) => Family::Satellite,
            FrisquetData::Chaudiere(_) => Family::Chaudiere,
            FrisquetData::Sonde(_) => Family::Sonde,
        }
    }

    /// The payload is the one that a frame of this length decodes to.
    pub open spec fn fits(&self, length: u8) -> bool {
        match self {
            FrisquetData::Satellite(p) => p.fits(length),
            FrisquetData::Chaudiere(p) => p.fits(length),
            FrisquetData::Sonde(p) => p.fits(length),
        }
    }

    /// The payload bytes on the wire.
    pub open spec fn wire_bytes(&self) -> Seq<u8> {
        match self {
            FrisquetData::Satellite(p) => p.wire_bytes(),
            FrisquetData::Chaudiere(p) => p.wire_bytes(),
            FrisquetData::Sonde(p) => p.wire_bytes(),
        }
    }

    /// Same family, same message (byte vectors compared by content).
    pub open spec fn same_as(&self, other: &FrisquetData) -> bool {
        match (self, other) {
            (FrisquetData::Satellite(p), FrisquetData::Satellite(q)) => p.same_as(q),
            (FrisquetData::Chaudiere(p), FrisquetData::Chaudiere(q)) => p.same_as(q),
            (FrisquetData::Sonde(p), FrisquetData::Sonde(q)) => p.same_as(q),
            _ => false,
        }
    }

    /// The payload is its family's catch-all variant, holding `bytes`.
    pub open spec fn is_unknown_with(&self, bytes: Seq<u8>) -> bool {
        match self {
            FrisquetData::Satellite(SatellitePayload::SatelliteUnknowMessage { data }) => data@
                == bytes,
            FrisquetData::Chaudiere(ChaudierePayload::ChaudiereUnknownMessage { data }) => data@
                == bytes,
            FrisquetData::Sonde(SondePayload::SondeUnknownMessage { data }) => data@ == bytes,
            _ => false,
        }
    }

    /// Tells whether the payload is the one a frame of this length decodes to.
    pub fn check(&self, length: u8) -> (r: bool)
        ensures
            r == self.fits(length),
    {
        match self {
            FrisquetData::Satellite(p) => p.check(length),
            FrisquetData::Chaudiere(p) => p.check(length),
            FrisquetData::Sonde(p) => p.check(length),
        }
    }
}

/// One complete protocol message.
#[derive(Debug, PartialEq)]
pub struct Frame {
    pub metadata: FrisquetMetadata,
    pub data: FrisquetData,
}

impl Frame {
    /// The header and payload agree: the source address names the payload's
    /// family and the declared length selects its variant.
    pub open spec fn wf(&self) -> bool {
        &&& 6 <= self.metadata.length
        &&& family_of(self.metadata.from_addr) == Some(self.data.family())
        &&& self.data.fits(self.metadata.length)
    }

    /// The bytes of the frame on the wire.
    pub open spec fn wire_bytes(&self) -> Seq<u8> {
        self.metadata.wire_bytes() + self.data.wire_bytes()
    }

    /// Same header, same payload (byte vectors compared by content).
    pub open spec fn same_as(&self, other: &Frame) -> bool {
        self.metadata == other.metadata && self.data.same_as(&other.data)
    }
}

/// Why bytes are not a frame, or a frame cannot be encoded.
#[derive(Debug, Clone, Copy, PartialEq, Eq, Structural)]
pub enum FrameError {
    /// Fewer than seven header bytes, or a declared length under six.
    MalformedHeader,
    /// The source address belongs to no known family.
    UnknownSource,
    /// Fewer payload bytes than the header declares.
    TruncatedPayload,
    /// The header and payload of a frame to encode disagree.
    Inconsistent,
    /// Frame text that is not an even number of hexadecimal digits.
    MalformedHex,
}

/// The error that decoding `b` ends in, if any.
pub open spec fn decode_error(b: Seq<u8>) -> Option<FrameError> {
    if b.len() < 7 || b[0] < 6 {
        Some(FrameError::MalformedHeader)
    } else if family_of(b[2]) is None {
        Some(FrameError::UnknownSource)
    } else if b.len() < b[0] + 1 {
        Some(FrameError::TruncatedPayload)
    } else {
        None
    }
}

/// `f` is what `b` decodes to: the well-formed frame whose bytes are the
/// first `length + 1` bytes of `b`.
pub open spec fn decodes_to(b: Seq<u8>, f: Frame) -> bool {
    &&& decode_error(b) is None
    &&& f.wf()
    &&& f.wire_bytes() == b.subrange(0, b[0] + 1)
}

/// Decodes one frame from the start of `b`; bytes past its declared length
/// are ignored.
pub fn decode_frame(b: &[u8]) -> (r: Result<Frame, FrameError>)
    ensures
        match decode_error(b@) {
            Some(e) => r == Err::<Frame, FrameError>(e),
            None => r is Ok && decodes_to(b@, r->Ok_0),
        },
{
    if b.len() < 7 || b[0] < 6 {
        return Err(FrameError::MalformedHeader);
    }
    let length = b[0];
    let metadata = FrisquetMetadata {
        length,
        to_addr: b[1],
        from_addr: b[2],
        request_id: read_u16_be(b[3], b[4]),
        req_or_answer: b[5],
        msg_type: b[6],
    };
    let family = match source_family(b[2]) {
        Some(f) => f,
        None => return Err(FrameError::UnknownSource),
    };
    if b.len() < length as usize + 1 {
        return Err(FrameError::TruncatedPayload);
    }
    let payload = slice_subrange(b, 7, length as usize + 1);
    let data = match family {
        Family::Satellite => FrisquetData::Satellite(SatellitePayload::decode(payload, length)),
        Family::Sonde => FrisquetData::Sonde(SondePayload::decode(payload, length)),
        Family::Chaudiere => FrisquetData::Chaudiere(ChaudierePayload::decode(payload, length)),
    };
    let f = Frame { metadata, data };
    assert(metadata.wire_bytes() =~= b@.subrange(0, 7));
    assert(f.wire_bytes() =~= b@.subrange(0, length + 1));
    Ok(f)
}

/// The declared length that selects `data` within its family, if any.
pub fn declared_length(data: &FrisquetData) -> (r: Option<u8>)
    ensures
        r is Some ==> data.fits(r->Some_0),
        r is Some ==> forall|l: u8| #[trigger] data.fits(l) ==> l == r->Some_0,
        r is None ==> forall|l: u8| !(#[trigger] data.fits(l)),
{
    let r = match data {
        FrisquetData::Satellite(p) => match p {
            SatellitePayload::SatelliteInitMessage { .. } => Some(17u8),
            SatellitePayload::SatelliteInitEmptyMessage { .. } => Some(8),
            SatellitePayload::SatelliteAssocationAnnounceMessage { .. } => Some(10),
            SatellitePayload::SatelliteSetTemperatureMessage { .. } => Some(23),
            SatellitePayload::SatelliteUnknowMessage { data } => unknown_length(data.len()),
        },
        FrisquetData::Sonde(p) => match p {
            SondePayload::SondeTemperatureMessage { .. } => Some(17),
            SondePayload::SondeAssociationAnnounceMessage { .. } => Some(6),
            SondePayload::SondeInitMessage { .. } => Some(8),
            SondePayload::SondeUnknownMessage { data } => unknown_length(data.len()),
        },
        FrisquetData::Chaudiere(p) => match p {
            ChaudierePayload::ChaudiereAssociationBroadcast { .. } => Some(11),
            ChaudierePayload::ChaudiereSondeResponseMessage { .. } => Some(15),
            ChaudierePayload::ChaudiereSetTemperatureMessageResponse { .. } => Some(49),
            ChaudierePayload::ChaudiereToSatelliteUnknownMessageResponse { .. } => Some(55),
            ChaudierePayload::ChaudiereUnknownMessage { data } => unknown_length(data.len()),
        },
    };
    match r {
        Some(l) => if data.check(l) {
            r
        } else {
            None
        },
        None => None,
    }
}

/// `n + 6`, if it fits a byte.
fn unknown_length(n: usize) -> (r: Option<u8>)
    ensures
        r is Some <==> n + 6 <= 255,
        r is Some ==> r->Some_0 == n + 6,
{
    if n <= 249 {
        Some(n as u8 + 6)
    } else {
        None
    }
}

/// Frames `data` for sending: the header takes the given fields and the
/// length that selects `data`. Fails when `data` fits no length or does not
/// belong to the family of `from_addr`.
pub fn encode_message(
    from_addr: u8,
    to_addr: u8,
    request_id: u16,
    req_or_answer: u8,
    msg_type: u8,
    data: FrisquetData,
) -> (r: Result<Vec<u8>, FrameError>)
    ensures
        r is Ok <==> family_of(from_addr) == Some(data.family()) && exists|l: u8|
            6 <= l && #[trigger] data.fits(l),
        r is Ok ==> ({
            let b = r->Ok_0@;
            &&& data.fits(b[0])
            &&& b == (FrisquetMetadata {
                length: b[0],
                to_addr,
                from_addr,
                request_id,
                req_or_answer,
                msg_type,
            }).wire_bytes() + data.wire_bytes()
        }),
        r is Err ==> r->Err_0 == FrameError::Inconsistent,
{
    let length = match declared_length(&data) {
        Some(l) => l,
        None => return Err(FrameError::Inconsistent),
    };
    let f = Frame {
        metadata: FrisquetMetadata { length, to_addr, from_addr, request_id, req_or_answer, msg_type },
        data,
    };
    let r = encode_frame(&f);
    proof {
        if r is Ok {
            assert(r->Ok_0@[0] == length);
        }
    }
    r
}

/// Encodes a frame; fails exactly when its header and payload disagree.
pub fn encode_frame(f: &Frame) -> (r: Result<Vec<u8>, FrameError>)
    ensures
        r is Ok <==> f.wf(),
        r is Ok ==> r->Ok_0@ == f.wire_bytes(),
        r is Err ==> r->Err_0 == FrameError::Inconsistent,
{
    let m = f.metadata;
    let family_ok = match (source_family(m.from_addr), &f.data) {
        (Some(Family::Satellite), FrisquetData::Satellite(_)) => true,
        (Some(Family::Sonde), FrisquetData::Sonde(_)) => true,
        (Some(Family::Chaudiere), FrisquetData::Chaudiere(_)) => true,
        _ => false,
    };
    if m.length < 6 || !family_ok || !f.data.check(m.length) {
        return Err(FrameError::Inconsistent);
    }
    let mut out: Vec<u8> = Vec::new();
    out.push(m.length);
    out.push(m.to_addr);
    out.push(m.from_addr);
    out.push((m.request_id >> 8u16) as u8);
    out.push(m.request_id as u8);
    out.push(m.req_or_answer);
    out.push(m.msg_type);
    assert(out@ =~= m.wire_bytes());
    match &f.data {
        FrisquetData::Satellite(p) => p.encode_into(&mut out),
        FrisquetData::Chaudiere(p) => p.encode_into(&mut out),
        FrisquetData::Sonde(p) => p.encode_into(&mut out),
    }
    Ok(out)
}

/// A well-formed frame takes `length + 1` bytes, its payload `length - 6`.
pub proof fn lemma_wire_length(f: Frame)
    requires
        f.wf(),
    ensures
        f.data.wire_bytes().len() == f.metadata.length - 6,
        f.wire_bytes().len() == f.metadata.length + 1,
{
    match f.data {
        FrisquetData::Satellite(p) => p.lemma_wire_length(f.metadata.length),
        FrisquetData::Chaudiere(p) => p.lemma_wire_length(f.metadata.length),
        FrisquetData::Sonde(p) => p.lemma_wire_length(f.metadata.length),
    }
}

/// Two well-formed frames with the same bytes are the same frame.
pub proof fn lemma_frame_injective(f: Frame, g: Frame)
    requires
        f.wf(),
        g.wf(),
        f.wire_bytes() == g.wire_bytes(),
    ensures
        f.same_as(&g),
{
    let w = f.wire_bytes();
    assert(f.metadata.wire_bytes() =~= w.subrange(0, 7));
    assert(g.metadata.wire_bytes() =~= w.subrange(0, 7));
    assert(u16_be(f.metadata.request_id) =~= w.subrange(3, 5));
    assert(u16_be(g.metadata.request_id) =~= w.subrange(3, 5));
    lemma_u16_be_injective(f.metadata.request_id, g.metadata.request_id);
    assert(f.metadata.wire_bytes()[0] == w[0] && g.metadata.wire_bytes()[0] == w[0]);
    assert(f.metadata.wire_bytes()[1] == w[1] && g.metadata.wire_bytes()[1] == w[1]);
    assert(f.metadata.wire_bytes()[2] == w[2] && g.metadata.wire_bytes()[2] == w[2]);
    assert(f.metadata.wire_bytes()[5] == w[5] && g.metadata.wire_bytes()[5] == w[5]);
    assert(f.metadata.wire_bytes()[6] == w[6] && g.metadata.wire_bytes()[6] == w[6]);
    assert(f.metadata == g.metadata);
    let len = f.metadata.length;
    assert(f.data.wire_bytes() =~= w.subrange(7, w.len() as int));
    assert(g.data.wire_bytes() =~= w.subrange(7, w.len() as int));
    match (f.data, g.data) {
        (FrisquetData::Satellite(p), FrisquetData::Satellite(q)) => p.lemma_injective(&q, len),
        (FrisquetData::Chaudiere(p), FrisquetData::Chaudiere(q)) => p.lemma_injective(&q, len),
        (FrisquetData::Sonde(p), FrisquetData::Sonde(q)) => p.lemma_injective(&q, len),
        _ => {},
    }
}

/// Round trip: the bytes of a well-formed frame number `length + 1`, decode
/// without error, and decode to that same frame.
pub proof fn lemma_round_trip(f: Frame, g: Frame)
    requires
        f.wf(),
    ensures
        f.wire_bytes().len() == f.metadata.length + 1,
        decode_error(f.wire_bytes()) is None,
        decodes_to(f.wire_bytes(), g) ==> g.same_as(&f),
{
    lemma_wire_length(f);
    let w = f.wire_bytes();
    assert(w[0] == f.metadata.length && w[2] == f.metadata.from_addr);
    assert(w.subrange(0, w[0] + 1) =~= w);
    if decodes_to(w, g) {
        lemma_frame_injective(g, f);
    }
}

/// A message framed for sending (see [`encode_message`]) takes `length + 1`
/// bytes, its payload `length - 6`, and decodes back to the header and payload
/// it was framed from.
pub proof fn lemma_message_round_trip(m: FrisquetMetadata, data: FrisquetData, g: Frame)
    requires
        family_of(m.from_addr) == Some(data.family()),
        6 <= m.length,
        data.fits(m.length),
    ensures
        ({
            let b = m.wire_bytes() + data.wire_bytes();
            &&& b.len() == m.length + 1
            &&& data.wire_bytes().len() == m.length - 6
            &&& decode_error(b) is None
            &&& decodes_to(b, g) ==> g.metadata == m && g.data.same_as(&data)
        }),
{
    let f = Frame { metadata: m, data };
    lemma_round_trip(f, g);
    lemma_wire_length(f);
}

/// A length that no typed variant of the family claims decodes to the
/// family's catch-all variant holding exactly the `length - 6` payload bytes,
/// and the frame encodes back to the bytes it came from.
pub proof fn lemma_unknown_preserved(b: Seq<u8>, f: Frame)
    requires
        decodes_to(b, f),
        !known_length(family_of(b[2])->Some_0, b[0]),
    ensures
        f.data.is_unknown_with(b.subrange(7, b[0] + 1)),
        f.wire_bytes() == b.subrange(0, b[0] + 1),
{
    let w = f.wire_bytes();
    assert(f.metadata.wire_bytes() =~= w.subrange(0, 7));
    assert(f.metadata.wire_bytes()[0] == w[0] && f.metadata.wire_bytes()[2] == w[2]);
    assert(f.data.wire_bytes() =~= w.subrange(7, w.len() as int));
    assert(w.subrange(7, w.len() as int) =~= b.subrange(7, b[0] + 1));
}

} // verus!
