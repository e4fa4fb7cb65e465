//! The pairing handshake of a new probe with the boiler.
//!
//! The handshake is a state machine: each call of [`Association::step`] takes
//! what happened to the previous operations and returns the next transport
//! operations to carry out, in order. The caller performs them; when the last
//! one is a receive it reports the frame that arrived, otherwise that the
//! operations completed, and on any transport failure it reports the error.
use vstd::prelude::*;

use crate::bytes::{i16_be, read_u16_be, u16_be};
use crate::proto::{decode_error, decode_frame, encode_message, FrisquetData};
use crate::sonde::SondePayload;

verus! {

/// Address of a probe.
pub const SONDE_ADDR: u8 = 0x20;

/// Address of the boiler.
pub const CHAUDIERE_ADDR: u8 = 0x80;

/// Delay before switching network and before sending the init message, in ms.
pub const SWITCH_DELAY_MS: u32 = 200;

/// Delay before each temperature report while awaiting the boiler, in ms.
pub const RETRY_DELAY_MS: u32 = 1000;

/// Request id of the temperature reports sent while pairing.
pub const REPORT_REQUEST_ID: u16 = 0x8784;

/// Where the handshake stands.
#[derive(Debug, Clone, Copy, PartialEq, Eq)]
pub enum AssociationState {
    Idle,
    /// Listening on the broadcast network for the boiler's offer.
    AwaitingBroadcast,
    /// The announce was sent; the boiler's network is still to be joined.
    Announced { network_id: [u8; 4] },
    NetworkSwitched,
    /// The init message was sent.
    Initialized,
    /// Temperature reports sent so far without an answer from the boiler.
    Confirming { attempts: u32 },
    Paired,
    /// A transport operation failed.
    Failed,
    /// The boiler did not answer within the allowed number of reports.
    TimedOut,
}

/// What happened to the operations of the previous step.
#[derive(Debug)]
pub enum Event {
    /// They completed (or the handshake is starting).
    Completed,
    /// They completed and the final receive brought these frame bytes.
    Received(Vec<u8>),
    /// One of them failed.
    TransportError,
}

/// A transport operation.
#[derive(Debug, PartialEq)]
pub enum Operation {
    SetNetworkId([u8; 4]),
    Send(Vec<u8>),
    Receive,
    /// Pause for the given number of milliseconds.
    Wait(u32),
}

/// The operation sends exactly `bytes`.
pub open spec fn sends(op: Operation, bytes: Seq<u8>) -> bool {
    match op {
        Operation::Send(v) => v@ == bytes,
        _ => false,
    }
}

/// The first operation joins the network `id`.
pub open spec fn joins(ops: Seq<Operation>, id: Seq<u8>) -> bool {
    ops.len() > 0 && ops[0] is SetNetworkId && ops[0]->SetNetworkId_0@ == id
}

/// `b` decodes to a boiler frame.
pub open spec fn boiler_frame(b: Seq<u8>) -> bool {
    decode_error(b) is None && b[2] == CHAUDIERE_ADDR
}

/// `b` decodes to the boiler's association broadcast.
pub open spec fn broadcast_frame(b: Seq<u8>) -> bool {
    boiler_frame(b) && b[0] == 11
}

/// The probe's empty answer to the broadcast `b`: same request id and type,
/// with the answer bit set.
pub open spec fn announce_bytes(b: Seq<u8>) -> Seq<u8> {
    seq![6, CHAUDIERE_ADDR, SONDE_ADDR, b[3], b[4], b[5] | 0x80, b[6]]
}

/// The probe's init message.
pub open spec fn init_bytes() -> Seq<u8> {
    seq![8, CHAUDIERE_ADDR, SONDE_ADDR, 0x83, 0x00, 1, 67, 0, 0]
}

/// A probe temperature report: fixed sensor bytes then the outdoor
/// temperature.
pub open spec fn report_bytes(request_id: u16, t: i16) -> Seq<u8> {
    seq![17, CHAUDIERE_ADDR, SONDE_ADDR] + u16_be(request_id) + seq![1, 23, 156, 84, 0, 4, 160, 41, 0, 1, 2]
        + i16_be(t)
}

/// The three operations of one report attempt.
pub open spec fn report_attempt(ops: Seq<Operation>, t: i16) -> bool {
    ops.len() == 3 && ops[0] == Operation::Wait(RETRY_DELAY_MS) && sends(ops[1], report_bytes(REPORT_REQUEST_ID, t))
        && ops[2] == Operation::Receive
}

/// The handshake has ended, paired or not.
pub open spec fn is_final(s: AssociationState) -> bool {
    s == AssociationState::Paired || s == AssociationState::Failed || s
        == AssociationState::TimedOut
}

/// The handshake of one probe.
#[derive(Debug)]
pub struct Association {
    pub state: AssociationState,
    /// Temperature reports sent before giving up.
    pub max_attempts: u32,
    /// Outdoor temperature sent in the reports, in tenths of a degree.
    pub exterior_temperature: i16,
}

fn announce_frame(rx: &[u8]) -> (r: Vec<u8>)
    requires
        broadcast_frame(rx@),
    ensures
        r@ == announce_bytes(rx@),
{
    let data = FrisquetData::Sonde(
        SondePayload::SondeAssociationAnnounceMessage { data: Vec::new() },
    );
    let request_id = read_u16_be(rx[3], rx[4]);
    match encode_message(SONDE_ADDR, CHAUDIERE_ADDR, request_id, rx[5] | 0x80, rx[6], data) {
        Ok(v) => {
            assert(v@ =~= announce_bytes(rx@));
            v
        },
        Err(_) => {
            assert(data.fits(6));
            assert(false);
            Vec::new()
        },
    }
}

/// The probe's init message.
pub fn init_frame() -> (r: Vec<u8>)
    ensures
        r@ == init_bytes(),
{
    let data = FrisquetData::Sonde(SondePayload::SondeInitMessage { data: vec![0, 0] });
    match encode_message(SONDE_ADDR, CHAUDIERE_ADDR, 0x8300, 1, 67, data) {
        Ok(v) => {
            assert((0x8300u16 >> 8u16) as u8 == 0x83u8 && 0x8300u16 as u8 == 0u8) by (bit_vector);
            assert(v@ =~= init_bytes());
            v
        },
        Err(_) => {
            assert(data.fits(8));
            assert(false);
            Vec::new()
        },
    }
}

/// A probe temperature report under the given request id.
pub fn report_frame(request_id: u16, t: i16) -> (r: Vec<u8>)
    ensures
        r@ == report_bytes(request_id, t),
{
    let sensor: [u8; 9] = [156, 84, 0, 4, 160, 41, 0, 1, 2];
    assert(sensor@ =~= seq![156u8, 84, 0, 4, 160, 41, 0, 1, 2]);
    let data = FrisquetData::Sonde(
        SondePayload::SondeTemperatureMessage { data: sensor, temperature: t },
    );
    match encode_message(SONDE_ADDR, CHAUDIERE_ADDR, request_id, 1, 23, data) {
        Ok(v) => {
            assert(v@ =~= report_bytes(request_id, t));
            v
        },
        Err(_) => {
            assert(data.fits(17));
            assert(false);
            Vec::new()
        },
    }
}

fn report_ops(t: i16) -> (r: Vec<Operation>)
    ensures
        report_attempt(r@, t),
{
    vec![
        Operation::Wait(RETRY_DELAY_MS),
        Operation::Send(report_frame(REPORT_REQUEST_ID, t)),
        Operation::Receive,
    ]
}

impl Association {
    /// A handshake that has not started.
    pub fn new(max_attempts: u32, exterior_temperature: i16) -> (r: Association)
        ensures
            r.state == AssociationState::Idle,
            r.max_attempts == max_attempts,
            r.exterior_temperature == exterior_temperature,
    {
        Association { state: AssociationState::Idle, max_attempts, exterior_temperature }
    }

    /// Tells whether the handshake has ended, paired or not.
    pub fn is_finished(&self) -> (r: bool)
        ensures
            r == is_final(self.state),
    {
        match self.state {
            AssociationState::Paired | AssociationState::Failed | AssociationState::TimedOut => true,
            _ => false,
        }
    }

    /// Advances the handshake by one event and returns the operations to
    /// perform next, in order.
    pub fn step(&mut self, event: Event) -> (ops: Vec<Operation>)
        ensures
            final(self).max_attempts == old(self).max_attempts,
            final(self).exterior_temperature == old(self).exterior_temperature,
            // a finished handshake stays as it is
            is_final(old(self).state) ==> final(self).state == old(self).state && ops@.len() == 0,
            // any transport failure ends an unfinished handshake
            !is_final(old(self).state) && event is TransportError ==> final(self).state
                == AssociationState::Failed && ops@.len() == 0,
            // start: join the broadcast network and listen
            old(self).state == AssociationState::Idle && event is Completed ==> final(self).state
                == AssociationState::AwaitingBroadcast && joins(ops@, seq![0xffu8, 0xff, 0xff, 0xff])
                && ops@.len() == 2 && ops@[1] == Operation::Receive,
            // the broadcast is answered with one announce; any other frame is ignored
            old(self).state == AssociationState::AwaitingBroadcast && event is Received ==> {
                let b = event->Received_0@;
                if broadcast_frame(b) {
                    &&& final(self).state matches AssociationState::Announced { network_id }
                        && network_id@ == b.subrange(8, 12)
                    &&& ops@.len() == 1
                    &&& sends(ops@[0], announce_bytes(b))
                } else {
                    final(self).state == old(self).state && ops@ == seq![Operation::Receive]
                }
            },
            // join the boiler's network
            old(self).state is Announced && event is Completed ==> final(self).state
                == AssociationState::NetworkSwitched && ops@ == seq![
                Operation::SetNetworkId(old(self).state->Announced_network_id),
                Operation::Wait(SWITCH_DELAY_MS),
            ],
            // send the init message
            old(self).state == AssociationState::NetworkSwitched && event is Completed ==> {
                &&& final(self).state == AssociationState::Initialized
                &&& ops@.len() == 2
                &&& sends(ops@[0], init_bytes())
                &&& ops@[1] == Operation::Wait(SWITCH_DELAY_MS)
            },
            // first temperature report
            old(self).state == AssociationState::Initialized && event is Completed ==> {
                &&& final(self).state == AssociationState::Confirming { attempts: 1 }
                &&& report_attempt(ops@, old(self).exterior_temperature)
            },
            // any boiler frame confirms the pairing; otherwise report again, up to the limit
            old(self).state is Confirming && event is Received ==> {
                let b = event->Received_0@;
                let attempts = old(self).state->Confirming_attempts;
                if boiler_frame(b) {
                    final(self).state == AssociationState::Paired && ops@.len() == 0
                } else if attempts >= old(self).max_attempts {
                    final(self).state == AssociationState::TimedOut && ops@.len() == 0
                } else {
                    &&& final(self).state == AssociationState::Confirming { attempts: (attempts + 1) as u32 }
                    &&& report_attempt(ops@, old(self).exterior_temperature)
                }
            },
            // an event that the state does not expect changes nothing
            !is_final(old(self).state) && !(event is TransportError) && !(old(self).state
                == AssociationState::Idle && event is Completed) && !(old(self).state
                == AssociationState::AwaitingBroadcast && event is Received) && !(old(
                self,
            ).state is Announced && event is Completed) && !(old(self).state
                == AssociationState::NetworkSwitched && event is Completed) && !(old(self).state
                == AssociationState::Initialized && event is Completed) && !(old(self).state
                is Confirming && event is Received) ==> final(self).state == old(self).state
                && ops@.len() == 0,
    {
        if self.is_finished() {
            return Vec::new();
        }
        match (self.state, event) {
            (_, Event::TransportError) => {
                self.state = AssociationState::Failed;
                Vec::new()
            },
            (AssociationState::Idle, Event::Completed) => {
                self.state = AssociationState::AwaitingBroadcast;
                let broadcast: [u8; 4] = [0xff, 0xff, 0xff, 0xff];
                assert(broadcast@ =~= seq![0xffu8, 0xff, 0xff, 0xff]);
                vec![Operation::SetNetworkId(broadcast), Operation::Receive]
            },
            (AssociationState::AwaitingBroadcast, Event::Received(b)) => {
                if is_boiler_frame(&b) && b[0] == 11 {
                    let network_id: [u8; 4] = crate::bytes::read_array(&b, 8);
                    self.state = AssociationState::Announced { network_id };
                    vec![Operation::Send(announce_frame(&b))]
                } else {
                    vec![Operation::Receive]
                }
            },
            (AssociationState::Announced { network_id }, Event::Completed) => {
                self.state = AssociationState::NetworkSwitched;
                vec![Operation::SetNetworkId(network_id), Operation::Wait(SWITCH_DELAY_MS)]
            },
            (AssociationState::NetworkSwitched, Event::Completed) => {
                self.state = AssociationState::Initialized;
                vec![Operation::Send(init_frame()), Operation::Wait(SWITCH_DELAY_MS)]
            },
            (AssociationState::Initialized, Event::Completed) => {
                self.state = AssociationState::Confirming { attempts: 1 };
                report_ops(self.exterior_temperature)
            },
            (AssociationState::Confirming { attempts }, Event::Received(b)) => {
                if is_boiler_frame(&b) {
                    self.state = AssociationState::Paired;
                    Vec::new()
                } else if attempts >= self.max_attempts {
                    self.state = AssociationState::TimedOut;
                    Vec::new()
                } else {
                    self.state = AssociationState::Confirming { attempts: attempts + 1 };
                    report_ops(self.exterior_temperature)
                }
            },
            _ => Vec::new(),
        }
    }
}

/// Tells whether `b` decodes to a boiler frame.
fn is_boiler_frame(b: &Vec<u8>) -> (r: bool)
    ensures
        r == boiler_frame(b@),
{
    match decode_frame(b.as_slice()) {
        Ok(_) => b[2] == CHAUDIERE_ADDR,
        Err(_) => false,
    }
}

} // verus!
