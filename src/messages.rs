//! The commands and data envelopes exchanged with the radio gateway.
//!
//! Frames travel as hexadecimal text. Over the message broker each command is
//! a tagged envelope; over a serial link it is one line of text.
use vstd::prelude::*;
use vstd::utf8::encode_utf8;

use crate::common::{decode_hex, encode_hex, hex_pairs, hex_pairs_valid, hex_text};

verus! {

/// A frame received by the gateway, as hexadecimal text.
#[derive(Debug)]
pub struct DataMessage {
    pub data: String,
}

impl DataMessage {
    /// The frame bytes that the text writes, if it is an even number of
    /// hexadecimal digits.
    pub fn frame_bytes(&self) -> (r: Option<Vec<u8>>)
        ensures
            r is Some <==> hex_pairs_valid(encode_utf8(self.data@)),
            r is Some ==> r->Some_0@ == hex_pairs(encode_utf8(self.data@)),
    {
        match decode_hex(self.data.as_str().as_bytes()) {
            Ok(v) => Some(v),
            Err(_) => None,
        }
    }
}

/// A command for the gateway.
pub trait CommandMessage {

}

/// Receive the next frame.
#[derive(Debug)]
pub struct Listen {}

/// Put the radio module in standby.
#[derive(Debug)]
pub struct Sleep {}

/// Join a radio network, given as hexadecimal text.
#[derive(Debug)]
pub struct SetNetworkId {
    pub network_id: String,
}

/// Transmit a frame, given as hexadecimal text.
#[derive(Debug)]
pub struct SendData {
    pub payload: String,
}

impl CommandMessage for Listen {

}

impl CommandMessage for Sleep {

}

impl CommandMessage for SetNetworkId {

}

impl CommandMessage for SendData {

}

impl Listen {
    /// The command as a serial line, newline included.
    pub fn serial_line(&self) -> (r: String)
        ensures
            r@ == "LST:\n"@,
    {
        String::from_str("LST:\n")
    }
}

impl Sleep {
    /// The command as a serial line, newline included.
    pub fn serial_line(&self) -> (r: String)
        ensures
            r@ == "SLP:\n"@,
    {
        String::from_str("SLP:\n")
    }
}

impl SetNetworkId {
    /// The command that joins the network `id`.
    pub fn from_id(id: &[u8]) -> (r: SetNetworkId)
        ensures
            r.network_id@ == hex_text(id@),
    {
        SetNetworkId { network_id: encode_hex(id) }
    }

    /// The command as a serial line, newline included.
    pub fn serial_line(&self) -> (r: String)
        ensures
            r@ == "NID: "@ + self.network_id@ + "\n"@,
    {
        let mut line = String::from_str("NID: ");
        line.append(self.network_id.as_str());
        line.append("\n");
        line
    }
}

impl SendData {
    /// The command that transmits the frame `bytes`.
    pub fn from_frame(bytes: &[u8]) -> (r: SendData)
        ensures
            r.payload@ == hex_text(bytes@),
    {
        SendData { payload: encode_hex(bytes) }
    }

    /// The command as a serial line, newline included.
    pub fn serial_line(&self) -> (r: String)
        ensures
            r@ == "CMD: "@ + self.payload@ + "\n"@,
    {
        let mut line = String::from_str("CMD: ");
        line.append(self.payload.as_str());
        line.append("\n");
        line
    }
}

} // verus!
