//! The radio transport that the handshake drives.
use vstd::prelude::*;

verus! {

/// Blocking access to the radio: either a message broker bridged to an RF
/// gateway or a serial link to an RF modem. Errors are described in text.
pub trait RFClient {
    /// Joins the radio network with this 4-byte identity.
    fn set_network_id(&mut self, network_id: Vec<u8>) -> Result<(), String>;

    /// Waits for the next frame and returns its bytes.
    fn receive(&mut self) -> Result<Vec<u8>, String>;

    /// Transmits one encoded frame.
    fn send(&mut self, payload: Vec<u8>) -> Result<(), String>;

    /// Puts the radio module in standby.
    fn sleep(&mut self) -> Result<(), String>;
}

} // verus!
