//! The reduced transport capability used by the alternative backends.

use vstd::prelude::*;

use crate::errors::SnError;

verus! {

/// A transport as the alternative backends present it: setup, one receive,
/// one send, and the configured timeout.
pub trait SensorNet {
    /// Performs connection setup.
    fn init(&mut self);

    /// A human-readable description of the endpoint.
    fn get_description(&self) -> String;

    /// Blocks up to the configured timeout for one inbound message.
    fn receive(&mut self) -> Result<Vec<u8>, SnError>;

    /// Transmits one message; returns how many bytes left.
    fn send(&mut self, data: &[u8]) -> Result<usize, SnError>;

    /// The configured timeout.
    fn get_timeout(&self) -> u64;
}

} // verus!
