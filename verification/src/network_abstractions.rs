//! The transport abstraction: the capability contract the engine drives a
//! session over, and the frame reassembly required on stream links.
//!
//! A datagram backend delivers one packet per receive. A stream backend has
//! no message boundaries, so its receive loop feeds whatever bytes arrive
//! into a [`FrameReassembler`], which cuts them at the declared frame length.

use vstd::prelude::*;

use crate::errors::SnError;
use crate::value_objects::sensor_net_types::{CharSize, FlowControl, Parity};

verus! {

/// The capability a transport hands the engine: connection setup, one send,
/// one blocking receive bounded by the configured timeout, and teardown.
/// Implementations live with the code that owns the sockets or ports.
pub trait SensorNetwork {
    /// Performs connection setup; a no-op for an already-open link.
    fn initialize(&mut self);

    /// A human-readable description of the endpoint.
    fn get_description(&self) -> String;

    /// Blocks up to the configured timeout for one inbound message.
    fn receive(&mut self) -> Result<Vec<u8>, SnError>;

    /// Transmits one message; returns how many bytes left.
    fn send(&mut self, data: &[u8]) -> Result<usize, SnError>;

    /// The configured per-receive timeout, in seconds.
    fn get_timeout(&self) -> u64;

    /// Releases the transport's resources.
    fn close(&self);
}

/// The transports the engine can be handed.
#[derive(Debug, PartialEq, Eq, Structural, Clone, Copy)]
pub enum SensorNetworkType {
    UDP,
    SerialPort,
}

/// Initialization parameters, one variant per transport kind. The serial
/// timeout is in milliseconds.
pub enum SensorNetworkInitArgs {
    UDP { source_address: String, destination_address: String, timeout: u64 },
    SerialPort {
        port_name: String,
        baud_rate: u32,
        parity: Parity,
        data_bits: CharSize,
        flow_control: FlowControl,
        timeout_ms: u64,
    },
}

/// Reassembles stream bytes into frames. The first byte of a frame declares
/// its total length; bytes are collected until that many have arrived, and
/// anything beyond the declared length is discarded with the completed frame,
/// as a fresh frame starts with a fresh read. A leading zero byte cannot
/// declare a frame, so everything collected is dropped and reading starts
/// over.
pub struct FrameReassembler {
    buf: Vec<u8>,
}

impl FrameReassembler {
    /// The bytes collected toward the current frame.
    pub closed spec fn collected(self) -> Seq<u8> {
        self.buf@
    }

    /// An empty reassembler: nothing collected.
    pub fn new() -> (r: FrameReassembler)
        ensures
            r.collected().len() == 0,
    {
        FrameReassembler { buf: Vec::new() }
    }

    /// Feeds in the bytes of one read. A zero-byte read changes nothing.
    /// Once the collected bytes reach the length their first byte declares,
    /// the frame — exactly that many bytes — comes back and the reassembler
    /// is empty again.
    pub fn push(&mut self, chunk: &[u8]) -> (r: Option<Vec<u8>>)
        ensures
            ({
                let all = old(self).collected() + chunk@;
                if all.len() == 0 {
                    r is None && final(self).collected() == all
                } else if all[0] == 0 {
                    r is None && final(self).collected().len() == 0
                } else if all.len() >= all[0] as int {
                    &&& r matches Some(frame) && frame@ == all.subrange(0, all[0] as int)
                    &&& final(self).collected().len() == 0
                } else {
                    r is None && final(self).collected() == all
                }
            }),
    {
        let ghost all = self.buf@ + chunk@;
        let mut i: usize = 0;
        while i < chunk.len()
            invariant
                i <= chunk@.len(),
                self.buf@ == old(self).buf@ + chunk@.subrange(0, i as int),
            decreases chunk@.len() - i,
        {
            self.buf.push(chunk[i]);
            proof {
                assert(old(self).buf@ + chunk@.subrange(0, i as int) + seq![chunk@[i as int]]
                    =~= old(self).buf@ + chunk@.subrange(0, i + 1));
            }
            i = i + 1;
        }
        proof {
            assert(old(self).buf@ + chunk@.subrange(0, chunk@.len() as int) =~= all);
        }
        if self.buf.len() == 0 {
            return None;
        }
        let expected = self.buf[0] as usize;
        if expected == 0 {
            self.buf = Vec::new();
            return None;
        }
        if self.buf.len() >= expected {
            let frame = vstd::slice::slice_to_vec(
                vstd::slice::slice_subrange(self.buf.as_slice(), 0, expected),
            );
            self.buf = Vec::new();
            Some(frame)
        } else {
            None
        }
    }
}

} // verus!
