//! The capability of a packet value: its declared length, its type tag, and
//! its wire bytes.

use vstd::prelude::*;

use crate::value_objects::packet_types::MqttSnPacketType;

verus! {

/// What every packet value can do. Implementations state exactly what each
/// method returns; the trait itself promises nothing, so code generic over it
/// treats the results as opaque.
pub trait MqttSnPacket {
    /// The value of the packet's length byte.
    fn get_length(&self) -> u8;

    /// The packet's type tag.
    fn get_type(&self) -> MqttSnPacketType;

    /// The packet's wire bytes.
    fn as_bytes(&self) -> Vec<u8>;
}

} // verus!
