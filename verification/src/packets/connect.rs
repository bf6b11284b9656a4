//! CONNECT as a typed value: opens a session.
//!
//! Layout: `[6 + n, type, flags, protocol_id, duration, client_id...]`.
//! Only the will and clean-session flags are meaningful here; the protocol id
//! is always 0x01.

use vstd::prelude::*;

use crate::packet_types::spec_be16;
use crate::traits::packet::MqttSnPacket;
use crate::value_objects::packet_types::{
    spec_packet_type_byte, spec_packet_type_from_byte, MqttSnPacketType,
};

verus! {

/// CONNECT as a typed value.
#[derive(Debug, Clone)]
pub struct ConnectPacket {
    pub msg_type: MqttSnPacketType,
    pub flags: u8,
    pub protocol_id: u8,
    pub duration: u16,
    pub client_id: Vec<u8>,
}

impl ConnectPacket {
    /// Reads the fields out of a CONNECT buffer; the client id is what lies
    /// between the fixed header and the declared length — exactly that many
    /// bytes, whatever the buffer's capacity beyond it.
    pub fn from_bytes(bytes: &Vec<u8>) -> (r: Self)
        requires
            6 <= bytes@[0] as int <= bytes@.len(),
        ensures
            r.msg_type == spec_packet_type_from_byte(bytes@[1]),
            r.flags == bytes@[2],
            r.protocol_id == bytes@[3],
            r.duration == spec_be16(bytes@[4], bytes@[5]),
            r.client_id@ == bytes@.subrange(6, bytes@[0] as int),
    {
        let declared = bytes[0] as usize;
        ConnectPacket {
            msg_type: bytes[1].into(),
            flags: bytes[2],
            protocol_id: bytes[3],
            duration: (bytes[4] as u16) * 256 + (bytes[5] as u16),
            client_id: vstd::slice::slice_to_vec(
                vstd::slice::slice_subrange(bytes.as_slice(), 6, declared),
            ),
        }
    }
}

impl MqttSnPacket for ConnectPacket {
    /// Six header bytes plus the client id; a client id too long for the
    /// one-byte length saturates at 255.
    fn get_length(&self) -> (r: u8)
        ensures
            self.client_id@.len() <= 249 ==> r as int == 6 + self.client_id@.len(),
    {
        if self.client_id.len() <= 249 {
            6 + self.client_id.len() as u8
        } else {
            255
        }
    }

    fn get_type(&self) -> (r: MqttSnPacketType)
        ensures
            r == MqttSnPacketType::Connect,
    {
        MqttSnPacketType::Connect
    }

    fn as_bytes(&self) -> (r: Vec<u8>)
        ensures
            self.client_id@.len() <= 249 ==> r@ == seq![
                (6 + self.client_id@.len()) as u8,
                spec_packet_type_byte(self.msg_type),
                self.flags,
                self.protocol_id,
                (self.duration / 256) as u8,
                (self.duration % 256) as u8,
            ] + self.client_id@,
    {
        let mut bytes: Vec<u8> = Vec::new();
        bytes.push(self.get_length());
        bytes.push(self.msg_type.into());
        bytes.push(self.flags);
        bytes.push(self.protocol_id);
        bytes.push((self.duration / 256) as u8);
        bytes.push((self.duration % 256) as u8);
        crate::packet_types::push_bytes(&mut bytes, &self.client_id);
        proof {
            if self.client_id@.len() <= 249 {
                assert(bytes@ =~= seq![
                    (6 + self.client_id@.len()) as u8,
                    spec_packet_type_byte(self.msg_type),
                    self.flags,
                    self.protocol_id,
                    (self.duration / 256) as u8,
                    (self.duration % 256) as u8,
                ] + self.client_id@);
            }
        }
        bytes
    }
}

} // verus!
