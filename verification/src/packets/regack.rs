//! REGACK as a typed value: the gateway's answer to a registration.
//!
//! Layout: `[0x07, topic_id, msg_id, return_code]`.

use vstd::prelude::*;

use crate::packet_types::spec_be16;
use crate::traits::packet::MqttSnPacket;
use crate::value_objects::packet_types::MqttSnPacketType;

verus! {

/// REGACK as a typed value.
#[derive(Debug, Clone, PartialEq, Eq, Structural)]
pub struct RegackPacket {
    pub topic_id: u16,
    pub msg_id: u16,
    pub return_code: u8,
}

impl RegackPacket {
    /// Reads the assigned topic id, the echoed message id and the verdict
    /// out of a REGACK buffer.
    pub fn from_bytes(bytes: &Vec<u8>) -> (r: Self)
        requires
            bytes@.len() >= 6,
        ensures
            r.topic_id == spec_be16(bytes@[1], bytes@[2]),
            r.msg_id == spec_be16(bytes@[3], bytes@[4]),
            r.return_code == bytes@[5],
    {
        RegackPacket {
            topic_id: (bytes[1] as u16) * 256 + (bytes[2] as u16),
            msg_id: (bytes[3] as u16) * 256 + (bytes[4] as u16),
            return_code: bytes[5],
        }
    }
}

impl MqttSnPacket for RegackPacket {
    fn get_length(&self) -> (r: u8)
        ensures
            r == 7,
    {
        0x07
    }

    fn get_type(&self) -> (r: MqttSnPacketType)
        ensures
            r == MqttSnPacketType::Regack,
    {
        MqttSnPacketType::Regack
    }

    fn as_bytes(&self) -> (r: Vec<u8>)
        ensures
            r@ == seq![
                7u8,
                (self.topic_id / 256) as u8,
                (self.topic_id % 256) as u8,
                (self.msg_id / 256) as u8,
                (self.msg_id % 256) as u8,
                self.return_code,
            ],
    {
        let mut bytes: Vec<u8> = Vec::new();
        bytes.push(self.get_length());
        bytes.push((self.topic_id / 256) as u8);
        bytes.push((self.topic_id % 256) as u8);
        bytes.push((self.msg_id / 256) as u8);
        bytes.push((self.msg_id % 256) as u8);
        bytes.push(self.return_code);
        proof {
            assert(bytes@ =~= seq![
                7u8,
                (self.topic_id / 256) as u8,
                (self.topic_id % 256) as u8,
                (self.msg_id / 256) as u8,
                (self.msg_id % 256) as u8,
                self.return_code,
            ]);
        }
        bytes
    }
}

} // verus!
