//! PUBACK as a typed value: acknowledges a publish.
//!
//! Layout: `[0x07, topic_id, msg_id, return_code]`.

use vstd::prelude::*;

use crate::packet_types::spec_be16;
use crate::traits::packet::MqttSnPacket;
use crate::value_objects::packet_types::MqttSnPacketType;
use crate::value_objects::return_codes::{
    spec_return_code_byte, spec_return_code_from_byte, MqttSnReturnCode,
};
use crate::value_objects::topic_id::{TopicId, TopicIdType};

verus! {

/// PUBACK as a typed value.
#[derive(Debug, Clone, PartialEq, Eq, Structural)]
pub struct PubackPacket {
    pub msg_type: MqttSnPacketType,
    pub topic_id: TopicId,
    pub msg_id: u16,
    pub return_code: MqttSnReturnCode,
}

impl PubackPacket {
    /// Reads the echoed topic id and message id and the verdict out of a
    /// PUBACK buffer.
    pub fn from_bytes(bytes: &Vec<u8>) -> (r: Self)
        requires
            bytes@.len() >= 6,
        ensures
            r.msg_type == MqttSnPacketType::Puback,
            r.topic_id == TopicId::Normal(spec_be16(bytes@[1], bytes@[2])),
            r.msg_id == spec_be16(bytes@[3], bytes@[4]),
            r.return_code == spec_return_code_from_byte(bytes@[5]),
    {
        PubackPacket {
            msg_type: MqttSnPacketType::Puback,
            topic_id: TopicId::Normal((bytes[1] as u16) * 256 + (bytes[2] as u16)),
            msg_id: (bytes[3] as u16) * 256 + (bytes[4] as u16),
            return_code: bytes[5].into(),
        }
    }
}

impl MqttSnPacket for PubackPacket {
    fn get_length(&self) -> (r: u8)
        ensures
            r == 7,
    {
        0x07
    }

    fn get_type(&self) -> (r: MqttSnPacketType)
        ensures
            r == MqttSnPacketType::Puback,
    {
        MqttSnPacketType::Puback
    }

    fn as_bytes(&self) -> (r: Vec<u8>)
        ensures
            r@ == seq![7u8] + self.topic_id.spec_bytes() + seq![
                (self.msg_id / 256) as u8,
                (self.msg_id % 256) as u8,
                spec_return_code_byte(self.return_code),
            ],
    {
        let mut bytes: Vec<u8> = Vec::new();
        bytes.push(self.get_length());
        let topic_bytes = self.topic_id.as_bytes();
        crate::packet_types::push_bytes(&mut bytes, &topic_bytes);
        bytes.push((self.msg_id / 256) as u8);
        bytes.push((self.msg_id % 256) as u8);
        bytes.push(self.return_code.into());
        proof {
            assert(bytes@ =~= seq![7u8] + self.topic_id.spec_bytes() + seq![
                (self.msg_id / 256) as u8,
                (self.msg_id % 256) as u8,
                spec_return_code_byte(self.return_code),
            ]);
        }
        bytes
    }
}

} // verus!
