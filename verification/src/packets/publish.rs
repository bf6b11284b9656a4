//! PUBLISH as a typed value: application data for a topic, with decoded
//! flags and a typed topic identifier.
//!
//! Layout: `[7 + n, type, flags, topic_id, msg_id, data...]`; the topic
//! identifier's form follows the topic-id-type bits of the flags.

use vstd::prelude::*;

use crate::packet_types::spec_be16;
use crate::traits::packet::MqttSnPacket;
use crate::value_objects::flags::Flags;
use crate::value_objects::packet_types::{spec_packet_type_byte, MqttSnPacketType};
use crate::value_objects::topic_id::{TopicId, TopicIdType};

verus! {

/// PUBLISH as a typed value.
#[derive(Debug, Clone)]
pub struct PublishPacket {
    pub msg_type: MqttSnPacketType,
    pub flags: Flags,
    pub topic_id: TopicId,
    pub msg_id: u16,
    pub data: Vec<u8>,
}

impl PublishPacket {
    /// Reads a PUBLISH buffer: the flags byte decides how the topic
    /// identifier is read, and the data is what lies between the fixed
    /// header and the declared length — exactly that many bytes, whatever
    /// the buffer's capacity beyond it.
    pub fn from_bytes(bytes: &Vec<u8>) -> (r: Self)
        requires
            7 <= bytes@[0] as int <= bytes@.len(),
        ensures
            r.msg_type == MqttSnPacketType::Publish,
            r.flags == Flags::spec_from_byte(bytes@[2]),
            r.topic_id == match Flags::spec_from_byte(bytes@[2]).topic_id_type {
                TopicIdType::Normal => TopicId::Normal(spec_be16(bytes@[3], bytes@[4])),
                TopicIdType::Predefined => TopicId::Predefined(spec_be16(bytes@[3], bytes@[4])),
                TopicIdType::Short => TopicId::Short(spec_be16(bytes@[3], bytes@[4])),
            },
            r.msg_id == spec_be16(bytes@[5], bytes@[6]),
            r.data@ == bytes@.subrange(7, bytes@[0] as int),
    {
        let declared = bytes[0] as usize;
        let flags = Flags::from_byte(bytes[2]);
        let topic_field = vstd::slice::slice_subrange(bytes.as_slice(), 3, 5);
        PublishPacket {
            msg_type: MqttSnPacketType::Publish,
            flags,
            topic_id: TopicId::from_bytes(topic_field, flags.topic_id_type),
            msg_id: (bytes[5] as u16) * 256 + (bytes[6] as u16),
            data: vstd::slice::slice_to_vec(
                vstd::slice::slice_subrange(bytes.as_slice(), 7, declared),
            ),
        }
    }
}

impl MqttSnPacket for PublishPacket {
    /// Seven header bytes plus the data; data too long for the one-byte
    /// length saturates at 255.
    fn get_length(&self) -> (r: u8)
        ensures
            self.data@.len() <= 248 ==> r as int == 7 + self.data@.len(),
    {
        if self.data.len() <= 248 {
            7 + self.data.len() as u8
        } else {
            255
        }
    }

    fn get_type(&self) -> (r: MqttSnPacketType)
        ensures
            r == MqttSnPacketType::Publish,
    {
        MqttSnPacketType::Publish
    }

    fn as_bytes(&self) -> (r: Vec<u8>)
        ensures
            self.data@.len() <= 248 ==> r@ == seq![
                (7 + self.data@.len()) as u8,
                spec_packet_type_byte(self.msg_type),
                self.flags.spec_as_byte(),
            ] + self.topic_id.spec_bytes() + seq![
                (self.msg_id / 256) as u8,
                (self.msg_id % 256) as u8,
            ] + self.data@,
    {
        let mut bytes: Vec<u8> = Vec::new();
        bytes.push(self.get_length());
        bytes.push(self.msg_type.into());
        bytes.push(self.flags.as_byte());
        let topic_bytes = self.topic_id.as_bytes();
        crate::packet_types::push_bytes(&mut bytes, &topic_bytes);
        bytes.push((self.msg_id / 256) as u8);
        bytes.push((self.msg_id % 256) as u8);
        crate::packet_types::push_bytes(&mut bytes, &self.data);
        proof {
            if self.data@.len() <= 248 {
                assert(bytes@ =~= seq![
                    (7 + self.data@.len()) as u8,
                    spec_packet_type_byte(self.msg_type),
                    self.flags.spec_as_byte(),
                ] + self.topic_id.spec_bytes() + seq![
                    (self.msg_id / 256) as u8,
                    (self.msg_id % 256) as u8,
                ] + self.data@);
            }
        }
        bytes
    }
}

} // verus!
