//! REGISTER as a typed value: asks the gateway to bind a topic name, held
//! here as text, to a topic id.
//!
//! Layout: `[7 + n, topic_id, message_id, topic_name...]`.

use vstd::prelude::*;

use crate::packet_types::spec_be16;
use crate::traits::packet::MqttSnPacket;
use crate::value_objects::packet_types::MqttSnPacketType;
use vstd::string::StrSliceExecFns;
use vstd::string::StringSliceAdditionalSpecFns;
use vstd::utf8::valid_utf8;

verus! {

/// Relies on String::from_utf8: succeeds exactly on valid UTF-8, and the
/// returned string's bytes are the input bytes.
#[verifier::external_body]
fn string_from_utf8(bytes: Vec<u8>) -> (r: Option<String>)
    ensures
        r is Some <==> valid_utf8(bytes@),
        r matches Some(s) ==> vstd::utf8::encode_utf8(s@) == bytes@,
{
    match String::from_utf8(bytes) {
        Ok(s) => Some(s),
        Err(_) => None,
    }
}

/// REGISTER as a typed value.
#[derive(Debug, Clone)]
pub struct RegisterPacket {
    pub topic_id: u16,
    pub message_id: u16,
    pub topic_name: String,
}

impl RegisterPacket {
    /// Reads the topic id, message id and topic name out of a REGISTER
    /// buffer. This compact layout carries no type byte and its length byte
    /// does not span the name, so the name is everything after the fixed
    /// header, and must be text.
    pub fn from_bytes(bytes: &Vec<u8>) -> (r: Self)
        requires
            bytes@.len() >= 5,
            valid_utf8(bytes@.subrange(5, bytes@.len() as int)),
        ensures
            r.topic_id == spec_be16(bytes@[1], bytes@[2]),
            r.message_id == spec_be16(bytes@[3], bytes@[4]),
            vstd::utf8::encode_utf8(r.topic_name@) == bytes@.subrange(5, bytes@.len() as int),
    {
        match RegisterPacket::try_from_bytes(bytes) {
            Some(p) => p,
            None => unreached(),
        }
    }

    /// Reads a REGISTER buffer, if its name bytes are text.
    pub fn try_from_bytes(bytes: &Vec<u8>) -> (r: Option<Self>)
        requires
            bytes@.len() >= 5,
        ensures
            r is Some <==> valid_utf8(bytes@.subrange(5, bytes@.len() as int)),
            r matches Some(p) ==> p.topic_id == spec_be16(bytes@[1], bytes@[2]) && p.message_id
                == spec_be16(bytes@[3], bytes@[4]) && vstd::utf8::encode_utf8(p.topic_name@)
                == bytes@.subrange(5, bytes@.len() as int),
    {
        let name_bytes = vstd::slice::slice_to_vec(
            vstd::slice::slice_subrange(bytes.as_slice(), 5, bytes.len()),
        );
        match string_from_utf8(name_bytes) {
            Some(topic_name) => Some(
                RegisterPacket {
                    topic_id: (bytes[1] as u16) * 256 + (bytes[2] as u16),
                    message_id: (bytes[3] as u16) * 256 + (bytes[4] as u16),
                    topic_name,
                },
            ),
            None => None,
        }
    }
}

impl MqttSnPacket for RegisterPacket {
    /// Seven header bytes plus the topic name; a name too long for the
    /// one-byte length saturates at 255.
    fn get_length(&self) -> (r: u8)
        ensures
            vstd::utf8::encode_utf8(self.topic_name@).len() <= 248 ==> r as int == 7
                + vstd::utf8::encode_utf8(self.topic_name@).len(),
    {
        let name = self.topic_name.as_str().as_bytes_vec();
        if name.len() <= 248 {
            7 + name.len() as u8
        } else {
            255
        }
    }

    fn get_type(&self) -> (r: MqttSnPacketType)
        ensures
            r == MqttSnPacketType::Register,
    {
        MqttSnPacketType::Register
    }

    fn as_bytes(&self) -> (r: Vec<u8>)
        ensures
            vstd::utf8::encode_utf8(self.topic_name@).len() <= 248 ==> r@ == seq![
                (7 + vstd::utf8::encode_utf8(self.topic_name@).len()) as u8,
                (self.topic_id / 256) as u8,
                (self.topic_id % 256) as u8,
                (self.message_id / 256) as u8,
                (self.message_id % 256) as u8,
            ] + vstd::utf8::encode_utf8(self.topic_name@),
    {
        let mut bytes: Vec<u8> = Vec::new();
        bytes.push(self.get_length());
        bytes.push((self.topic_id / 256) as u8);
        bytes.push((self.topic_id % 256) as u8);
        bytes.push((self.message_id / 256) as u8);
        bytes.push((self.message_id % 256) as u8);
        let name = self.topic_name.as_str().as_bytes_vec();
        crate::packet_types::push_bytes(&mut bytes, &name);
        proof {
            if vstd::utf8::encode_utf8(self.topic_name@).len() <= 248 {
                assert(bytes@ =~= seq![
                    (7 + vstd::utf8::encode_utf8(self.topic_name@).len()) as u8,
                    (self.topic_id / 256) as u8,
                    (self.topic_id % 256) as u8,
                    (self.message_id / 256) as u8,
                    (self.message_id % 256) as u8,
                ] + vstd::utf8::encode_utf8(self.topic_name@));
            }
        }
        bytes
    }
}

} // verus!
