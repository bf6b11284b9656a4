//! Dispatch from a buffer's type byte to a typed packet value.
//!
//! The wire layout is `[length][type][fields...]`, so the tag is the second
//! byte; a tag with no typed representation is rejected as malformed, as is a
//! buffer too short for the selected layout.

use vstd::prelude::*;

use crate::packets::connack::{spec_connack_code_from_byte, ConnackPacket};
use crate::packets::connect::ConnectPacket;
use crate::packets::puback::PubackPacket;
use crate::packets::publish::PublishPacket;
use crate::packets::regack::RegackPacket;
use crate::packets::register::RegisterPacket;
use crate::packet_types::spec_be16;
use crate::value_objects::flags::Flags;
use crate::value_objects::packet_types::{spec_packet_type_from_byte, MqttSnPacketType};
use crate::value_objects::return_codes::spec_return_code_from_byte;
use crate::value_objects::topic_id::{TopicId, TopicIdType};
use vstd::utf8::valid_utf8;

verus! {

/// A parsed typed packet, one variant per representation the parser knows.
#[derive(Debug, Clone)]
pub enum ParsedPacket {
    Connect(ConnectPacket),
    Connack(ConnackPacket),
    Publish(PublishPacket),
    Puback(PubackPacket),
    Register(RegisterPacket),
    Regack(RegackPacket),
}

/// Whether a buffer fits the layout its type byte selects: a supported type,
/// enough bytes for that type's reader (for the variable-length connect and
/// publish layouts, a declared length within the buffer), and, for a
/// register, textual name bytes.
pub open spec fn spec_parseable(b: Seq<u8>) -> bool {
    b.len() >= 2 && {
        let t = spec_packet_type_from_byte(b[1]);
        if t == MqttSnPacketType::Connect {
            6 <= b[0] as int <= b.len()
        } else if t == MqttSnPacketType::Connack {
            b.len() >= 3
        } else if t == MqttSnPacketType::Publish {
            7 <= b[0] as int <= b.len()
        } else if t == MqttSnPacketType::Puback {
            b.len() >= 6
        } else if t == MqttSnPacketType::Register {
            b.len() >= 5 && valid_utf8(b.subrange(5, b.len() as int))
        } else if t == MqttSnPacketType::Regack {
            b.len() >= 6
        } else {
            false
        }
    }
}

/// Reads the typed packet a buffer's type byte selects; `None` when the type
/// is unsupported or the buffer does not fit that type's layout.
pub fn parse_packet(bytes: &Vec<u8>) -> (r: Option<ParsedPacket>)
    ensures
        r is Some <==> spec_parseable(bytes@),
        r matches Some(p) ==> match p {
            ParsedPacket::Connect(c) => spec_packet_type_from_byte(bytes@[1])
                == MqttSnPacketType::Connect && c.msg_type == spec_packet_type_from_byte(bytes@[1])
                && c.flags == bytes@[2] && c.protocol_id == bytes@[3] && c.duration == spec_be16(
                bytes@[4],
                bytes@[5],
            ) && c.client_id@ == bytes@.subrange(6, bytes@[0] as int),
            ParsedPacket::Connack(c) => spec_packet_type_from_byte(bytes@[1])
                == MqttSnPacketType::Connack && c.msg_type == spec_packet_type_from_byte(bytes@[1])
                && c.return_code == spec_connack_code_from_byte(bytes@[2]),
            ParsedPacket::Publish(c) => spec_packet_type_from_byte(bytes@[1])
                == MqttSnPacketType::Publish && c.flags == Flags::spec_from_byte(bytes@[2])
                && c.msg_id == spec_be16(bytes@[5], bytes@[6]) && c.data@ == bytes@.subrange(
                7,
                bytes@[0] as int,
            ),
            ParsedPacket::Puback(c) => spec_packet_type_from_byte(bytes@[1])
                == MqttSnPacketType::Puback && c.topic_id == TopicId::Normal(
                spec_be16(bytes@[1], bytes@[2]),
            ) && c.msg_id == spec_be16(bytes@[3], bytes@[4]) && c.return_code
                == spec_return_code_from_byte(bytes@[5]),
            ParsedPacket::Register(c) => spec_packet_type_from_byte(bytes@[1])
                == MqttSnPacketType::Register && c.topic_id == spec_be16(bytes@[1], bytes@[2])
                && c.message_id == spec_be16(bytes@[3], bytes@[4]) && vstd::utf8::encode_utf8(
                c.topic_name@,
            ) == bytes@.subrange(5, bytes@.len() as int),
            ParsedPacket::Regack(c) => spec_packet_type_from_byte(bytes@[1])
                == MqttSnPacketType::Regack && c.topic_id == spec_be16(bytes@[1], bytes@[2])
                && c.msg_id == spec_be16(bytes@[3], bytes@[4]) && c.return_code == bytes@[5],
        },
{
    if bytes.len() < 2 {
        return None;
    }
    let packet_type: MqttSnPacketType = bytes[1].into();
    match packet_type {
        MqttSnPacketType::Connect => {
            let declared = bytes[0] as usize;
            if declared < 6 || declared > bytes.len() {
                None
            } else {
                Some(ParsedPacket::Connect(ConnectPacket::from_bytes(bytes)))
            }
        },
        MqttSnPacketType::Connack => {
            if bytes.len() < 3 {
                None
            } else {
                Some(ParsedPacket::Connack(ConnackPacket::from_bytes(bytes)))
            }
        },
        MqttSnPacketType::Publish => {
            let declared = bytes[0] as usize;
            if declared < 7 || declared > bytes.len() {
                None
            } else {
                Some(ParsedPacket::Publish(PublishPacket::from_bytes(bytes)))
            }
        },
        MqttSnPacketType::Puback => {
            if bytes.len() < 6 {
                None
            } else {
                Some(ParsedPacket::Puback(PubackPacket::from_bytes(bytes)))
            }
        },
        MqttSnPacketType::Register => {
            if bytes.len() < 5 {
                None
            } else {
                match RegisterPacket::try_from_bytes(bytes) {
                    Some(p) => Some(ParsedPacket::Register(p)),
                    None => None,
                }
            }
        },
        MqttSnPacketType::Regack => {
            if bytes.len() < 6 {
                None
            } else {
                Some(ParsedPacket::Regack(RegackPacket::from_bytes(bytes)))
            }
        },
        _ => None,
    }
}

} // verus!
