//! DISCONNECT as a typed value: ends the session, optionally asking for
//! sleep mode.
//!
//! Layout: `[0x02, type]`, or `[0x04, type, duration]` with a sleep duration.

use vstd::prelude::*;

use crate::packet_types::spec_be16;
use crate::traits::packet::MqttSnPacket;
use crate::value_objects::packet_types::{spec_packet_type_byte, MqttSnPacketType};

verus! {

/// DISCONNECT as a typed value.
#[derive(Debug, Clone, PartialEq, Eq)]
pub struct DisconnectPacket {
    pub msg_type: MqttSnPacketType,
    pub duration: Option<u16>,
}

impl DisconnectPacket {
    /// Reads a DISCONNECT buffer: two bytes carry no duration, four carry
    /// one.
    pub fn from_bytes(bytes: &Vec<u8>) -> (r: Self)
        requires
            bytes@.len() == 2 || bytes@.len() == 4,
        ensures
            r.msg_type == MqttSnPacketType::Disconnect,
            r.duration == if bytes@.len() == 4 {
                Some(spec_be16(bytes@[2], bytes@[3]))
            } else {
                None::<u16>
            },
    {
        if bytes.len() == 4 {
            DisconnectPacket {
                msg_type: MqttSnPacketType::Disconnect,
                duration: Some((bytes[2] as u16) * 256 + (bytes[3] as u16)),
            }
        } else {
            DisconnectPacket { msg_type: MqttSnPacketType::Disconnect, duration: None }
        }
    }
}

impl MqttSnPacket for DisconnectPacket {
    fn get_length(&self) -> (r: u8)
        ensures
            r == if self.duration is Some {
                4u8
            } else {
                2u8
            },
    {
        match self.duration {
            Some(_) => 0x04,
            None => 0x02,
        }
    }

    fn get_type(&self) -> (r: MqttSnPacketType)
        ensures
            r == MqttSnPacketType::Disconnect,
    {
        MqttSnPacketType::Disconnect
    }

    fn as_bytes(&self) -> (r: Vec<u8>)
        ensures
            r@ == match self.duration {
                Some(d) => seq![
                    4u8,
                    spec_packet_type_byte(self.msg_type),
                    (d / 256) as u8,
                    (d % 256) as u8,
                ],
                None => seq![2u8, spec_packet_type_byte(self.msg_type)],
            },
    {
        let mut bytes: Vec<u8> = Vec::new();
        bytes.push(self.get_length());
        bytes.push(self.msg_type.into());
        match self.duration {
            Some(duration) => {
                bytes.push((duration / 256) as u8);
                bytes.push((duration % 256) as u8);
            },
            None => {},
        }
        proof {
            match self.duration {
                Some(d) => {
                    assert(bytes@ =~= seq![
                        4u8,
                        spec_packet_type_byte(self.msg_type),
                        (d / 256) as u8,
                        (d % 256) as u8,
                    ]);
                },
                None => {
                    assert(bytes@ =~= seq![2u8, spec_packet_type_byte(self.msg_type)]);
                },
            }
        }
        bytes
    }
}

} // verus!
