//! CONNACK as a typed value: the gateway's verdict on a CONNECT.
//!
//! Layout: `[0x03, type, return_code]`.

use vstd::prelude::*;

use crate::traits::packet::MqttSnPacket;
use crate::value_objects::packet_types::{
    spec_packet_type_byte, spec_packet_type_from_byte, MqttSnPacketType,
};

verus! {

/// The gateway's verdict on a CONNECT.
#[derive(Debug, Clone, Copy, PartialEq, Eq, Structural)]
pub enum ConnackReturnCode {
    Accepted,
    RejectedCongestion,
    RejectedInvalidTopicId,
    RejectedNotSupported,
}

/// The verdict named by a byte; unassigned bytes are read as `Accepted`.
pub open spec fn spec_connack_code_from_byte(byte: u8) -> ConnackReturnCode {
    match byte {
        0x01 => ConnackReturnCode::RejectedCongestion,
        0x02 => ConnackReturnCode::RejectedInvalidTopicId,
        0x03 => ConnackReturnCode::RejectedNotSupported,
        _ => ConnackReturnCode::Accepted,
    }
}

/// The byte of a verdict.
pub open spec fn spec_connack_code_byte(code: ConnackReturnCode) -> u8 {
    match code {
        ConnackReturnCode::Accepted => 0x00,
        ConnackReturnCode::RejectedCongestion => 0x01,
        ConnackReturnCode::RejectedInvalidTopicId => 0x02,
        ConnackReturnCode::RejectedNotSupported => 0x03,
    }
}

impl From<u8> for ConnackReturnCode {
    fn from(byte: u8) -> (r: Self) {
        match byte {
            0x01 => ConnackReturnCode::RejectedCongestion,
            0x02 => ConnackReturnCode::RejectedInvalidTopicId,
            0x03 => ConnackReturnCode::RejectedNotSupported,
            _ => ConnackReturnCode::Accepted,
        }
    }
}

impl vstd::std_specs::convert::FromSpecImpl<u8> for ConnackReturnCode {
    open spec fn obeys_from_spec() -> bool {
        true
    }

    open spec fn from_spec(v: u8) -> Self {
        spec_connack_code_from_byte(v)
    }
}

impl From<ConnackReturnCode> for u8 {
    fn from(return_code: ConnackReturnCode) -> (r: Self) {
        match return_code {
            ConnackReturnCode::Accepted => 0x00,
            ConnackReturnCode::RejectedCongestion => 0x01,
            ConnackReturnCode::RejectedInvalidTopicId => 0x02,
            ConnackReturnCode::RejectedNotSupported => 0x03,
        }
    }
}

impl vstd::std_specs::convert::FromSpecImpl<ConnackReturnCode> for u8 {
    open spec fn obeys_from_spec() -> bool {
        true
    }

    open spec fn from_spec(v: ConnackReturnCode) -> Self {
        spec_connack_code_byte(v)
    }
}

/// CONNACK as a typed value.
#[derive(Debug, Clone, PartialEq, Eq, Structural)]
pub struct ConnackPacket {
    pub msg_type: MqttSnPacketType,
    pub return_code: ConnackReturnCode,
}

impl ConnackPacket {
    /// Reads the type tag and verdict out of a CONNACK buffer.
    pub fn from_bytes(bytes: &Vec<u8>) -> (r: Self)
        requires
            bytes@.len() >= 3,
        ensures
            r.msg_type == spec_packet_type_from_byte(bytes@[1]),
            r.return_code == spec_connack_code_from_byte(bytes@[2]),
    {
        ConnackPacket { msg_type: bytes[1].into(), return_code: bytes[2].into() }
    }
}

impl MqttSnPacket for ConnackPacket {
    fn get_length(&self) -> (r: u8)
        ensures
            r == 3,
    {
        0x03
    }

    fn get_type(&self) -> (r: MqttSnPacketType)
        ensures
            r == MqttSnPacketType::Connack,
    {
        MqttSnPacketType::Connack
    }

    fn as_bytes(&self) -> (r: Vec<u8>)
        ensures
            r@ == seq![
                3u8,
                spec_packet_type_byte(self.msg_type),
                spec_connack_code_byte(self.return_code),
            ],
    {
        let mut bytes: Vec<u8> = Vec::new();
        bytes.push(3);
        bytes.push(self.msg_type.into());
        bytes.push(self.return_code.clone().into());
        proof {
            assert(bytes@ =~= seq![
                3u8,
                spec_packet_type_byte(self.msg_type),
                spec_connack_code_byte(self.return_code),
            ]);
        }
        bytes
    }
}

} // verus!
