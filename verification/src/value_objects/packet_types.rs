//! The message-type tag as a closed enum, with its byte encoding.

use vstd::prelude::*;

verus! {

/// Every MQTT-SN message type, plus `Unknown` for unassigned bytes.
#[derive(Debug, PartialEq, Eq, Structural, Clone, Copy)]
pub enum MqttSnPacketType {
    Advertise,
    Searchgw,
    Gwinfo,
    Connect,
    Connack,
    Willtopicreq,
    Willtopic,
    Willmsgreq,
    Willmsg,
    Register,
    Regack,
    Publish,
    Puback,
    Pubcomp,
    Pubrec,
    Pubrel,
    Subscribe,
    Suback,
    Unsubscribe,
    Unsuback,
    Pingreq,
    Pingresp,
    Disconnect,
    Willtopicupd,
    Willtopicresp,
    Willmsgupd,
    Willmsgresp,
    Encapsulated,
    Frwdencap,
    Unknown,
}

/// The message type named by a type byte.
pub open spec fn spec_packet_type_from_byte(byte: u8) -> MqttSnPacketType {
    match byte {
        0x00 => MqttSnPacketType::Advertise,
        0x01 => MqttSnPacketType::Searchgw,
        0x02 => MqttSnPacketType::Gwinfo,
        0x04 => MqttSnPacketType::Connect,
        0x05 => MqttSnPacketType::Connack,
        0x06 => MqttSnPacketType::Willtopicreq,
        0x07 => MqttSnPacketType::Willtopic,
        0x08 => MqttSnPacketType::Willmsgreq,
        0x09 => MqttSnPacketType::Willmsg,
        0x0A => MqttSnPacketType::Register,
        0x0B => MqttSnPacketType::Regack,
        0x0C => MqttSnPacketType::Publish,
        0x0D => MqttSnPacketType::Puback,
        0x0E => MqttSnPacketType::Pubcomp,
        0x0F => MqttSnPacketType::Pubrec,
        0x10 => MqttSnPacketType::Pubrel,
        0x12 => MqttSnPacketType::Subscribe,
        0x13 => MqttSnPacketType::Suback,
        0x14 => MqttSnPacketType::Unsubscribe,
        0x15 => MqttSnPacketType::Unsuback,
        0x16 => MqttSnPacketType::Pingreq,
        0x17 => MqttSnPacketType::Pingresp,
        0x18 => MqttSnPacketType::Disconnect,
        0x1A => MqttSnPacketType::Willtopicupd,
        0x1B => MqttSnPacketType::Willtopicresp,
        0x1C => MqttSnPacketType::Willmsgupd,
        0x1D => MqttSnPacketType::Willmsgresp,
        0x1E => MqttSnPacketType::Encapsulated,
        0x1F => MqttSnPacketType::Frwdencap,
        _ => MqttSnPacketType::Unknown,
    }
}

/// The type byte of a message type; `Unknown` is written as 0xFF.
pub open spec fn spec_packet_type_byte(packet_type: MqttSnPacketType) -> u8 {
    match packet_type {
        MqttSnPacketType::Advertise => 0x00,
        MqttSnPacketType::Searchgw => 0x01,
        MqttSnPacketType::Gwinfo => 0x02,
        MqttSnPacketType::Connect => 0x04,
        MqttSnPacketType::Connack => 0x05,
        MqttSnPacketType::Willtopicreq => 0x06,
        MqttSnPacketType::Willtopic => 0x07,
        MqttSnPacketType::Willmsgreq => 0x08,
        MqttSnPacketType::Willmsg => 0x09,
        MqttSnPacketType::Register => 0x0A,
        MqttSnPacketType::Regack => 0x0B,
        MqttSnPacketType::Publish => 0x0C,
        MqttSnPacketType::Puback => 0x0D,
        MqttSnPacketType::Pubcomp => 0x0E,
        MqttSnPacketType::Pubrec => 0x0F,
        MqttSnPacketType::Pubrel => 0x10,
        MqttSnPacketType::Subscribe => 0x12,
        MqttSnPacketType::Suback => 0x13,
        MqttSnPacketType::Unsubscribe => 0x14,
        MqttSnPacketType::Unsuback => 0x15,
        MqttSnPacketType::Pingreq => 0x16,
        MqttSnPacketType::Pingresp => 0x17,
        MqttSnPacketType::Disconnect => 0x18,
        MqttSnPacketType::Willtopicupd => 0x1A,
        MqttSnPacketType::Willtopicresp => 0x1B,
        MqttSnPacketType::Willmsgupd => 0x1C,
        MqttSnPacketType::Willmsgresp => 0x1D,
        MqttSnPacketType::Encapsulated => 0x1E,
        MqttSnPacketType::Frwdencap => 0x1F,
        MqttSnPacketType::Unknown => 0xFF,
    }
}

impl From<u8> for MqttSnPacketType {
    fn from(byte: u8) -> (r: Self) {
        match byte {
            0x00 => MqttSnPacketType::Advertise,
            0x01 => MqttSnPacketType::Searchgw,
            0x02 => MqttSnPacketType::Gwinfo,
            0x04 => MqttSnPacketType::Connect,
            0x05 => MqttSnPacketType::Connack,
            0x06 => MqttSnPacketType::Willtopicreq,
            0x07 => MqttSnPacketType::Willtopic,
            0x08 => MqttSnPacketType::Willmsgreq,
            0x09 => MqttSnPacketType::Willmsg,
            0x0A => MqttSnPacketType::Register,
            0x0B => MqttSnPacketType::Regack,
            0x0C => MqttSnPacketType::Publish,
            0x0D => MqttSnPacketType::Puback,
            0x0E => MqttSnPacketType::Pubcomp,
            0x0F => MqttSnPacketType::Pubrec,
            0x10 => MqttSnPacketType::Pubrel,
            0x12 => MqttSnPacketType::Subscribe,
            0x13 => MqttSnPacketType::Suback,
            0x14 => MqttSnPacketType::Unsubscribe,
            0x15 => MqttSnPacketType::Unsuback,
            0x16 => MqttSnPacketType::Pingreq,
            0x17 => MqttSnPacketType::Pingresp,
            0x18 => MqttSnPacketType::Disconnect,
            0x1A => MqttSnPacketType::Willtopicupd,
            0x1B => MqttSnPacketType::Willtopicresp,
            0x1C => MqttSnPacketType::Willmsgupd,
            0x1D => MqttSnPacketType::Willmsgresp,
            0x1E => MqttSnPacketType::Encapsulated,
            0x1F => MqttSnPacketType::Frwdencap,
            _ => MqttSnPacketType::Unknown,
        }
    }
}

impl vstd::std_specs::convert::FromSpecImpl<u8> for MqttSnPacketType {
    open spec fn obeys_from_spec() -> bool {
        true
    }

    open spec fn from_spec(v: u8) -> Self {
        spec_packet_type_from_byte(v)
    }
}

impl From<MqttSnPacketType> for u8 {
    fn from(packet_type: MqttSnPacketType) -> (r: Self) {
        match packet_type {
            MqttSnPacketType::Advertise => 0x00,
            MqttSnPacketType::Searchgw => 0x01,
            MqttSnPacketType::Gwinfo => 0x02,
            MqttSnPacketType::Connect => 0x04,
            MqttSnPacketType::Connack => 0x05,
            MqttSnPacketType::Willtopicreq => 0x06,
            MqttSnPacketType::Willtopic => 0x07,
            MqttSnPacketType::Willmsgreq => 0x08,
            MqttSnPacketType::Willmsg => 0x09,
            MqttSnPacketType::Register => 0x0A,
            MqttSnPacketType::Regack => 0x0B,
            MqttSnPacketType::Publish => 0x0C,
            MqttSnPacketType::Puback => 0x0D,
            MqttSnPacketType::Pubcomp => 0x0E,
            MqttSnPacketType::Pubrec => 0x0F,
            MqttSnPacketType::Pubrel => 0x10,
            MqttSnPacketType::Subscribe => 0x12,
            MqttSnPacketType::Suback => 0x13,
            MqttSnPacketType::Unsubscribe => 0x14,
            MqttSnPacketType::Unsuback => 0x15,
            MqttSnPacketType::Pingreq => 0x16,
            MqttSnPacketType::Pingresp => 0x17,
            MqttSnPacketType::Disconnect => 0x18,
            MqttSnPacketType::Willtopicupd => 0x1A,
            MqttSnPacketType::Willtopicresp => 0x1B,
            MqttSnPacketType::Willmsgupd => 0x1C,
            MqttSnPacketType::Willmsgresp => 0x1D,
            MqttSnPacketType::Encapsulated => 0x1E,
            MqttSnPacketType::Frwdencap => 0x1F,
            MqttSnPacketType::Unknown => 0xFF,
        }
    }
}

impl vstd::std_specs::convert::FromSpecImpl<MqttSnPacketType> for u8 {
    open spec fn obeys_from_spec() -> bool {
        true
    }

    open spec fn from_spec(v: MqttSnPacketType) -> Self {
        spec_packet_type_byte(v)
    }
}

impl MqttSnPacketType {
    /// The name of this message type, as it reads in logs.
    pub open spec fn spec_name(self) -> Seq<char> {
        match self {
            MqttSnPacketType::Advertise => "Advertise"@,
            MqttSnPacketType::Searchgw => "Searchgw"@,
            MqttSnPacketType::Gwinfo => "Gwinfo"@,
            MqttSnPacketType::Connect => "Connect"@,
            MqttSnPacketType::Connack => "Connack"@,
            MqttSnPacketType::Willtopicreq => "Willtopicreq"@,
            MqttSnPacketType::Willtopic => "Willtopic"@,
            MqttSnPacketType::Willmsgreq => "Willmsgreq"@,
            MqttSnPacketType::Willmsg => "Willmsg"@,
            MqttSnPacketType::Register => "Register"@,
            MqttSnPacketType::Regack => "Regack"@,
            MqttSnPacketType::Publish => "Publish"@,
            MqttSnPacketType::Puback => "Puback"@,
            MqttSnPacketType::Pubcomp => "Pubcomp"@,
            MqttSnPacketType::Pubrec => "Pubrec"@,
            MqttSnPacketType::Pubrel => "Pubrel"@,
            MqttSnPacketType::Subscribe => "Subscribe"@,
            MqttSnPacketType::Suback => "Suback"@,
            MqttSnPacketType::Unsubscribe => "Unsubscribe"@,
            MqttSnPacketType::Unsuback => "Unsuback"@,
            MqttSnPacketType::Pingreq => "Pingreq"@,
            MqttSnPacketType::Pingresp => "Pingresp"@,
            MqttSnPacketType::Disconnect => "Disconnect"@,
            MqttSnPacketType::Willtopicupd => "Willtopicupd"@,
            MqttSnPacketType::Willtopicresp => "Willtopicresp"@,
            MqttSnPacketType::Willmsgupd => "Willmsgupd"@,
            MqttSnPacketType::Willmsgresp => "Willmsgresp"@,
            MqttSnPacketType::Encapsulated => "Encapsulated"@,
            MqttSnPacketType::Frwdencap => "Frwdencap"@,
            MqttSnPacketType::Unknown => "Unknown"@,
        }
    }

    /// The name of this message type as an owned string.
    pub fn to_string(&self) -> (r: String)
        ensures
            r@ == self.spec_name(),
    {
        match self {
            MqttSnPacketType::Advertise => "Advertise".to_owned(),
            MqttSnPacketType::Searchgw => "Searchgw".to_owned(),
            MqttSnPacketType::Gwinfo => "Gwinfo".to_owned(),
            MqttSnPacketType::Connect => "Connect".to_owned(),
            MqttSnPacketType::Connack => "Connack".to_owned(),
            MqttSnPacketType::Willtopicreq => "Willtopicreq".to_owned(),
            MqttSnPacketType::Willtopic => "Willtopic".to_owned(),
            MqttSnPacketType::Willmsgreq => "Willmsgreq".to_owned(),
            MqttSnPacketType::Willmsg => "Willmsg".to_owned(),
            MqttSnPacketType::Register => "Register".to_owned(),
            MqttSnPacketType::Regack => "Regack".to_owned(),
            MqttSnPacketType::Publish => "Publish".to_owned(),
            MqttSnPacketType::Puback => "Puback".to_owned(),
            MqttSnPacketType::Pubcomp => "Pubcomp".to_owned(),
            MqttSnPacketType::Pubrec => "Pubrec".to_owned(),
            MqttSnPacketType::Pubrel => "Pubrel".to_owned(),
            MqttSnPacketType::Subscribe => "Subscribe".to_owned(),
            MqttSnPacketType::Suback => "Suback".to_owned(),
            MqttSnPacketType::Unsubscribe => "Unsubscribe".to_owned(),
            MqttSnPacketType::Unsuback => "Unsuback".to_owned(),
            MqttSnPacketType::Pingreq => "Pingreq".to_owned(),
            MqttSnPacketType::Pingresp => "Pingresp".to_owned(),
            MqttSnPacketType::Disconnect => "Disconnect".to_owned(),
            MqttSnPacketType::Willtopicupd => "Willtopicupd".to_owned(),
            MqttSnPacketType::Willtopicresp => "Willtopicresp".to_owned(),
            MqttSnPacketType::Willmsgupd => "Willmsgupd".to_owned(),
            MqttSnPacketType::Willmsgresp => "Willmsgresp".to_owned(),
            MqttSnPacketType::Encapsulated => "Encapsulated".to_owned(),
            MqttSnPacketType::Frwdencap => "Frwdencap".to_owned(),
            MqttSnPacketType::Unknown => "Unknown".to_owned(),
        }
    }
}

} // verus!
