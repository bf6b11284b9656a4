//! The return code carried by acknowledgement packets.

use vstd::prelude::*;

verus! {

/// Gateway verdict on a request. Anything other than `Accepted` is a
/// rejection with its reason.
#[derive(Debug, PartialEq, Eq, Structural, Clone, Copy)]
pub enum MqttSnReturnCode {
    Accepted,
    RejectedCongestion,
    RejectedInvalidTopicId,
    RejectedNotSupported,
}

/// The return code named by a byte; unassigned bytes are read as `Accepted`
/// rather than stopping the process.
pub open spec fn spec_return_code_from_byte(byte: u8) -> MqttSnReturnCode {
    match byte {
        0x01 => MqttSnReturnCode::RejectedCongestion,
        0x02 => MqttSnReturnCode::RejectedInvalidTopicId,
        0x03 => MqttSnReturnCode::RejectedNotSupported,
        _ => MqttSnReturnCode::Accepted,
    }
}

/// The byte of a return code.
pub open spec fn spec_return_code_byte(return_code: MqttSnReturnCode) -> u8 {
    match return_code {
        MqttSnReturnCode::Accepted => 0x00,
        MqttSnReturnCode::RejectedCongestion => 0x01,
        MqttSnReturnCode::RejectedInvalidTopicId => 0x02,
        MqttSnReturnCode::RejectedNotSupported => 0x03,
    }
}

impl From<u8> for MqttSnReturnCode {
    fn from(byte: u8) -> (r: Self) {
        match byte {
            0x01 => MqttSnReturnCode::RejectedCongestion,
            0x02 => MqttSnReturnCode::RejectedInvalidTopicId,
            0x03 => MqttSnReturnCode::RejectedNotSupported,
            _ => MqttSnReturnCode::Accepted,
        }
    }
}

impl vstd::std_specs::convert::FromSpecImpl<u8> for MqttSnReturnCode {
    open spec fn obeys_from_spec() -> bool {
        true
    }

    open spec fn from_spec(v: u8) -> Self {
        spec_return_code_from_byte(v)
    }
}

impl From<MqttSnReturnCode> for u8 {
    fn from(return_code: MqttSnReturnCode) -> (r: Self) {
        match return_code {
            MqttSnReturnCode::Accepted => 0x00,
            MqttSnReturnCode::RejectedCongestion => 0x01,
            MqttSnReturnCode::RejectedInvalidTopicId => 0x02,
            MqttSnReturnCode::RejectedNotSupported => 0x03,
        }
    }
}

impl vstd::std_specs::convert::FromSpecImpl<MqttSnReturnCode> for u8 {
    open spec fn obeys_from_spec() -> bool {
        true
    }

    open spec fn from_spec(v: MqttSnReturnCode) -> Self {
        spec_return_code_byte(v)
    }
}

} // verus!
