//! The packed single-byte flags field: dup, QoS, retain, will, clean-session
//! and topic-id-type, with a lossless round trip through the byte encoding.

use vstd::prelude::*;

use crate::value_objects::topic_id::TopicIdType;

verus! {

/// Quality-of-service level. `QOSN1` is the pre-registered, no-handshake
/// publish mode.
#[derive(Debug, PartialEq, Eq, Structural, Clone, Copy)]
pub enum Qos {
    QOSN1,
    QOS0,
    QOS1,
    QOS2,
}

impl Qos {
    /// The two QoS bits, before being shifted into place.
    pub open spec fn spec_bits(self) -> u8 {
        match self {
            Qos::QOS0 => 0,
            Qos::QOS1 => 1,
            Qos::QOS2 => 2,
            Qos::QOSN1 => 3,
        }
    }

    /// The QoS level named by the two QoS bits.
    pub open spec fn spec_from_bits(bits: u8) -> Qos {
        if bits == 0 {
            Qos::QOS0
        } else if bits == 1 {
            Qos::QOS1
        } else if bits == 2 {
            Qos::QOS2
        } else {
            Qos::QOSN1
        }
    }
}

/// The decoded flags byte.
#[derive(Debug, PartialEq, Eq, Structural, Clone, Copy)]
pub struct Flags {
    pub dup: bool,
    pub qos: Qos,
    pub retain: bool,
    pub will: bool,
    pub clean_session: bool,
    pub topic_id_type: TopicIdType,
}

impl Flags {
    /// The fields packed into one byte: dup in bit 7, QoS in bits 6-5, retain
    /// in bit 4, will in bit 3, clean-session in bit 2, topic-id-type in
    /// bits 1-0.
    pub open spec fn spec_as_byte(self) -> u8 {
        ((if self.dup {
            128u8
        } else {
            0u8
        }) + self.qos.spec_bits() * 32 + (if self.retain {
            16u8
        } else {
            0u8
        }) + (if self.will {
            8u8
        } else {
            0u8
        }) + (if self.clean_session {
            4u8
        } else {
            0u8
        }) + self.topic_id_type.spec_byte()) as u8
    }

    /// The fields read back out of one byte.
    pub open spec fn spec_from_byte(byte: u8) -> Flags {
        Flags {
            dup: byte & 0x80 != 0,
            qos: Qos::spec_from_bits((byte & 0x60) >> 5),
            retain: byte & 0x10 != 0,
            will: byte & 0x08 != 0,
            clean_session: byte & 0x04 != 0,
            topic_id_type: TopicIdType::spec_from_byte(byte & 0x03),
        }
    }

    pub fn from_byte(byte: u8) -> (r: Self)
        ensures
            r == Flags::spec_from_byte(byte),
    {
        let qos_bits = (byte & 0x60) >> 5;
        let qos = if qos_bits == 0 {
            Qos::QOS0
        } else if qos_bits == 1 {
            Qos::QOS1
        } else if qos_bits == 2 {
            Qos::QOS2
        } else {
            Qos::QOSN1
        };
        let tit_bits = byte & 0x03;
        let topic_id_type = if tit_bits == 0 {
            TopicIdType::Normal
        } else if tit_bits == 1 {
            TopicIdType::Predefined
        } else {
            TopicIdType::Short
        };
        Flags {
            dup: byte & 0x80 != 0,
            qos,
            retain: byte & 0x10 != 0,
            will: byte & 0x08 != 0,
            clean_session: byte & 0x04 != 0,
            topic_id_type,
        }
    }

    pub fn as_byte(&self) -> (r: u8)
        ensures
            r == self.spec_as_byte(),
    {
        let dup_bit: u8 = if self.dup {
            128
        } else {
            0
        };
        let qos_bits: u8 = match self.qos {
            Qos::QOS0 => 0,
            Qos::QOS1 => 1,
            Qos::QOS2 => 2,
            Qos::QOSN1 => 3,
        };
        let retain_bit: u8 = if self.retain {
            16
        } else {
            0
        };
        let will_bit: u8 = if self.will {
            8
        } else {
            0
        };
        let clean_bit: u8 = if self.clean_session {
            4
        } else {
            0
        };
        let tit_bits: u8 = self.topic_id_type.as_byte();
        dup_bit + qos_bits * 32 + retain_bit + will_bit + clean_bit + tit_bits
    }

    pub fn new(
        dup: bool,
        qos: Qos,
        retain: bool,
        will: bool,
        clean_session: bool,
        topic_id_type: TopicIdType,
    ) -> (r: Self)
        ensures
            r == (Flags { dup, qos, retain, will, clean_session, topic_id_type }),
    {
        Flags { dup, qos, retain, will, clean_session, topic_id_type }
    }
}

impl From<u8> for Flags {
    fn from(byte: u8) -> (r: Self) {
        Flags::from_byte(byte)
    }
}

impl vstd::std_specs::convert::FromSpecImpl<u8> for Flags {
    open spec fn obeys_from_spec() -> bool {
        true
    }

    open spec fn from_spec(v: u8) -> Self {
        Flags::spec_from_byte(v)
    }
}

impl From<Flags> for u8 {
    fn from(flags: Flags) -> (r: Self) {
        flags.as_byte()
    }
}

impl vstd::std_specs::convert::FromSpecImpl<Flags> for u8 {
    open spec fn obeys_from_spec() -> bool {
        true
    }

    open spec fn from_spec(v: Flags) -> Self {
        v.spec_as_byte()
    }
}

/// The flags byte encoding is lossless: reading the byte written for any
/// flags value yields that value back.
pub proof fn lemma_flags_round_trip(f: Flags)
    ensures
        Flags::spec_from_byte(f.spec_as_byte()) == f,
{
    let d: u8 = if f.dup {
        128
    } else {
        0
    };
    let q: u8 = f.qos.spec_bits();
    let r: u8 = if f.retain {
        16
    } else {
        0
    };
    let w: u8 = if f.will {
        8
    } else {
        0
    };
    let c: u8 = if f.clean_session {
        4
    } else {
        0
    };
    let t: u8 = f.topic_id_type.spec_byte();
    let b: u8 = f.spec_as_byte();
    assert(b == (d + q * 32 + r + w + c + t) as u8);
    assert((d == 0 || d == 128) && q < 4 && (r == 0 || r == 16) && (w == 0 || w == 8) && (c == 0
        || c == 4) && t < 3);
    assert((d == 0 || d == 128) && q < 4 && (r == 0 || r == 16) && (w == 0 || w == 8) && (c == 0
        || c == 4) && t < 4 ==> {
        let s = (d + q * 32 + r + w + c + t) as u8;
        (s & 0x80 != 0) == (d == 128) && ((s & 0x60) >> 5) == q && (s & 0x10 != 0) == (r == 16) && (
        s & 0x08 != 0) == (w == 8) && (s & 0x04 != 0) == (c == 4) && (s & 0x03) == t
    }) by (bit_vector);
}

} // verus!
