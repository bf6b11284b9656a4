//! Topic identifiers: the three ways a topic is named on the wire.

use vstd::prelude::*;

verus! {

/// A resolved topic identifier. A normal id is assigned by the gateway during
/// registration, a predefined id is agreed out of band, and a short id packs
/// the two bytes of a two-byte topic name directly, first byte high.
#[derive(Debug, PartialEq, Eq, Structural, Clone, Copy)]
pub enum TopicId {
    Predefined(u16),
    Normal(u16),
    Short(u16),
}

/// The two-bit topic-id-type code carried in the flags byte.
#[derive(Debug, PartialEq, Eq, Structural, Clone, Copy)]
pub enum TopicIdType {
    Normal,
    Predefined,
    Short,
}

impl TopicIdType {
    /// The wire code of this topic-id type.
    pub open spec fn spec_byte(self) -> u8 {
        match self {
            TopicIdType::Normal => 0,
            TopicIdType::Predefined => 1,
            TopicIdType::Short => 2,
        }
    }

    /// The topic-id type encoded by the low two bits of a flags byte;
    /// the reserved code 3 is read as a short topic.
    pub open spec fn spec_from_byte(byte: u8) -> TopicIdType {
        if byte == 0 {
            TopicIdType::Normal
        } else if byte == 1 {
            TopicIdType::Predefined
        } else {
            TopicIdType::Short
        }
    }

    pub fn from_byte(byte: u8) -> (r: TopicIdType)
        ensures
            r == TopicIdType::spec_from_byte(byte),
    {
        if byte == 0 {
            TopicIdType::Normal
        } else if byte == 1 {
            TopicIdType::Predefined
        } else {
            TopicIdType::Short
        }
    }

    pub fn as_byte(&self) -> (r: u8)
        ensures
            r == self.spec_byte(),
    {
        match self {
            TopicIdType::Normal => 0,
            TopicIdType::Predefined => 1,
            TopicIdType::Short => 2,
        }
    }
}

impl TopicId {
    /// The identifier occupies two bytes on the wire, whatever its kind.
    pub open spec fn spec_len(self) -> nat {
        2
    }

    /// The big-endian bytes of this identifier.
    pub open spec fn spec_bytes(self) -> Seq<u8> {
        match self {
            TopicId::Normal(id) => seq![(id / 256) as u8, (id % 256) as u8],
            TopicId::Predefined(id) => seq![(id / 256) as u8, (id % 256) as u8],
            TopicId::Short(id) => seq![(id / 256) as u8, (id % 256) as u8],
        }
    }

    /// Reads a big-endian identifier of the given type from the front of
    /// `bytes`; a short identifier is the two name bytes packed as they
    /// stand.
    pub fn from_bytes(bytes: &[u8], topic_id_type: TopicIdType) -> (r: Self)
        requires
            bytes@.len() >= 2,
        ensures
            r == match topic_id_type {
                TopicIdType::Normal => TopicId::Normal((bytes@[0] * 256 + bytes@[1]) as u16),
                TopicIdType::Predefined => TopicId::Predefined(
                    (bytes@[0] * 256 + bytes@[1]) as u16,
                ),
                TopicIdType::Short => TopicId::Short((bytes@[0] * 256 + bytes@[1]) as u16),
            },
    {
        match topic_id_type {
            TopicIdType::Normal => TopicId::Normal((bytes[0] as u16) * 256 + (bytes[1] as u16)),
            TopicIdType::Predefined => TopicId::Predefined(
                (bytes[0] as u16) * 256 + (bytes[1] as u16),
            ),
            TopicIdType::Short => TopicId::Short((bytes[0] as u16) * 256 + (bytes[1] as u16)),
        }
    }

    /// Writes this identifier out as its big-endian bytes.
    pub fn as_bytes(&self) -> (r: Vec<u8>)
        ensures
            r@ == self.spec_bytes(),
    {
        match self {
            TopicId::Normal(id) => {
                let mut bytes: Vec<u8> = Vec::new();
                bytes.push((*id / 256) as u8);
                bytes.push((*id % 256) as u8);
                proof {
                    assert(bytes@ =~= self.spec_bytes());
                }
                bytes
            },
            TopicId::Predefined(id) => {
                let mut bytes: Vec<u8> = Vec::new();
                bytes.push((*id / 256) as u8);
                bytes.push((*id % 256) as u8);
                proof {
                    assert(bytes@ =~= self.spec_bytes());
                }
                bytes
            },
            TopicId::Short(id) => {
                let mut bytes: Vec<u8> = Vec::new();
                bytes.push((*id / 256) as u8);
                bytes.push((*id % 256) as u8);
                proof {
                    assert(bytes@ =~= self.spec_bytes());
                }
                bytes
            },
        }
    }
}

} // verus!
