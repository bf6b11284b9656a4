//! The packet codec: every supported wire packet as a tagged variant with an
//! exact byte layout.
//!
//! Wire format, big-endian multi-byte fields: `[length:1][type:1][fields...]`.
//! The length byte is always derived from the payload, never stored, so a
//! well-formed packet's length field equals its true byte count (for the
//! forwarder envelope it is the offset of the embedded packet).

use vstd::prelude::*;

use crate::constants::{
    MQTT_SN_ADVERTISE, MQTT_SN_CONNACK, MQTT_SN_CONNECT, MQTT_SN_DISCONNECT, MQTT_SN_FRWDENCAP,
    MQTT_SN_GWINFO, MQTT_SN_PINGREQ, MQTT_SN_PINGRESP, MQTT_SN_PUBACK, MQTT_SN_PUBCOMP,
    MQTT_SN_PUBLISH, MQTT_SN_PUBREC, MQTT_SN_PUBREL, MQTT_SN_REGACK, MQTT_SN_REGISTER,
    MQTT_SN_SEARCHGW, MQTT_SN_SUBACK, MQTT_SN_SUBSCRIBE, MQTT_SN_TOPIC_TYPE_PREDEFINED,
    MQTT_SN_UNSUBACK, MQTT_SN_UNSUBSCRIBE, MQTT_SN_WILLMSG, MQTT_SN_WILLMSGREQ,
    MQTT_SN_WILLMSGRESP, MQTT_SN_WILLMSGUPD, MQTT_SN_WILLTOPIC, MQTT_SN_WILLTOPICREQ,
    MQTT_SN_WILLTOPICRESP, MQTT_SN_WILLTOPICUPD,
};
use crate::errors::SnError;

verus! {

/// A big-endian 16-bit value read from two bytes.
pub open spec fn spec_be16(hi: u8, lo: u8) -> u16 {
    (hi * 256 + lo) as u16
}

/// The high byte of a 16-bit value.
pub open spec fn be_hi(v: u16) -> u8 {
    (v / 256) as u8
}

/// The low byte of a 16-bit value.
pub open spec fn be_lo(v: u16) -> u8 {
    (v % 256) as u8
}

/// Splitting a 16-bit value into bytes and reading them back is the identity.
pub proof fn lemma_be16_split(v: u16)
    ensures
        spec_be16(be_hi(v), be_lo(v)) == v,
{
    vstd::arithmetic::div_mod::lemma_fundamental_div_mod(v as int, 256);
}

fn be16(hi: u8, lo: u8) -> (r: u16)
    ensures
        r == spec_be16(hi, lo),
{
    (hi as u16) * 256 + (lo as u16)
}

/// Appends all of `data` to `out`.
pub(crate) fn push_bytes(out: &mut Vec<u8>, data: &Vec<u8>)
    ensures
        final(out)@ == old(out)@ + data@,
{
    let mut i: usize = 0;
    while i < data.len()
        invariant
            i <= data@.len(),
            out@ == old(out)@ + data@.subrange(0, i as int),
        decreases data@.len() - i,
    {
        out.push(data[i]);
        proof {
            assert(old(out)@ + data@.subrange(0, i as int) + seq![data@[i as int]] =~= old(out)@
                + data@.subrange(0, i + 1));
        }
        i = i + 1;
    }
    proof {
        assert(data@.subrange(0, data@.len() as int) =~= data@);
    }
}

/// Copies `data[start..end]` into a fresh vector.
fn bytes_range(data: &[u8], start: usize, end: usize) -> (r: Vec<u8>)
    requires
        start <= end <= data@.len(),
    ensures
        r@ == data@.subrange(start as int, end as int),
{
    vstd::slice::slice_to_vec(vstd::slice::slice_subrange(data, start, end))
}

/// The name of a packet type byte, as it reads in logs.
pub open spec fn spec_packet_type_str(packet_type: u8) -> Seq<char> {
    if packet_type == MQTT_SN_ADVERTISE {
        "ADVERTISE"@
    } else if packet_type == MQTT_SN_SEARCHGW {
        "SEARCHGW"@
    } else if packet_type == MQTT_SN_GWINFO {
        "GWINFO"@
    } else if packet_type == MQTT_SN_CONNECT {
        "CONNECT"@
    } else if packet_type == MQTT_SN_CONNACK {
        "CONNACK"@
    } else if packet_type == MQTT_SN_WILLTOPICREQ {
        "WILLTOPICREQ"@
    } else if packet_type == MQTT_SN_WILLTOPIC {
        "WILLTOPIC"@
    } else if packet_type == MQTT_SN_WILLMSGREQ {
        "WILLMSGREQ"@
    } else if packet_type == MQTT_SN_WILLMSG {
        "WILLMSG"@
    } else if packet_type == MQTT_SN_REGISTER {
        "REGISTER"@
    } else if packet_type == MQTT_SN_REGACK {
        "REGACK"@
    } else if packet_type == MQTT_SN_PUBLISH {
        "PUBLISH"@
    } else if packet_type == MQTT_SN_PUBACK {
        "PUBACK"@
    } else if packet_type == MQTT_SN_PUBCOMP {
        "PUBCOMP"@
    } else if packet_type == MQTT_SN_PUBREC {
        "PUBREC"@
    } else if packet_type == MQTT_SN_PUBREL {
        "PUBREL"@
    } else if packet_type == MQTT_SN_SUBSCRIBE {
        "SUBSCRIBE"@
    } else if packet_type == MQTT_SN_SUBACK {
        "SUBACK"@
    } else if packet_type == MQTT_SN_UNSUBSCRIBE {
        "UNSUBSCRIBE"@
    } else if packet_type == MQTT_SN_UNSUBACK {
        "UNSUBACK"@
    } else if packet_type == MQTT_SN_PINGREQ {
        "PINGREQ"@
    } else if packet_type == MQTT_SN_PINGRESP {
        "PINGRESP"@
    } else if packet_type == MQTT_SN_DISCONNECT {
        "DISCONNECT"@
    } else if packet_type == MQTT_SN_WILLTOPICUPD {
        "WILLTOPICUPD"@
    } else if packet_type == MQTT_SN_WILLTOPICRESP {
        "WILLTOPICRESP"@
    } else if packet_type == MQTT_SN_WILLMSGUPD {
        "WILLMSGUPD"@
    } else if packet_type == MQTT_SN_WILLMSGRESP {
        "WILLMSGRESP"@
    } else if packet_type == MQTT_SN_FRWDENCAP {
        "FRWDENCAP"@
    } else {
        "UNKNOWN"@
    }
}

/// The name of a packet type byte.
pub fn mqtt_sn_packet_type_to_str(packet_type: u8) -> (r: &'static str)
    ensures
        r@ == spec_packet_type_str(packet_type),
{
    if packet_type == MQTT_SN_ADVERTISE {
        "ADVERTISE"
    } else if packet_type == MQTT_SN_SEARCHGW {
        "SEARCHGW"
    } else if packet_type == MQTT_SN_GWINFO {
        "GWINFO"
    } else if packet_type == MQTT_SN_CONNECT {
        "CONNECT"
    } else if packet_type == MQTT_SN_CONNACK {
        "CONNACK"
    } else if packet_type == MQTT_SN_WILLTOPICREQ {
        "WILLTOPICREQ"
    } else if packet_type == MQTT_SN_WILLTOPIC {
        "WILLTOPIC"
    } else if packet_type == MQTT_SN_WILLMSGREQ {
        "WILLMSGREQ"
    } else if packet_type == MQTT_SN_WILLMSG {
        "WILLMSG"
    } else if packet_type == MQTT_SN_REGISTER {
        "REGISTER"
    } else if packet_type == MQTT_SN_REGACK {
        "REGACK"
    } else if packet_type == MQTT_SN_PUBLISH {
        "PUBLISH"
    } else if packet_type == MQTT_SN_PUBACK {
        "PUBACK"
    } else if packet_type == MQTT_SN_PUBCOMP {
        "PUBCOMP"
    } else if packet_type == MQTT_SN_PUBREC {
        "PUBREC"
    } else if packet_type == MQTT_SN_PUBREL {
        "PUBREL"
    } else if packet_type == MQTT_SN_SUBSCRIBE {
        "SUBSCRIBE"
    } else if packet_type == MQTT_SN_SUBACK {
        "SUBACK"
    } else if packet_type == MQTT_SN_UNSUBSCRIBE {
        "UNSUBSCRIBE"
    } else if packet_type == MQTT_SN_UNSUBACK {
        "UNSUBACK"
    } else if packet_type == MQTT_SN_PINGREQ {
        "PINGREQ"
    } else if packet_type == MQTT_SN_PINGRESP {
        "PINGRESP"
    } else if packet_type == MQTT_SN_DISCONNECT {
        "DISCONNECT"
    } else if packet_type == MQTT_SN_WILLTOPICUPD {
        "WILLTOPICUPD"
    } else if packet_type == MQTT_SN_WILLTOPICRESP {
        "WILLTOPICRESP"
    } else if packet_type == MQTT_SN_WILLMSGUPD {
        "WILLMSGUPD"
    } else if packet_type == MQTT_SN_WILLMSGRESP {
        "WILLMSGRESP"
    } else if packet_type == MQTT_SN_FRWDENCAP {
        "FRWDENCAP"
    } else {
        "UNKNOWN"
    }
}

// Connect

/// CONNECT: opens a session, carrying the client id and keep-alive duration.
#[derive(Debug, Clone, PartialEq, Eq)]
pub struct ConnectPacket {
    pub flags: u8,
    pub protocol_id: u8,
    pub duration: u16,
    pub client_id: Vec<u8>,
}

/// Mathematical model of a CONNECT packet.
pub struct ConnectV {
    pub flags: u8,
    pub protocol_id: u8,
    pub duration: u16,
    pub client_id: Seq<u8>,
}

impl View for ConnectPacket {
    type V = ConnectV;

    open spec fn view(&self) -> ConnectV {
        ConnectV {
            flags: self.flags,
            protocol_id: self.protocol_id,
            duration: self.duration,
            client_id: self.client_id@,
        }
    }
}

impl ConnectV {
    /// The variable field fits the one-byte length.
    pub open spec fn wf(self) -> bool {
        self.client_id.len() <= 249
    }

    /// `[6 + n, 0x04, flags, protocol, duration, client_id...]`
    pub open spec fn spec_bytes(self) -> Seq<u8> {
        seq![
            (6 + self.client_id.len()) as u8,
            MQTT_SN_CONNECT,
            self.flags,
            self.protocol_id,
            be_hi(self.duration),
            be_lo(self.duration),
        ] + self.client_id
    }
}

impl ConnectPacket {
    pub fn length(&self) -> (r: u8)
        requires
            self@.wf(),
        ensures
            r as int == self@.spec_bytes().len(),
    {
        6 + self.client_id.len() as u8
    }

    pub fn msg_type(&self) -> (r: u8)
        ensures
            r == MQTT_SN_CONNECT,
    {
        MQTT_SN_CONNECT
    }

    pub fn as_bytes(&self) -> (r: Vec<u8>)
        requires
            self@.wf(),
        ensures
            r@ == self@.spec_bytes(),
    {
        let mut bytes: Vec<u8> = Vec::new();
        bytes.push(6 + self.client_id.len() as u8);
        bytes.push(MQTT_SN_CONNECT);
        bytes.push(self.flags);
        bytes.push(self.protocol_id);
        bytes.push((self.duration / 256) as u8);
        bytes.push((self.duration % 256) as u8);
        push_bytes(&mut bytes, &self.client_id);
        proof {
            assert(bytes@ =~= self@.spec_bytes());
        }
        bytes
    }
}

// Connack

/// CONNACK: the gateway's verdict on a CONNECT.
#[derive(Debug, Clone, PartialEq, Eq, Structural)]
pub struct ConnackPacket {
    pub return_code: u8,
}

impl ConnackPacket {
    /// `[3, 0x05, return_code]`
    pub open spec fn spec_bytes(self) -> Seq<u8> {
        seq![3u8, MQTT_SN_CONNACK, self.return_code]
    }

    pub fn length(&self) -> (r: u8)
        ensures
            r as int == self.spec_bytes().len(),
    {
        3
    }

    pub fn msg_type(&self) -> (r: u8)
        ensures
            r == MQTT_SN_CONNACK,
    {
        MQTT_SN_CONNACK
    }

    pub fn as_bytes(&self) -> (r: Vec<u8>)
        ensures
            r@ == self.spec_bytes(),
    {
        let mut bytes: Vec<u8> = Vec::new();
        bytes.push(3);
        bytes.push(MQTT_SN_CONNACK);
        bytes.push(self.return_code);
        proof {
            assert(bytes@ =~= self.spec_bytes());
        }
        bytes
    }
}

// Register

/// REGISTER: asks the gateway to assign a topic id to a topic name.
#[derive(Debug, Clone, PartialEq, Eq)]
pub struct RegisterPacket {
    pub topic_id: u16,
    pub message_id: u16,
    pub topic_name: Vec<u8>,
}

/// Mathematical model of a REGISTER packet.
pub struct RegisterV {
    pub topic_id: u16,
    pub message_id: u16,
    pub topic_name: Seq<u8>,
}

impl View for RegisterPacket {
    type V = RegisterV;

    open spec fn view(&self) -> RegisterV {
        RegisterV {
            topic_id: self.topic_id,
            message_id: self.message_id,
            topic_name: self.topic_name@,
        }
    }
}

impl RegisterV {
    pub open spec fn wf(self) -> bool {
        self.topic_name.len() <= 249
    }

    /// `[6 + n, 0x0A, topic_id, message_id, topic_name...]`
    pub open spec fn spec_bytes(self) -> Seq<u8> {
        seq![
            (6 + self.topic_name.len()) as u8,
            MQTT_SN_REGISTER,
            be_hi(self.topic_id),
            be_lo(self.topic_id),
            be_hi(self.message_id),
            be_lo(self.message_id),
        ] + self.topic_name
    }
}

impl RegisterPacket {
    pub fn length(&self) -> (r: u8)
        requires
            self@.wf(),
        ensures
            r as int == self@.spec_bytes().len(),
    {
        6 + self.topic_name.len() as u8
    }

    pub fn msg_type(&self) -> (r: u8)
        ensures
            r == MQTT_SN_REGISTER,
    {
        MQTT_SN_REGISTER
    }

    pub fn as_bytes(&self) -> (r: Vec<u8>)
        requires
            self@.wf(),
        ensures
            r@ == self@.spec_bytes(),
    {
        let mut bytes: Vec<u8> = Vec::new();
        bytes.push(6 + self.topic_name.len() as u8);
        bytes.push(MQTT_SN_REGISTER);
        bytes.push((self.topic_id / 256) as u8);
        bytes.push((self.topic_id % 256) as u8);
        bytes.push((self.message_id / 256) as u8);
        bytes.push((self.message_id % 256) as u8);
        push_bytes(&mut bytes, &self.topic_name);
        proof {
            assert(bytes@ =~= self@.spec_bytes());
        }
        bytes
    }
}

// Regack

/// REGACK: the gateway's verdict on a REGISTER, carrying the assigned id.
#[derive(Debug, Clone, PartialEq, Eq, Structural)]
pub struct RegackPacket {
    pub topic_id: u16,
    pub message_id: u16,
    pub return_code: u8,
}

impl RegackPacket {
    /// `[7, 0x0B, topic_id, message_id, return_code]`
    pub open spec fn spec_bytes(self) -> Seq<u8> {
        seq![
            7u8,
            MQTT_SN_REGACK,
            be_hi(self.topic_id),
            be_lo(self.topic_id),
            be_hi(self.message_id),
            be_lo(self.message_id),
            self.return_code,
        ]
    }

    pub fn length(&self) -> (r: u8)
        ensures
            r as int == self.spec_bytes().len(),
    {
        7
    }

    pub fn msg_type(&self) -> (r: u8)
        ensures
            r == MQTT_SN_REGACK,
    {
        MQTT_SN_REGACK
    }

    pub fn as_bytes(&self) -> (r: Vec<u8>)
        ensures
            r@ == self.spec_bytes(),
    {
        let mut bytes: Vec<u8> = Vec::new();
        bytes.push(7);
        bytes.push(MQTT_SN_REGACK);
        bytes.push((self.topic_id / 256) as u8);
        bytes.push((self.topic_id % 256) as u8);
        bytes.push((self.message_id / 256) as u8);
        bytes.push((self.message_id % 256) as u8);
        bytes.push(self.return_code);
        proof {
            assert(bytes@ =~= self.spec_bytes());
        }
        bytes
    }
}

// Publish

/// PUBLISH: carries application data for a topic.
#[derive(Debug, Clone, PartialEq, Eq)]
pub struct PublishPacket {
    pub flags: u8,
    pub topic_id: u16,
    pub message_id: u16,
    pub data: Vec<u8>,
}

/// Mathematical model of a PUBLISH packet.
pub struct PublishV {
    pub flags: u8,
    pub topic_id: u16,
    pub message_id: u16,
    pub data: Seq<u8>,
}

impl View for PublishPacket {
    type V = PublishV;

    open spec fn view(&self) -> PublishV {
        PublishV {
            flags: self.flags,
            topic_id: self.topic_id,
            message_id: self.message_id,
            data: self.data@,
        }
    }
}

impl PublishV {
    pub open spec fn wf(self) -> bool {
        self.data.len() <= 248
    }

    /// `[7 + n, 0x0C, flags, topic_id, message_id, data...]`
    pub open spec fn spec_bytes(self) -> Seq<u8> {
        seq![
            (7 + self.data.len()) as u8,
            MQTT_SN_PUBLISH,
            self.flags,
            be_hi(self.topic_id),
            be_lo(self.topic_id),
            be_hi(self.message_id),
            be_lo(self.message_id),
        ] + self.data
    }
}

impl PublishPacket {
    pub fn length(&self) -> (r: u8)
        requires
            self@.wf(),
        ensures
            r as int == self@.spec_bytes().len(),
    {
        7 + self.data.len() as u8
    }

    pub fn msg_type(&self) -> (r: u8)
        ensures
            r == MQTT_SN_PUBLISH,
    {
        MQTT_SN_PUBLISH
    }

    pub fn as_bytes(&self) -> (r: Vec<u8>)
        requires
            self@.wf(),
        ensures
            r@ == self@.spec_bytes(),
    {
        let mut bytes: Vec<u8> = Vec::new();
        bytes.push(7 + self.data.len() as u8);
        bytes.push(MQTT_SN_PUBLISH);
        bytes.push(self.flags);
        bytes.push((self.topic_id / 256) as u8);
        bytes.push((self.topic_id % 256) as u8);
        bytes.push((self.message_id / 256) as u8);
        bytes.push((self.message_id % 256) as u8);
        push_bytes(&mut bytes, &self.data);
        proof {
            assert(bytes@ =~= self@.spec_bytes());
        }
        bytes
    }
}

// Puback

/// PUBACK: acknowledges a QoS 1 PUBLISH.
#[derive(Debug, Clone, PartialEq, Eq, Structural)]
pub struct PubackPacket {
    pub topic_id: u16,
    pub message_id: u16,
    pub return_code: u8,
}

impl PubackPacket {
    /// `[7, 0x0D, topic_id, message_id, return_code]`
    pub open spec fn spec_bytes(self) -> Seq<u8> {
        seq![
            7u8,
            MQTT_SN_PUBACK,
            be_hi(self.topic_id),
            be_lo(self.topic_id),
            be_hi(self.message_id),
            be_lo(self.message_id),
            self.return_code,
        ]
    }

    pub fn length(&self) -> (r: u8)
        ensures
            r as int == self.spec_bytes().len(),
    {
        7
    }

    pub fn msg_type(&self) -> (r: u8)
        ensures
            r == MQTT_SN_PUBACK,
    {
        MQTT_SN_PUBACK
    }

    pub fn as_bytes(&self) -> (r: Vec<u8>)
        ensures
            r@ == self.spec_bytes(),
    {
        let mut bytes: Vec<u8> = Vec::new();
        bytes.push(7);
        bytes.push(MQTT_SN_PUBACK);
        bytes.push((self.topic_id / 256) as u8);
        bytes.push((self.topic_id % 256) as u8);
        bytes.push((self.message_id / 256) as u8);
        bytes.push((self.message_id % 256) as u8);
        bytes.push(self.return_code);
        proof {
            assert(bytes@ =~= self.spec_bytes());
        }
        bytes
    }
}

// Pingreq / Pingresp

/// PINGREQ: keep-alive probe.
#[derive(Debug, Clone, PartialEq, Eq, Structural)]
pub struct PingreqPacket {}

impl PingreqPacket {
    /// `[2, 0x16]`
    pub open spec fn spec_bytes(self) -> Seq<u8> {
        seq![2u8, MQTT_SN_PINGREQ]
    }

    pub fn length(&self) -> (r: u8)
        ensures
            r as int == self.spec_bytes().len(),
    {
        2
    }

    pub fn msg_type(&self) -> (r: u8)
        ensures
            r == MQTT_SN_PINGREQ,
    {
        MQTT_SN_PINGREQ
    }

    pub fn as_bytes(&self) -> (r: Vec<u8>)
        ensures
            r@ == self.spec_bytes(),
    {
        let mut bytes: Vec<u8> = Vec::new();
        bytes.push(2);
        bytes.push(MQTT_SN_PINGREQ);
        proof {
            assert(bytes@ =~= self.spec_bytes());
        }
        bytes
    }
}

/// PINGRESP: keep-alive answer.
#[derive(Debug, Clone, PartialEq, Eq, Structural)]
pub struct PingrespPacket {}

impl PingrespPacket {
    /// `[2, 0x17]`
    pub open spec fn spec_bytes(self) -> Seq<u8> {
        seq![2u8, MQTT_SN_PINGRESP]
    }

    pub fn length(&self) -> (r: u8)
        ensures
            r as int == self.spec_bytes().len(),
    {
        2
    }

    pub fn msg_type(&self) -> (r: u8)
        ensures
            r == MQTT_SN_PINGRESP,
    {
        MQTT_SN_PINGRESP
    }

    pub fn as_bytes(&self) -> (r: Vec<u8>)
        ensures
            r@ == self.spec_bytes(),
    {
        let mut bytes: Vec<u8> = Vec::new();
        bytes.push(2);
        bytes.push(MQTT_SN_PINGRESP);
        proof {
            assert(bytes@ =~= self.spec_bytes());
        }
        bytes
    }
}

// Subscribe

/// What a SUBSCRIBE names: a registered or predefined topic id, or a topic
/// name written out in full.
#[derive(Debug, Clone, PartialEq, Eq)]
pub enum Topic {
    TopicId(u16),
    TopicName(Vec<u8>),
}

/// Mathematical model of a subscribe topic.
pub enum TopicV {
    TopicId(u16),
    TopicName(Seq<u8>),
}

impl View for Topic {
    type V = TopicV;

    open spec fn view(&self) -> TopicV {
        match self {
            Topic::TopicId(id) => TopicV::TopicId(*id),
            Topic::TopicName(name) => TopicV::TopicName(name@),
        }
    }
}

/// SUBSCRIBE: asks for a topic's publications.
#[derive(Debug, Clone, PartialEq, Eq)]
pub struct SubscribePacket {
    pub flags: u8,
    pub message_id: u16,
    pub topic: Topic,
}

/// Mathematical model of a SUBSCRIBE packet.
pub struct SubscribeV {
    pub flags: u8,
    pub message_id: u16,
    pub topic: TopicV,
}

impl View for SubscribePacket {
    type V = SubscribeV;

    open spec fn view(&self) -> SubscribeV {
        SubscribeV { flags: self.flags, message_id: self.message_id, topic: self.topic@ }
    }
}

impl SubscribeV {
    /// The topic-id-type bits of the flags byte agree with the topic variant,
    /// and a written-out name fits the length byte.
    pub open spec fn wf(self) -> bool {
        match self.topic {
            TopicV::TopicId(_) => self.flags & 0x03 == MQTT_SN_TOPIC_TYPE_PREDEFINED,
            TopicV::TopicName(name) => self.flags & 0x03 != MQTT_SN_TOPIC_TYPE_PREDEFINED
                && name.len() <= 250,
        }
    }

    /// `[5 + n, 0x12, flags, message_id, topic...]`
    pub open spec fn spec_bytes(self) -> Seq<u8> {
        seq![
            (5 + self.spec_topic_len()) as u8,
            MQTT_SN_SUBSCRIBE,
            self.flags,
            be_hi(self.message_id),
            be_lo(self.message_id),
        ] + self.spec_topic_bytes()
    }

    /// The bytes of the topic field.
    pub open spec fn spec_topic_bytes(self) -> Seq<u8> {
        match self.topic {
            TopicV::TopicId(id) => seq![be_hi(id), be_lo(id)],
            TopicV::TopicName(name) => name,
        }
    }

    /// How many bytes the topic field occupies.
    pub open spec fn spec_topic_len(self) -> nat {
        self.spec_topic_bytes().len()
    }
}

impl SubscribePacket {
    pub fn length(&self) -> (r: u8)
        requires
            self@.wf(),
        ensures
            r as int == self@.spec_bytes().len(),
    {
        match &self.topic {
            Topic::TopicId(_) => 7,
            Topic::TopicName(name) => 5 + name.len() as u8,
        }
    }

    pub fn msg_type(&self) -> (r: u8)
        ensures
            r == MQTT_SN_SUBSCRIBE,
    {
        MQTT_SN_SUBSCRIBE
    }

    pub fn as_bytes(&self) -> (r: Vec<u8>)
        requires
            self@.wf(),
        ensures
            r@ == self@.spec_bytes(),
    {
        let mut bytes: Vec<u8> = Vec::new();
        bytes.push(self.length());
        bytes.push(MQTT_SN_SUBSCRIBE);
        bytes.push(self.flags);
        bytes.push((self.message_id / 256) as u8);
        bytes.push((self.message_id % 256) as u8);
        match &self.topic {
            Topic::TopicId(id) => {
                bytes.push((*id / 256) as u8);
                bytes.push((*id % 256) as u8);
            },
            Topic::TopicName(name) => {
                push_bytes(&mut bytes, name);
            },
        }
        proof {
            assert(bytes@ =~= self@.spec_bytes());
        }
        bytes
    }
}

// Suback

/// SUBACK: the gateway's verdict on a SUBSCRIBE, carrying the topic id.
#[derive(Debug, Clone, PartialEq, Eq, Structural)]
pub struct SubackPacket {
    pub flags: u8,
    pub topic_id: u16,
    pub message_id: u16,
    pub return_code: u8,
}

impl SubackPacket {
    /// `[8, 0x13, flags, topic_id, message_id, return_code]`
    pub open spec fn spec_bytes(self) -> Seq<u8> {
        seq![
            8u8,
            MQTT_SN_SUBACK,
            self.flags,
            be_hi(self.topic_id),
            be_lo(self.topic_id),
            be_hi(self.message_id),
            be_lo(self.message_id),
            self.return_code,
        ]
    }

    pub fn length(&self) -> (r: u8)
        ensures
            r as int == self.spec_bytes().len(),
    {
        8
    }

    pub fn msg_type(&self) -> (r: u8)
        ensures
            r == MQTT_SN_SUBACK,
    {
        MQTT_SN_SUBACK
    }

    pub fn as_bytes(&self) -> (r: Vec<u8>)
        ensures
            r@ == self.spec_bytes(),
    {
        let mut bytes: Vec<u8> = Vec::new();
        bytes.push(8);
        bytes.push(MQTT_SN_SUBACK);
        bytes.push(self.flags);
        bytes.push((self.topic_id / 256) as u8);
        bytes.push((self.topic_id % 256) as u8);
        bytes.push((self.message_id / 256) as u8);
        bytes.push((self.message_id % 256) as u8);
        bytes.push(self.return_code);
        proof {
            assert(bytes@ =~= self.spec_bytes());
        }
        bytes
    }
}

// Disconnect

/// DISCONNECT: ends the session; an optional duration asks for sleep mode.
#[derive(Debug, Clone, PartialEq, Eq, Structural)]
pub struct DisconnectPacket {
    pub duration: Option<u16>,
}

impl DisconnectPacket {
    /// `[2, 0x18]`, or `[4, 0x18, duration]` for a sleep-mode disconnect.
    pub open spec fn spec_bytes(self) -> Seq<u8> {
        match self.duration {
            Some(d) => seq![4u8, MQTT_SN_DISCONNECT, be_hi(d), be_lo(d)],
            None => seq![2u8, MQTT_SN_DISCONNECT],
        }
    }

    pub fn length(&self) -> (r: u8)
        ensures
            r as int == self.spec_bytes().len(),
    {
        match self.duration {
            Some(_) => 4,
            None => 2,
        }
    }

    pub fn msg_type(&self) -> (r: u8)
        ensures
            r == MQTT_SN_DISCONNECT,
    {
        MQTT_SN_DISCONNECT
    }

    pub fn as_bytes(&self) -> (r: Vec<u8>)
        ensures
            r@ == self.spec_bytes(),
    {
        let mut bytes: Vec<u8> = Vec::new();
        match self.duration {
            Some(d) => {
                bytes.push(4);
                bytes.push(MQTT_SN_DISCONNECT);
                bytes.push((d / 256) as u8);
                bytes.push((d % 256) as u8);
            },
            None => {
                bytes.push(2);
                bytes.push(MQTT_SN_DISCONNECT);
            },
        }
        proof {
            assert(bytes@ =~= self.spec_bytes());
        }
        bytes
    }
}

// Forwarder encapsulation

/// The forwarder envelope: an inner packet together with the wireless node id
/// of the end device it came from or goes to.
#[derive(Debug, Clone, PartialEq, Eq)]
pub struct FWDEncapPacket {
    pub ctrl: u8,
    pub wireless_node_id: Vec<u8>,
    pub inner_packet: Vec<u8>,
}

/// Mathematical model of a forwarder envelope.
pub struct FWDEncapV {
    pub ctrl: u8,
    pub wireless_node_id: Seq<u8>,
    pub inner_packet: Seq<u8>,
}

impl View for FWDEncapPacket {
    type V = FWDEncapV;

    open spec fn view(&self) -> FWDEncapV {
        FWDEncapV {
            ctrl: self.ctrl,
            wireless_node_id: self.wireless_node_id@,
            inner_packet: self.inner_packet@,
        }
    }
}

impl FWDEncapV {
    /// The node id is present and fits the envelope's length byte, and the
    /// embedded packet opens with its own correct length byte.
    pub open spec fn wf(self) -> bool {
        &&& 1 <= self.wireless_node_id.len() <= 252
        &&& 1 <= self.inner_packet.len() <= 255
        &&& self.inner_packet[0] as int == self.inner_packet.len()
    }

    /// `[3 + n, 0xFE, ctrl, wireless_node_id..., inner_packet...]` — the
    /// length byte spans the envelope only and is the offset of the inner
    /// packet.
    pub open spec fn spec_bytes(self) -> Seq<u8> {
        seq![(3 + self.wireless_node_id.len()) as u8, MQTT_SN_FRWDENCAP, self.ctrl]
            + self.wireless_node_id + self.inner_packet
    }
}

impl FWDEncapPacket {
    /// The envelope length byte: the offset of the embedded packet, not the
    /// total byte count.
    pub fn length(&self) -> (r: u8)
        requires
            self@.wf(),
        ensures
            r as int == 3 + self@.wireless_node_id.len(),
    {
        3 + self.wireless_node_id.len() as u8
    }

    pub fn msg_type(&self) -> (r: u8)
        ensures
            r == MQTT_SN_FRWDENCAP,
    {
        MQTT_SN_FRWDENCAP
    }

    pub fn as_bytes(&self) -> (r: Vec<u8>)
        requires
            self@.wf(),
        ensures
            r@ == self@.spec_bytes(),
    {
        let mut bytes: Vec<u8> = Vec::new();
        bytes.push(3 + self.wireless_node_id.len() as u8);
        bytes.push(MQTT_SN_FRWDENCAP);
        bytes.push(self.ctrl);
        push_bytes(&mut bytes, &self.wireless_node_id);
        push_bytes(&mut bytes, &self.inner_packet);
        proof {
            assert(bytes@ =~= self@.spec_bytes());
        }
        bytes
    }
}

// The closed packet type

/// Every packet the engine understands, as one closed type, matched
/// exhaustively at decode time and by the engine.
#[derive(Debug, Clone, PartialEq, Eq)]
pub enum Packet {
    Connect(ConnectPacket),
    Connack(ConnackPacket),
    Register(RegisterPacket),
    Regack(RegackPacket),
    Publish(PublishPacket),
    Puback(PubackPacket),
    Subscribe(SubscribePacket),
    Suback(SubackPacket),
    Pingreq(PingreqPacket),
    Pingresp(PingrespPacket),
    Disconnect(DisconnectPacket),
    FwdEncap(FWDEncapPacket),
}

/// Mathematical model of a packet.
pub enum PacketV {
    Connect(ConnectV),
    Connack(ConnackPacket),
    Register(RegisterV),
    Regack(RegackPacket),
    Publish(PublishV),
    Puback(PubackPacket),
    Subscribe(SubscribeV),
    Suback(SubackPacket),
    Pingreq(PingreqPacket),
    Pingresp(PingrespPacket),
    Disconnect(DisconnectPacket),
    FwdEncap(FWDEncapV),
}

impl View for Packet {
    type V = PacketV;

    open spec fn view(&self) -> PacketV {
        match self {
            Packet::Connect(p) => PacketV::Connect(p@),
            Packet::Connack(p) => PacketV::Connack(*p),
            Packet::Register(p) => PacketV::Register(p@),
            Packet::Regack(p) => PacketV::Regack(*p),
            Packet::Publish(p) => PacketV::Publish(p@),
            Packet::Puback(p) => PacketV::Puback(*p),
            Packet::Subscribe(p) => PacketV::Subscribe(p@),
            Packet::Suback(p) => PacketV::Suback(*p),
            Packet::Pingreq(p) => PacketV::Pingreq(*p),
            Packet::Pingresp(p) => PacketV::Pingresp(*p),
            Packet::Disconnect(p) => PacketV::Disconnect(*p),
            Packet::FwdEncap(p) => PacketV::FwdEncap(p@),
        }
    }
}

impl PacketV {
    /// Size limits hold, so the packet can be written out.
    pub open spec fn wf(self) -> bool {
        match self {
            PacketV::Connect(p) => p.wf(),
            PacketV::Connack(_) => true,
            PacketV::Register(p) => p.wf(),
            PacketV::Regack(_) => true,
            PacketV::Publish(p) => p.wf(),
            PacketV::Puback(_) => true,
            PacketV::Subscribe(p) => p.wf(),
            PacketV::Suback(_) => true,
            PacketV::Pingreq(_) => true,
            PacketV::Pingresp(_) => true,
            PacketV::Disconnect(_) => true,
            PacketV::FwdEncap(p) => p.wf(),
        }
    }

    /// The exact wire bytes of this packet.
    pub open spec fn spec_bytes(self) -> Seq<u8> {
        match self {
            PacketV::Connect(p) => p.spec_bytes(),
            PacketV::Connack(p) => p.spec_bytes(),
            PacketV::Register(p) => p.spec_bytes(),
            PacketV::Regack(p) => p.spec_bytes(),
            PacketV::Publish(p) => p.spec_bytes(),
            PacketV::Puback(p) => p.spec_bytes(),
            PacketV::Subscribe(p) => p.spec_bytes(),
            PacketV::Suback(p) => p.spec_bytes(),
            PacketV::Pingreq(p) => p.spec_bytes(),
            PacketV::Pingresp(p) => p.spec_bytes(),
            PacketV::Disconnect(p) => p.spec_bytes(),
            PacketV::FwdEncap(p) => p.spec_bytes(),
        }
    }

    /// The type byte of this packet.
    pub open spec fn spec_msg_type(self) -> u8 {
        match self {
            PacketV::Connect(_) => MQTT_SN_CONNECT,
            PacketV::Connack(_) => MQTT_SN_CONNACK,
            PacketV::Register(_) => MQTT_SN_REGISTER,
            PacketV::Regack(_) => MQTT_SN_REGACK,
            PacketV::Publish(_) => MQTT_SN_PUBLISH,
            PacketV::Puback(_) => MQTT_SN_PUBACK,
            PacketV::Subscribe(_) => MQTT_SN_SUBSCRIBE,
            PacketV::Suback(_) => MQTT_SN_SUBACK,
            PacketV::Pingreq(_) => MQTT_SN_PINGREQ,
            PacketV::Pingresp(_) => MQTT_SN_PINGRESP,
            PacketV::Disconnect(_) => MQTT_SN_DISCONNECT,
            PacketV::FwdEncap(_) => MQTT_SN_FRWDENCAP,
        }
    }
}

/// What a buffer decodes to, if anything: the inverse of writing a packet
/// out. Reads the declared length byte and slices exactly that many bytes,
/// whatever the buffer's capacity beyond it.
pub open spec fn spec_decode(b: Seq<u8>) -> Option<PacketV> {
    if b.len() < 2 {
        None
    } else {
        let l = b[0] as int;
        if l < 2 || l > b.len() {
            None
        } else {
            let t = b[1];
            if t == MQTT_SN_CONNECT {
                if l >= 6 {
                    Some(
                        PacketV::Connect(
                            ConnectV {
                                flags: b[2],
                                protocol_id: b[3],
                                duration: spec_be16(b[4], b[5]),
                                client_id: b.subrange(6, l),
                            },
                        ),
                    )
                } else {
                    None
                }
            } else if t == MQTT_SN_CONNACK {
                if l >= 3 {
                    Some(PacketV::Connack(ConnackPacket { return_code: b[2] }))
                } else {
                    None
                }
            } else if t == MQTT_SN_REGISTER {
                if l >= 6 {
                    Some(
                        PacketV::Register(
                            RegisterV {
                                topic_id: spec_be16(b[2], b[3]),
                                message_id: spec_be16(b[4], b[5]),
                                topic_name: b.subrange(6, l),
                            },
                        ),
                    )
                } else {
                    None
                }
            } else if t == MQTT_SN_REGACK {
                if l >= 7 {
                    Some(
                        PacketV::Regack(
                            RegackPacket {
                                topic_id: spec_be16(b[2], b[3]),
                                message_id: spec_be16(b[4], b[5]),
                                return_code: b[6],
                            },
                        ),
                    )
                } else {
                    None
                }
            } else if t == MQTT_SN_PUBLISH {
                if l >= 7 {
                    Some(
                        PacketV::Publish(
                            PublishV {
                                flags: b[2],
                                topic_id: spec_be16(b[3], b[4]),
                                message_id: spec_be16(b[5], b[6]),
                                data: b.subrange(7, l),
                            },
                        ),
                    )
                } else {
                    None
                }
            } else if t == MQTT_SN_PUBACK {
                if l >= 7 {
                    Some(
                        PacketV::Puback(
                            PubackPacket {
                                topic_id: spec_be16(b[2], b[3]),
                                message_id: spec_be16(b[4], b[5]),
                                return_code: b[6],
                            },
                        ),
                    )
                } else {
                    None
                }
            } else if t == MQTT_SN_SUBSCRIBE {
                if l >= 5 {
                    if b[2] & 0x03 == MQTT_SN_TOPIC_TYPE_PREDEFINED {
                        if l >= 7 {
                            Some(
                                PacketV::Subscribe(
                                    SubscribeV {
                                        flags: b[2],
                                        message_id: spec_be16(b[3], b[4]),
                                        topic: TopicV::TopicId(spec_be16(b[5], b[6])),
                                    },
                                ),
                            )
                        } else {
                            None
                        }
                    } else {
                        Some(
                            PacketV::Subscribe(
                                SubscribeV {
                                    flags: b[2],
                                    message_id: spec_be16(b[3], b[4]),
                                    topic: TopicV::TopicName(b.subrange(5, l)),
                                },
                            ),
                        )
                    }
                } else {
                    None
                }
            } else if t == MQTT_SN_SUBACK {
                if l >= 8 {
                    Some(
                        PacketV::Suback(
                            SubackPacket {
                                flags: b[2],
                                topic_id: spec_be16(b[3], b[4]),
                                message_id: spec_be16(b[5], b[6]),
                                return_code: b[7],
                            },
                        ),
                    )
                } else {
                    None
                }
            } else if t == MQTT_SN_PINGREQ {
                Some(PacketV::Pingreq(PingreqPacket {}))
            } else if t == MQTT_SN_PINGRESP {
                Some(PacketV::Pingresp(PingrespPacket {}))
            } else if t == MQTT_SN_DISCONNECT {
                if l >= 4 {
                    Some(
                        PacketV::Disconnect(
                            DisconnectPacket { duration: Some(spec_be16(b[2], b[3])) },
                        ),
                    )
                } else {
                    Some(PacketV::Disconnect(DisconnectPacket { duration: None }))
                }
            } else if t == MQTT_SN_FRWDENCAP {
                if l >= 4 && l < b.len() && 1 <= b[l] as int && l + b[l] as int <= b.len() {
                    Some(
                        PacketV::FwdEncap(
                            FWDEncapV {
                                ctrl: b[2],
                                wireless_node_id: b.subrange(3, l),
                                inner_packet: b.subrange(l, l + b[l] as int),
                            },
                        ),
                    )
                } else {
                    None
                }
            } else {
                None
            }
        }
    }
}

impl Packet {
    /// The type byte of this packet.
    pub fn msg_type(&self) -> (r: u8)
        ensures
            r == self@.spec_msg_type(),
    {
        match self {
            Packet::Connect(p) => p.msg_type(),
            Packet::Connack(p) => p.msg_type(),
            Packet::Register(p) => p.msg_type(),
            Packet::Regack(p) => p.msg_type(),
            Packet::Publish(p) => p.msg_type(),
            Packet::Puback(p) => p.msg_type(),
            Packet::Subscribe(p) => p.msg_type(),
            Packet::Suback(p) => p.msg_type(),
            Packet::Pingreq(p) => p.msg_type(),
            Packet::Pingresp(p) => p.msg_type(),
            Packet::Disconnect(p) => p.msg_type(),
            Packet::FwdEncap(p) => p.msg_type(),
        }
    }

    /// Writes this packet out; the exact bytes are `self@.spec_bytes()`.
    pub fn encode(&self) -> (r: Vec<u8>)
        requires
            self@.wf(),
        ensures
            r@ == self@.spec_bytes(),
    {
        match self {
            Packet::Connect(p) => p.as_bytes(),
            Packet::Connack(p) => p.as_bytes(),
            Packet::Register(p) => p.as_bytes(),
            Packet::Regack(p) => p.as_bytes(),
            Packet::Publish(p) => p.as_bytes(),
            Packet::Puback(p) => p.as_bytes(),
            Packet::Subscribe(p) => p.as_bytes(),
            Packet::Suback(p) => p.as_bytes(),
            Packet::Pingreq(p) => p.as_bytes(),
            Packet::Pingresp(p) => p.as_bytes(),
            Packet::Disconnect(p) => p.as_bytes(),
            Packet::FwdEncap(p) => p.as_bytes(),
        }
    }

    /// Reads one packet from a buffer. Fails with `MalformedPacket` exactly
    /// when the buffer does not decode: shorter than the declared length or
    /// the selected type's fixed header, a length below 2, or an unsupported
    /// type byte. A decoded packet is well formed.
    pub fn decode(bytes: &[u8]) -> (r: Result<Packet, SnError>)
        ensures
            r is Ok <==> spec_decode(bytes@) is Some,
            r matches Ok(p) ==> Some(p@) == spec_decode(bytes@) && p@.wf(),
            r matches Err(e) ==> e == SnError::MalformedPacket,
    {
        if bytes.len() < 2 {
            return Err(SnError::MalformedPacket);
        }
        let l = bytes[0] as usize;
        if l < 2 || l > bytes.len() {
            return Err(SnError::MalformedPacket);
        }
        let t = bytes[1];
        if t == MQTT_SN_CONNECT {
            if l < 6 {
                return Err(SnError::MalformedPacket);
            }
            Ok(
                Packet::Connect(
                    ConnectPacket {
                        flags: bytes[2],
                        protocol_id: bytes[3],
                        duration: be16(bytes[4], bytes[5]),
                        client_id: bytes_range(bytes, 6, l),
                    },
                ),
            )
        } else if t == MQTT_SN_CONNACK {
            if l < 3 {
                return Err(SnError::MalformedPacket);
            }
            Ok(Packet::Connack(ConnackPacket { return_code: bytes[2] }))
        } else if t == MQTT_SN_REGISTER {
            if l < 6 {
                return Err(SnError::MalformedPacket);
            }
            Ok(
                Packet::Register(
                    RegisterPacket {
                        topic_id: be16(bytes[2], bytes[3]),
                        message_id: be16(bytes[4], bytes[5]),
                        topic_name: bytes_range(bytes, 6, l),
                    },
                ),
            )
        } else if t == MQTT_SN_REGACK {
            if l < 7 {
                return Err(SnError::MalformedPacket);
            }
            Ok(
                Packet::Regack(
                    RegackPacket {
                        topic_id: be16(bytes[2], bytes[3]),
                        message_id: be16(bytes[4], bytes[5]),
                        return_code: bytes[6],
                    },
                ),
            )
        } else if t == MQTT_SN_PUBLISH {
            if l < 7 {
                return Err(SnError::MalformedPacket);
            }
            Ok(
                Packet::Publish(
                    PublishPacket {
                        flags: bytes[2],
                        topic_id: be16(bytes[3], bytes[4]),
                        message_id: be16(bytes[5], bytes[6]),
                        data: bytes_range(bytes, 7, l),
                    },
                ),
            )
        } else if t == MQTT_SN_PUBACK {
            if l < 7 {
                return Err(SnError::MalformedPacket);
            }
            Ok(
                Packet::Puback(
                    PubackPacket {
                        topic_id: be16(bytes[2], bytes[3]),
                        message_id: be16(bytes[4], bytes[5]),
                        return_code: bytes[6],
                    },
                ),
            )
        } else if t == MQTT_SN_SUBSCRIBE {
            if l < 5 {
                return Err(SnError::MalformedPacket);
            }
            let flags = bytes[2];
            let message_id = be16(bytes[3], bytes[4]);
            if flags & 0x03 == MQTT_SN_TOPIC_TYPE_PREDEFINED {
                if l < 7 {
                    return Err(SnError::MalformedPacket);
                }
                Ok(
                    Packet::Subscribe(
                        SubscribePacket {
                            flags,
                            message_id,
                            topic: Topic::TopicId(be16(bytes[5], bytes[6])),
                        },
                    ),
                )
            } else {
                Ok(
                    Packet::Subscribe(
                        SubscribePacket {
                            flags,
                            message_id,
                            topic: Topic::TopicName(bytes_range(bytes, 5, l)),
                        },
                    ),
                )
            }
        } else if t == MQTT_SN_SUBACK {
            if l < 8 {
                return Err(SnError::MalformedPacket);
            }
            Ok(
                Packet::Suback(
                    SubackPacket {
                        flags: bytes[2],
                        topic_id: be16(bytes[3], bytes[4]),
                        message_id: be16(bytes[5], bytes[6]),
                        return_code: bytes[7],
                    },
                ),
            )
        } else if t == MQTT_SN_PINGREQ {
            Ok(Packet::Pingreq(PingreqPacket {}))
        } else if t == MQTT_SN_PINGRESP {
            Ok(Packet::Pingresp(PingrespPacket {}))
        } else if t == MQTT_SN_DISCONNECT {
            if l >= 4 {
                Ok(
                    Packet::Disconnect(
                        DisconnectPacket { duration: Some(be16(bytes[2], bytes[3])) },
                    ),
                )
            } else {
                Ok(Packet::Disconnect(DisconnectPacket { duration: None }))
            }
        } else if t == MQTT_SN_FRWDENCAP {
            if l < 4 || l >= bytes.len() {
                return Err(SnError::MalformedPacket);
            }
            let inner_len = bytes[l] as usize;
            if inner_len < 1 || l + inner_len > bytes.len() {
                return Err(SnError::MalformedPacket);
            }
            Ok(
                Packet::FwdEncap(
                    FWDEncapPacket {
                        ctrl: bytes[2],
                        wireless_node_id: bytes_range(bytes, 3, l),
                        inner_packet: bytes_range(bytes, l, l + inner_len),
                    },
                ),
            )
        } else {
            Err(SnError::MalformedPacket)
        }
    }
}

/// A CONNECT whose client id is within the protocol's 23-byte limit encodes
/// with its length byte equal to 6 plus the client id's length, which is the
/// whole packet's size.
pub proof fn lemma_connect_length(c: ConnectV)
    requires
        c.client_id.len() <= 23,
    ensures
        c.spec_bytes()[0] as int == 6 + c.client_id.len(),
        c.spec_bytes().len() == 6 + c.client_id.len(),
{
}

/// Round trip: writing any well-formed packet out and reading the bytes back
/// yields the same packet. The length byte of the written bytes equals the
/// true byte count, except for the forwarder envelope, whose length byte
/// spans the envelope head alone.
pub proof fn lemma_decode_encode(p: PacketV)
    requires
        p.wf(),
    ensures
        spec_decode(p.spec_bytes()) == Some(p),
        !(p is FwdEncap) ==> p.spec_bytes()[0] as int == p.spec_bytes().len(),
        p matches PacketV::FwdEncap(f) ==> p.spec_bytes()[0] as int == 3
            + f.wireless_node_id.len(),
{
    let b = p.spec_bytes();
    match p {
        PacketV::Connect(c) => {
            lemma_be16_split(c.duration);
            assert(b[0] as int == 6 + c.client_id.len());
            assert(b.subrange(6, b[0] as int) =~= c.client_id);
            assert(spec_decode(b) == Some(p));
        },
        PacketV::Connack(c) => {
            assert(spec_decode(b) == Some(p));
        },
        PacketV::Register(c) => {
            lemma_be16_split(c.topic_id);
            lemma_be16_split(c.message_id);
            assert(b[0] as int == 6 + c.topic_name.len());
            assert(b.subrange(6, b[0] as int) =~= c.topic_name);
            assert(spec_decode(b) == Some(p));
        },
        PacketV::Regack(c) => {
            lemma_be16_split(c.topic_id);
            lemma_be16_split(c.message_id);
            assert(spec_decode(b) == Some(p));
        },
        PacketV::Publish(c) => {
            lemma_be16_split(c.topic_id);
            lemma_be16_split(c.message_id);
            assert(b[0] as int == 7 + c.data.len());
            assert(b.subrange(7, b[0] as int) =~= c.data);
            assert(spec_decode(b) == Some(p));
        },
        PacketV::Puback(c) => {
            lemma_be16_split(c.topic_id);
            lemma_be16_split(c.message_id);
            assert(spec_decode(b) == Some(p));
        },
        PacketV::Subscribe(c) => {
            lemma_be16_split(c.message_id);
            match c.topic {
                TopicV::TopicId(id) => {
                    lemma_be16_split(id);
                    assert(b[0] as int == 7);
                    assert(spec_decode(b) == Some(p));
                },
                TopicV::TopicName(name) => {
                    assert(b[0] as int == 5 + name.len());
                    assert(b.subrange(5, b[0] as int) =~= name);
                    assert(spec_decode(b) == Some(p));
                },
            }
        },
        PacketV::Suback(c) => {
            lemma_be16_split(c.topic_id);
            lemma_be16_split(c.message_id);
            assert(spec_decode(b) == Some(p));
        },
        PacketV::Pingreq(_) => {
            assert(spec_decode(b) == Some(p));
        },
        PacketV::Pingresp(_) => {
            assert(spec_decode(b) == Some(p));
        },
        PacketV::Disconnect(c) => {
            match c.duration {
                Some(d) => {
                    lemma_be16_split(d);
                    assert(spec_decode(b) == Some(p));
                },
                None => {
                    assert(spec_decode(b) == Some(p));
                },
            }
        },
        PacketV::FwdEncap(f) => {
            let l = 3 + f.wireless_node_id.len() as int;
            assert(b[0] as int == l);
            assert(b.subrange(3, l) =~= f.wireless_node_id);
            assert(b[l] == f.inner_packet[0]);
            assert(b.subrange(l, l + b[l] as int) =~= f.inner_packet);
            assert(spec_decode(b) == Some(p));
        },
    }
}

} // verus!
