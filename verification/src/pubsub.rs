//! The protocol engine: building and sending each request, the generic
//! wait-for-reply loop with keep-alive pings, and forwarder encapsulation.
//!
//! Every send function validates sizes before building its packet, so nothing
//! malformed is ever handed to the transport, and returns the packet it sent.
//! Malformed inbound bytes are recoverable: the wait loop skips them and
//! keeps waiting until the overall timeout passes.

use vstd::prelude::*;

use crate::constants::{
    MQTT_SN_CONNACK, MQTT_SN_DISCONNECT, MQTT_SN_FLAG_CLEAN, MQTT_SN_FRWDENCAP,
    MQTT_SN_MAX_CLIENT_ID_LENGTH, MQTT_SN_MAX_PAYLOAD_LENGTH, MQTT_SN_MAX_TOPIC_LENGTH,
    MQTT_SN_PROTOCOL_ID, MQTT_SN_PUBACK, MQTT_SN_PUBLISH, MQTT_SN_REGACK, MQTT_SN_SUBACK,
    MQTT_SN_TOPIC_TYPE_NORMAL, MQTT_SN_TOPIC_TYPE_PREDEFINED, MQTT_SN_TOPIC_TYPE_SHORT,
};
use crate::errors::SnError;
use crate::network_abstractions::SensorNetwork;
use crate::packet_types::{
    be_hi, be_lo, lemma_decode_encode, spec_be16, spec_decode, ConnackPacket, ConnectPacket, ConnectV,
    DisconnectPacket, FWDEncapPacket, FWDEncapV, Packet, PacketV, PingreqPacket, PubackPacket,
    PublishPacket, PublishV, RegackPacket, RegisterPacket, RegisterV, SubackPacket,
    SubscribePacket, SubscribeV, Topic, TopicV,
};
use crate::settings::{
    get_last_message_id, get_next_message_id, get_topic_id, reset_message_id, set_topic_id,
    set_wireless_node_id, spec_qos_flag, get_qos_flag, SessionState, Settings,
};
use vstd::string::StrSliceExecFns;
use vstd::string::StringSliceAdditionalSpecFns;

verus! {

/// Relies on std::time::SystemTime::now: the wall clock, read as whole
/// seconds since the Unix epoch. Nothing is promised of the value.
#[verifier::external_body]
fn now_secs() -> u64 {
    match std::time::SystemTime::now().duration_since(std::time::UNIX_EPOCH) {
        Ok(elapsed) => elapsed.as_secs(),
        Err(_) => 0,
    }
}

/// The UTF-8 bytes of an owned string, for contracts.
pub open spec fn spec_string_bytes(s: String) -> Seq<u8> {
    vstd::utf8::encode_utf8(s@)
}

/// `a - b`, stopping at zero.
pub open spec fn spec_sub_sat(a: u64, b: u64) -> u64 {
    if a >= b {
        (a - b) as u64
    } else {
        0
    }
}

/// Writes a packet out and hands its bytes to the transport. The bytes put
/// on the wire are exactly the packet's encoding.
pub fn mqtt_sn_send_packet<S: SensorNetwork>(sensor_net: &mut S, packet: &Packet) -> (r: Result<
    Vec<u8>,
    SnError,
>)
    requires
        packet@.wf(),
    ensures
        r matches Ok(b) ==> b@ == packet@.spec_bytes(),
        r matches Err(e) ==> e == SnError::IoError,
{
    let bytes = packet.encode();
    match sensor_net.send(bytes.as_slice()) {
        Ok(_) => Ok(bytes),
        Err(_) => Err(SnError::IoError),
    }
}

/// The envelope that carries a packet when forwarder encapsulation is on:
/// the session's own two-byte wireless node id around the packet's bytes.
pub open spec fn spec_own_envelope(settings: Settings, p: PacketV) -> FWDEncapV {
    FWDEncapV {
        ctrl: 0,
        wireless_node_id: seq![
            be_hi(settings.wireless_node_id),
            be_lo(settings.wireless_node_id),
        ],
        inner_packet: p.spec_bytes(),
    }
}

/// Sends one request the way the session is configured: bare, or — when
/// forwarder encapsulation is enabled — wrapped in an envelope carrying the
/// session's own wireless node id, symmetric with the receive path.
pub fn mqtt_sn_send_session_packet<S: SensorNetwork>(
    sensor_net: &mut S,
    settings: &Settings,
    packet: &Packet,
) -> (r: Result<Vec<u8>, SnError>)
    requires
        packet@.wf(),
        !(packet@ is FwdEncap),
    ensures
        r matches Ok(b) ==> b@ == if settings.forwarder_encapsulation {
            spec_own_envelope(*settings, packet@).spec_bytes()
        } else {
            packet@.spec_bytes()
        },
        r matches Err(e) ==> e == SnError::IoError,
{
    if !settings.forwarder_encapsulation {
        return mqtt_sn_send_packet(sensor_net, packet);
    }
    let mut node_id: Vec<u8> = Vec::new();
    node_id.push((settings.wireless_node_id / 256) as u8);
    node_id.push((settings.wireless_node_id % 256) as u8);
    proof {
        assert(node_id@ =~= spec_own_envelope(*settings, packet@).wireless_node_id);
    }
    let bytes = match mqtt_sn_wrap_packet(packet, 0, &node_id) {
        Ok(bytes) => bytes,
        Err(_) => unreached(),
    };
    match sensor_net.send(bytes.as_slice()) {
        Ok(_) => Ok(bytes),
        Err(_) => Err(SnError::IoError),
    }
}

/// Sends a PINGREQ, enveloped if the session requires it; a failed
/// transmission is tolerated, the next wait iteration retries.
pub fn mqtt_sn_send_pingreq<S: SensorNetwork>(sensor_net: &mut S, settings: &Settings) -> (r:
    Result<Vec<u8>, SnError>)
    ensures
        r matches Ok(b) ==> b@ == if settings.forwarder_encapsulation {
            spec_own_envelope(*settings, PacketV::Pingreq(PingreqPacket {  })).spec_bytes()
        } else {
            (PingreqPacket {  }).spec_bytes()
        },
{
    mqtt_sn_send_session_packet(sensor_net, settings, &Packet::Pingreq(PingreqPacket {  }))
}

/// Reads one packet from the transport and decodes it. `IoError` when the
/// transport produced nothing, `MalformedPacket` when the bytes do not
/// decode.
pub fn mqtt_sn_receive_packet<S: SensorNetwork>(sensor_net: &mut S) -> (r: Result<Packet, SnError>)
    ensures
        r matches Ok(p) ==> p@.wf(),
        r matches Err(e) ==> e == SnError::IoError || e == SnError::MalformedPacket,
{
    let buffer = match sensor_net.receive() {
        Ok(data) => data,
        Err(_) => {
            return Err(SnError::IoError);
        },
    };
    if buffer.len() == 0 {
        return Err(SnError::IoError);
    }
    Packet::decode(buffer.as_slice())
}

/// Decodes a buffer into a packet, if it holds one.
pub fn mqtt_sn_rebuild_packet(buffer: &Vec<u8>) -> (r: Option<Packet>)
    ensures
        r is Some <==> spec_decode(buffer@) is Some,
        r matches Some(p) ==> Some(p@) == spec_decode(buffer@) && p@.wf(),
{
    match Packet::decode(buffer.as_slice()) {
        Ok(p) => Some(p),
        Err(_) => None,
    }
}

/// What a buffer passes validation to: nothing when the length byte is below
/// 2 (a zero length, or the unsupported extended-length form), nothing when
/// forwarder encapsulation is required but the type is not the envelope, and
/// otherwise whatever the buffer decodes to.
pub open spec fn spec_validate(b: Seq<u8>, forwarder_required: bool) -> Option<PacketV> {
    if b.len() < 2 {
        None
    } else if forwarder_required && b[1] != MQTT_SN_FRWDENCAP {
        None
    } else {
        spec_decode(b)
    }
}

/// Checks an inbound buffer and decodes it: length sanity, the
/// forwarder-encapsulation requirement, then the codec.
pub fn mqtt_sn_validate_packet(buffer: &[u8], settings: &Settings) -> (r: Option<Packet>)
    ensures
        r is Some <==> spec_validate(buffer@, settings.forwarder_encapsulation) is Some,
        r matches Some(p) ==> Some(p@) == spec_validate(buffer@, settings.forwarder_encapsulation)
            && p@.wf(),
{
    if buffer.len() < 2 {
        return None;
    }
    if settings.forwarder_encapsulation && buffer[1] != MQTT_SN_FRWDENCAP {
        return None;
    }
    match Packet::decode(buffer) {
        Ok(p) => Some(p),
        Err(_) => None,
    }
}

/// Wraps a packet in a forwarder envelope carrying the given wireless node
/// id, yielding the bytes to transmit. Rejects a node id that is absent or
/// over the protocol's maximum.
pub fn mqtt_sn_wrap_packet(packet: &Packet, ctrl: u8, wireless_node_id: &Vec<u8>) -> (r: Result<
    Vec<u8>,
    SnError,
>)
    requires
        packet@.wf(),
        !(packet@ is FwdEncap),
    ensures
        r is Ok <==> 1 <= wireless_node_id@.len() <= 252,
        r matches Ok(b) ==> b@ == (FWDEncapV {
            ctrl,
            wireless_node_id: wireless_node_id@,
            inner_packet: packet@.spec_bytes(),
        }).spec_bytes(),
        r matches Err(e) ==> e == SnError::ValidationError,
{
    if wireless_node_id.len() < 1 || wireless_node_id.len() > 252 {
        return Err(SnError::ValidationError);
    }
    let inner = packet.encode();
    proof {
        lemma_decode_encode(packet@);
    }
    let mut node_id: Vec<u8> = Vec::new();
    let mut i: usize = 0;
    while i < wireless_node_id.len()
        invariant
            i <= wireless_node_id@.len(),
            node_id@ == wireless_node_id@.subrange(0, i as int),
        decreases wireless_node_id@.len() - i,
    {
        node_id.push(wireless_node_id[i]);
        proof {
            assert(wireless_node_id@.subrange(0, i as int) + seq![wireless_node_id@[i as int]]
                =~= wireless_node_id@.subrange(0, i + 1));
        }
        i = i + 1;
    }
    proof {
        assert(wireless_node_id@.subrange(0, wireless_node_id@.len() as int)
            =~= wireless_node_id@);
    }
    let envelope = FWDEncapPacket { ctrl, wireless_node_id: node_id, inner_packet: inner };
    Ok(envelope.as_bytes())
}

/// Wrapping and unwrapping are inverse: the envelope built over a packet's
/// bytes decodes back to that envelope, and its embedded bytes decode back to
/// the packet.
pub proof fn lemma_frwdencap_round_trip(p: PacketV, ctrl: u8, wireless_node_id: Seq<u8>)
    requires
        p.wf(),
        !(p is FwdEncap),
        1 <= wireless_node_id.len() <= 252,
    ensures
        ({
            let envelope = FWDEncapV { ctrl, wireless_node_id, inner_packet: p.spec_bytes() };
            &&& envelope.wf()
            &&& spec_decode(envelope.spec_bytes()) == Some(PacketV::FwdEncap(envelope))
            &&& spec_decode(envelope.inner_packet) == Some(p)
        }),
{
    let envelope = FWDEncapV { ctrl, wireless_node_id, inner_packet: p.spec_bytes() };
    lemma_decode_encode(p);
    lemma_decode_encode(PacketV::FwdEncap(envelope));
}

/// Handles one validated inbound buffer. A bare packet comes back as it is.
/// A forwarder envelope records its sender's wireless node id into the
/// session state and yields the embedded packet, which is what the engine
/// acts on. A bare packet where an envelope is required is a
/// `ProtocolViolation`; anything else that fails validation, and an envelope
/// whose embedded bytes do not decode, is a `MalformedPacket`; either way the
/// counters are left alone.
pub fn mqtt_sn_process_inbound(buffer: &Vec<u8>, settings: &Settings, state: &mut SessionState) -> (r:
    Result<Packet, SnError>)
    ensures
        r matches Ok(p) ==> p@.wf(),
        spec_validate(buffer@, settings.forwarder_encapsulation) is None ==> r == Err::<
            Packet,
            SnError,
        >(
            if buffer@.len() >= 2 && settings.forwarder_encapsulation && buffer@[1]
                != MQTT_SN_FRWDENCAP {
                SnError::ProtocolViolation
            } else {
                SnError::MalformedPacket
            },
        ) && *final(state) == *old(state),
        (match spec_validate(buffer@, settings.forwarder_encapsulation) {
            Some(PacketV::FwdEncap(f)) => {
                &&& final(state).wireless_node_id@ == f.wireless_node_id
                &&& final(state).message_id == old(state).message_id
                &&& final(state).topic_id == old(state).topic_id
                &&& (r is Ok <==> spec_decode(f.inner_packet) is Some)
                &&& (r matches Ok(p) ==> Some(p@) == spec_decode(f.inner_packet))
                &&& (r matches Err(e) ==> e == SnError::MalformedPacket)
            },
            Some(v) => !(v is FwdEncap) ==> (r matches Ok(p) && p@ == v && *final(state) == *old(
                state,
            )),
            None => true,
        }),
{
    let validated = match mqtt_sn_validate_packet(buffer.as_slice(), settings) {
        Some(p) => p,
        None => {
            if buffer.len() >= 2 && settings.forwarder_encapsulation && buffer[1]
                != MQTT_SN_FRWDENCAP {
                return Err(SnError::ProtocolViolation);
            }
            return Err(SnError::MalformedPacket);
        },
    };
    match validated {
        Packet::FwdEncap(envelope) => {
            set_wireless_node_id(state, envelope.wireless_node_id);
            match Packet::decode(envelope.inner_packet.as_slice()) {
                Ok(inner) => Ok(inner),
                Err(e) => Err(e),
            }
        },
        other => Ok(other),
    }
}

/// Receives one buffer and hands it to [`mqtt_sn_process_inbound`]: the
/// forwarder-encapsulation-aware receive path.
pub fn mqtt_receive_frwdencap_packet<S: SensorNetwork>(
    sensor_net: &mut S,
    settings: &Settings,
    state: &mut SessionState,
) -> (r: Result<Packet, SnError>)
    ensures
        r matches Ok(p) ==> p@.wf(),
        final(state).message_id == old(state).message_id,
        final(state).topic_id == old(state).topic_id,
{
    let buffer = match sensor_net.receive() {
        Ok(data) => data,
        Err(_) => {
            return Err(SnError::IoError);
        },
    };
    if buffer.len() == 0 {
        return Err(SnError::IoError);
    }
    mqtt_sn_process_inbound(&buffer, settings, state)
}

// The generic wait-for-reply loop

/// The wait loop's clock readings, in whole seconds: when the wait began and
/// when something was last put on the wire.
pub struct WaitClock {
    pub start: u64,
    pub last_transmission: u64,
}

/// A keep-alive ping is due: the interval is set and has elapsed since the
/// last transmission.
pub open spec fn spec_ping_due(keep_alive: u16, clock: WaitClock, now: u64) -> bool {
    keep_alive > 0 && spec_sub_sat(now, clock.last_transmission) >= keep_alive
}

/// The overall deadline has passed: the timeout is set and has elapsed since
/// the wait began.
pub open spec fn spec_deadline_passed(timeout: u64, clock: WaitClock, now: u64) -> bool {
    timeout > 0 && spec_sub_sat(now, clock.start) >= timeout
}

/// What one wait iteration decides to do.
pub enum WaitAction {
    /// The expected packet arrived: hand it to the caller.
    Deliver(Packet),
    /// The gateway sent DISCONNECT while something else was awaited: the
    /// session is over.
    Abort(DisconnectPacket),
    /// The overall timeout passed without the expected reply: report no
    /// reply.
    GiveUp,
    /// Nothing conclusive this attempt: keep waiting.
    Retry,
}

/// One iteration of the wait-for-reply loop, decided from the clock and from
/// what the transport produced (`None` for a timed-out or failed read).
/// Returns whether a keep-alive ping is owed now, and what to do next: the
/// expected packet is delivered; an unsolicited DISCONNECT aborts; anything
/// else — malformed bytes, an unexpected type, no data — is retried until
/// the overall deadline passes.
pub fn mqtt_sn_wait_for_step(
    packet_type: u8,
    settings: &Settings,
    clock: &mut WaitClock,
    now: u64,
    inbound: Option<Vec<u8>>,
) -> (r: (bool, WaitAction))
    ensures
        r.0 == spec_ping_due(settings.keep_alive, *old(clock), now),
        final(clock).start == old(clock).start,
        final(clock).last_transmission == if r.0 {
            now
        } else {
            old(clock).last_transmission
        },
        ({
            let decoded = match inbound {
                Some(b) => spec_decode(b@),
                None => None,
            };
            let deadline = spec_deadline_passed(settings.timeout, *old(clock), now);
            let matched = decoded matches Some(p) && p.spec_msg_type() == packet_type;
            let aborted = (decoded matches Some(p) && p.spec_msg_type() == MQTT_SN_DISCONNECT)
                && packet_type != MQTT_SN_DISCONNECT;
            &&& (r.1 matches WaitAction::Deliver(q) ==> matched && Some(q@) == decoded
                && q@.wf())
            &&& (matched ==> r.1 is Deliver)
            &&& (r.1 matches WaitAction::Abort(d) ==> aborted && decoded == Some(
                PacketV::Disconnect(d),
            ))
            &&& (aborted ==> r.1 is Abort)
            &&& (r.1 is GiveUp <==> !matched && !aborted && deadline)
            &&& (r.1 is Retry <==> !matched && !aborted && !deadline)
        }),
{
    let since_transmission = if now >= clock.last_transmission {
        now - clock.last_transmission
    } else {
        0
    };
    let ping = settings.keep_alive > 0 && since_transmission >= settings.keep_alive as u64;
    if ping {
        clock.last_transmission = now;
    }
    let elapsed = if now >= clock.start {
        now - clock.start
    } else {
        0
    };
    let deadline = settings.timeout > 0 && elapsed >= settings.timeout;
    let action = match inbound {
        Some(buffer) => {
            match Packet::decode(buffer.as_slice()) {
                Ok(packet) => {
                    let received_type = packet.msg_type();
                    if received_type == packet_type {
                        WaitAction::Deliver(packet)
                    } else if received_type == MQTT_SN_DISCONNECT {
                        match packet {
                            Packet::Disconnect(d) => WaitAction::Abort(d),
                            _ => unreached(),
                        }
                    } else if deadline {
                        WaitAction::GiveUp
                    } else {
                        WaitAction::Retry
                    }
                },
                Err(_) => {
                    if deadline {
                        WaitAction::GiveUp
                    } else {
                        WaitAction::Retry
                    }
                },
            }
        },
        None => {
            if deadline {
                WaitAction::GiveUp
            } else {
                WaitAction::Retry
            }
        },
    };
    (ping, action)
}

/// Waits for a packet of the expected type: receives repeatedly, sending a
/// PINGREQ whenever the keep-alive interval elapses between attempts,
/// skipping malformed or unexpected packets, until the expected type arrives,
/// the gateway disconnects (`UnexpectedDisconnect`), or the overall timeout
/// passes (`Timeout`).
pub fn mqtt_sn_wait_for<S: SensorNetwork>(
    sensor_net: &mut S,
    packet_type: u8,
    settings: &Settings,
) -> (r: Result<Packet, SnError>)
    ensures
        r matches Ok(p) ==> p@.spec_msg_type() == packet_type && p@.wf(),
        r matches Err(e) ==> e == SnError::UnexpectedDisconnect || e == SnError::Timeout,
{
    let start = now_secs();
    let mut clock = WaitClock { start, last_transmission: start };
    let mut attempts_left: u64 = 0xFFFF_FFFF_FFFF_FFFF;
    while attempts_left > 0
        decreases attempts_left,
    {
        let inbound = match sensor_net.receive() {
            Ok(data) => Some(data),
            Err(_) => None,
        };
        let now = now_secs();
        let (ping, action) = mqtt_sn_wait_for_step(packet_type, settings, &mut clock, now, inbound);
        if ping {
            let _ = mqtt_sn_send_pingreq(sensor_net, settings);
        }
        match action {
            WaitAction::Deliver(packet) => {
                return Ok(packet);
            },
            WaitAction::Abort(_) => {
                return Err(SnError::UnexpectedDisconnect);
            },
            WaitAction::GiveUp => {
                return Err(SnError::Timeout);
            },
            WaitAction::Retry => {},
        }
        attempts_left = attempts_left - 1;
    }
    Err(SnError::Timeout)
}

// Specific send and receive operations

/// Sends CONNECT with the configured client id and keep-alive. A client id
/// over 23 bytes is rejected before anything is transmitted, exactly then.
pub fn mqtt_sn_send_connect<S: SensorNetwork>(
    sensor_net: &mut S,
    settings: &Settings,
    clean_session: bool,
) -> (r: Result<ConnectPacket, SnError>)
    ensures
        spec_string_bytes(settings.client_id).len() > MQTT_SN_MAX_CLIENT_ID_LENGTH <==> r
            == Err::<ConnectPacket, SnError>(SnError::ValidationError),
        r matches Ok(p) ==> p@ == (ConnectV {
            flags: if clean_session {
                MQTT_SN_FLAG_CLEAN
            } else {
                0
            },
            protocol_id: MQTT_SN_PROTOCOL_ID,
            duration: settings.keep_alive,
            client_id: spec_string_bytes(settings.client_id),
        }),
        r matches Err(e) ==> e == SnError::ValidationError || e == SnError::IoError,
{
    let client_id = settings.client_id.as_str().as_bytes_vec();
    if client_id.len() > MQTT_SN_MAX_CLIENT_ID_LENGTH {
        return Err(SnError::ValidationError);
    }
    let flags: u8 = if clean_session {
        MQTT_SN_FLAG_CLEAN
    } else {
        0
    };
    let packet = Packet::Connect(
        ConnectPacket {
            flags,
            protocol_id: MQTT_SN_PROTOCOL_ID,
            duration: settings.keep_alive,
            client_id,
        },
    );
    match mqtt_sn_send_session_packet(sensor_net, settings, &packet) {
        Ok(_) => match packet {
            Packet::Connect(p) => Ok(p),
            _ => unreached(),
        },
        Err(e) => Err(e),
    }
}

/// Waits for the CONNACK answering a CONNECT.
pub fn mqtt_sn_receive_connack<S: SensorNetwork>(sensor_net: &mut S, settings: &Settings) -> (r:
    Result<ConnackPacket, SnError>)
    ensures
        r matches Err(e) ==> e == SnError::UnexpectedDisconnect || e == SnError::Timeout,
{
    match mqtt_sn_wait_for(sensor_net, MQTT_SN_CONNACK, settings) {
        Ok(packet) => match packet {
            Packet::Connack(c) => Ok(c),
            _ => unreached(),
        },
        Err(e) => Err(e),
    }
}

/// Sends REGISTER for the configured topic name under a fresh message id. A
/// topic name over the maximum is rejected before anything is transmitted,
/// exactly then, and leaves the session state alone.
pub fn mqtt_sn_send_register<S: SensorNetwork>(
    sensor_net: &mut S,
    settings: &Settings,
    state: &mut SessionState,
) -> (r: Result<RegisterPacket, SnError>)
    ensures
        spec_string_bytes(settings.topic).len() > MQTT_SN_MAX_TOPIC_LENGTH <==> r == Err::<
            RegisterPacket,
            SnError,
        >(SnError::ValidationError),
        r == Err::<RegisterPacket, SnError>(SnError::ValidationError) ==> *final(state) == *old(state),
        r matches Ok(p) ==> p@ == (RegisterV {
            topic_id: 0,
            message_id: ((old(state).message_id + 1) % 0x10000) as u16,
            topic_name: spec_string_bytes(settings.topic),
        }) && final(state).message_id == (old(state).message_id + 1) % 0x10000,
        !(r == Err::<RegisterPacket, SnError>(SnError::ValidationError)) ==> final(state).message_id == (old(state).message_id + 1) % 0x10000 && final(state).topic_id == old(state).topic_id && final(state).wireless_node_id == old(state).wireless_node_id,
        r matches Err(e) ==> e == SnError::ValidationError || e == SnError::IoError,
{
    let topic_name = settings.topic.as_str().as_bytes_vec();
    if topic_name.len() > MQTT_SN_MAX_TOPIC_LENGTH {
        return Err(SnError::ValidationError);
    }
    let message_id = get_next_message_id(state);
    let packet = Packet::Register(RegisterPacket { topic_id: 0, message_id, topic_name });
    match mqtt_sn_send_session_packet(sensor_net, settings, &packet) {
        Ok(_) => match packet {
            Packet::Register(p) => Ok(p),
            _ => unreached(),
        },
        Err(e) => Err(e),
    }
}

/// Waits for the REGACK answering a REGISTER and stores the topic id it
/// assigns into the session state.
pub fn mqtt_sn_receive_regack<S: SensorNetwork>(
    sensor_net: &mut S,
    settings: &Settings,
    state: &mut SessionState,
) -> (r: Result<RegackPacket, SnError>)
    ensures
        r matches Ok(g) ==> final(state).topic_id == g.topic_id && final(state).message_id == old(state).message_id && final(state).wireless_node_id == old(state).wireless_node_id,
        r is Err ==> *final(state) == *old(state),
        r matches Err(e) ==> e == SnError::UnexpectedDisconnect || e == SnError::Timeout,
{
    match mqtt_sn_wait_for(sensor_net, MQTT_SN_REGACK, settings) {
        Ok(packet) => match packet {
            Packet::Regack(g) => {
                set_topic_id(state, g.topic_id);
                Ok(g)
            },
            _ => unreached(),
        },
        Err(e) => Err(e),
    }
}

/// Sends SUBSCRIBE for a topic name under a fresh message id. A two-byte
/// name is flagged as a short topic, anything else as a normal name; a name
/// over the maximum is rejected before anything is transmitted, exactly then.
pub fn mqtt_sn_send_subscribe_topic_name<S: SensorNetwork>(
    sensor_net: &mut S,
    settings: &Settings,
    state: &mut SessionState,
    topic: &str,
) -> (r: Result<SubscribePacket, SnError>)
    ensures
        topic.spec_bytes().len() > MQTT_SN_MAX_TOPIC_LENGTH <==> r == Err::<
            SubscribePacket,
            SnError,
        >(SnError::ValidationError),
        r == Err::<SubscribePacket, SnError>(SnError::ValidationError) ==> *final(state) == *old(state),
        r matches Ok(p) ==> p@ == (SubscribeV {
            flags: spec_qos_flag(settings.qos) | (if topic.spec_bytes().len() == 2 {
                MQTT_SN_TOPIC_TYPE_SHORT
            } else {
                MQTT_SN_TOPIC_TYPE_NORMAL
            }),
            message_id: ((old(state).message_id + 1) % 0x10000) as u16,
            topic: TopicV::TopicName(topic.spec_bytes()),
        }) && final(state).message_id == (old(state).message_id + 1) % 0x10000,
        r matches Err(e) ==> e == SnError::ValidationError || e == SnError::IoError,
{
    let topic_name = topic.as_bytes_vec();
    if topic_name.len() > MQTT_SN_MAX_TOPIC_LENGTH {
        return Err(SnError::ValidationError);
    }
    let message_id = get_next_message_id(state);
    let qos_flag = get_qos_flag(settings.qos);
    let topic_flag: u8 = if topic_name.len() == 2 {
        MQTT_SN_TOPIC_TYPE_SHORT
    } else {
        MQTT_SN_TOPIC_TYPE_NORMAL
    };
    let flags = qos_flag | topic_flag;
    proof {
        assert((qos_flag | topic_flag) & 3 == topic_flag) by (bit_vector)
            requires
                qos_flag == 0 || qos_flag == 0x20 || qos_flag == 0x40 || qos_flag == 0x60,
                topic_flag == 0 || topic_flag == 2,
        ;
    }
    let packet = Packet::Subscribe(
        SubscribePacket { flags, message_id, topic: Topic::TopicName(topic_name) },
    );
    match mqtt_sn_send_session_packet(sensor_net, settings, &packet) {
        Ok(_) => match packet {
            Packet::Subscribe(p) => Ok(p),
            _ => unreached(),
        },
        Err(e) => Err(e),
    }
}

/// Sends SUBSCRIBE for a predefined topic id under a fresh message id.
pub fn mqtt_sn_send_subscribe_topic_id<S: SensorNetwork>(
    sensor_net: &mut S,
    settings: &Settings,
    state: &mut SessionState,
    topic_id: u16,
) -> (r: Result<SubscribePacket, SnError>)
    ensures
        r matches Ok(p) ==> p@ == (SubscribeV {
            flags: spec_qos_flag(settings.qos) | MQTT_SN_TOPIC_TYPE_PREDEFINED,
            message_id: ((old(state).message_id + 1) % 0x10000) as u16,
            topic: TopicV::TopicId(topic_id),
        }) && final(state).message_id == (old(state).message_id + 1) % 0x10000,
        r matches Err(e) ==> e == SnError::IoError,
{
    let message_id = get_next_message_id(state);
    let qos_flag = get_qos_flag(settings.qos);
    let flags = qos_flag | MQTT_SN_TOPIC_TYPE_PREDEFINED;
    proof {
        assert((qos_flag | 1u8) & 3 == 1u8) by (bit_vector)
            requires
                qos_flag == 0 || qos_flag == 0x20 || qos_flag == 0x40 || qos_flag == 0x60,
        ;
    }
    let packet = Packet::Subscribe(
        SubscribePacket { flags, message_id, topic: Topic::TopicId(topic_id) },
    );
    match mqtt_sn_send_session_packet(sensor_net, settings, &packet) {
        Ok(_) => match packet {
            Packet::Subscribe(p) => Ok(p),
            _ => unreached(),
        },
        Err(e) => Err(e),
    }
}

/// The topic id a SUBACK grants: its topic id when the gateway accepted and
/// the message id matches the request, and zero otherwise.
pub fn suback_topic_id(suback: &SubackPacket, last_message_id: u16) -> (r: u16)
    ensures
        r == if suback.return_code == 0 && suback.message_id == last_message_id {
            suback.topic_id
        } else {
            0u16
        },
{
    if suback.return_code != 0 {
        0
    } else if suback.message_id != last_message_id {
        0
    } else {
        suback.topic_id
    }
}

/// Waits for the SUBACK answering a SUBSCRIBE and yields the topic id it
/// grants: zero when the gateway rejected the request or answered some other
/// message id.
pub fn mqtt_sn_receive_suback<S: SensorNetwork>(
    sensor_net: &mut S,
    settings: &Settings,
    state: &SessionState,
) -> (r: Result<u16, SnError>)
    ensures
        r matches Err(e) ==> e == SnError::UnexpectedDisconnect || e == SnError::Timeout,
{
    match mqtt_sn_wait_for(sensor_net, MQTT_SN_SUBACK, settings) {
        Ok(packet) => match packet {
            Packet::Suback(s) => {
                let last = get_last_message_id(state);
                Ok(suback_topic_id(&s, last))
            },
            _ => unreached(),
        },
        Err(e) => Err(e),
    }
}

/// Sends DISCONNECT: bare for a plain disconnect, with a duration when the
/// configured sleep duration asks for sleep mode.
pub fn mqtt_sn_send_disconnect<S: SensorNetwork>(sensor_net: &mut S, settings: &Settings) -> (r:
    Result<DisconnectPacket, SnError>)
    requires
        settings.sleep_duration <= 0xFFFF,
    ensures
        r matches Ok(p) ==> p == (DisconnectPacket {
            duration: if settings.sleep_duration == 0 {
                None
            } else {
                Some(settings.sleep_duration as u16)
            },
        }),
        r matches Err(e) ==> e == SnError::IoError,
{
    let duration: Option<u16> = if settings.sleep_duration == 0 {
        None
    } else {
        Some(settings.sleep_duration as u16)
    };
    let packet = Packet::Disconnect(DisconnectPacket { duration });
    match mqtt_sn_send_session_packet(sensor_net, settings, &packet) {
        Ok(_) => match packet {
            Packet::Disconnect(p) => Ok(p),
            _ => unreached(),
        },
        Err(e) => Err(e),
    }
}

/// Waits for the gateway's DISCONNECT confirmation.
pub fn mqtt_sn_receive_disconnect<S: SensorNetwork>(sensor_net: &mut S, settings: &Settings) -> (r:
    Result<DisconnectPacket, SnError>)
    ensures
        r matches Err(e) ==> e == SnError::UnexpectedDisconnect || e == SnError::Timeout,
{
    match mqtt_sn_wait_for(sensor_net, MQTT_SN_DISCONNECT, settings) {
        Ok(packet) => match packet {
            Packet::Disconnect(d) => Ok(d),
            _ => unreached(),
        },
        Err(e) => Err(e),
    }
}

/// The payload a publish sends: the explicit message when one is given, the
/// configured default otherwise.
pub open spec fn spec_publish_data(settings: Settings, message: Seq<char>) -> Seq<u8> {
    if vstd::utf8::encode_utf8(message).len() > 0 {
        vstd::utf8::encode_utf8(message)
    } else {
        vstd::utf8::encode_utf8(settings.message@)
    }
}

/// The flags byte of a publish: retain, the configured QoS, and the resolved
/// topic-id type.
pub open spec fn spec_publish_flags(settings: Settings) -> u8 {
    (if settings.retain {
        0x10u8
    } else {
        0u8
    }) | spec_qos_flag(settings.qos) | (settings.topic_id_type & 0x03)
}

/// Sends PUBLISH with the given payload (or the configured default when the
/// given one is empty) to the topic id in the session state. A payload over
/// the maximum is rejected before anything is transmitted, exactly then, and
/// leaves the state alone. QoS 1 and 2 draw a fresh message id and QoS 1
/// waits for the PUBACK; QoS 0 and -1 reset the message-id counter.
pub fn mqtt_sn_send_publish<S: SensorNetwork>(
    sensor_net: &mut S,
    settings: &Settings,
    state: &mut SessionState,
    message: &str,
) -> (r: Result<PublishPacket, SnError>)
    ensures
        spec_publish_data(*settings, message@).len() > MQTT_SN_MAX_PAYLOAD_LENGTH <==> r == Err::<
            PublishPacket,
            SnError,
        >(SnError::ValidationError),
        r == Err::<PublishPacket, SnError>(SnError::ValidationError) ==> *final(state) == *old(state),
        r matches Ok(p) ==> p@ == (PublishV {
            flags: spec_publish_flags(*settings),
            topic_id: old(state).topic_id,
            message_id: if settings.qos > 0 {
                ((old(state).message_id + 1) % 0x10000) as u16
            } else {
                0u16
            },
            data: spec_publish_data(*settings, message@),
        }),
        !(r == Err::<PublishPacket, SnError>(SnError::ValidationError)) ==> final(state).message_id
            == (if settings.qos > 0 {
            ((old(state).message_id + 1) % 0x10000) as u16
        } else {
            0u16
        }) && final(state).topic_id == old(state).topic_id && final(state).wireless_node_id == old(state).wireless_node_id,
        r matches Err(e) ==> e == SnError::ValidationError || e == SnError::IoError,
{
    let message_bytes = message.as_bytes_vec();
    let data: Vec<u8> = if message_bytes.len() > 0 {
        message_bytes
    } else {
        settings.message.as_str().as_bytes_vec()
    };
    if data.len() > MQTT_SN_MAX_PAYLOAD_LENGTH {
        return Err(SnError::ValidationError);
    }
    let retain_flag: u8 = if settings.retain {
        0x10
    } else {
        0
    };
    let qos_flag = get_qos_flag(settings.qos);
    let flags = retain_flag | qos_flag | (settings.topic_id_type & 0x03);
    let topic_id = get_topic_id(state);
    let message_id: u16 = if settings.qos > 0 {
        get_next_message_id(state)
    } else {
        reset_message_id(state);
        0
    };
    let packet = Packet::Publish(PublishPacket { flags, topic_id, message_id, data });
    match mqtt_sn_send_session_packet(sensor_net, settings, &packet) {
        Ok(_) => {
            if settings.qos == 1 {
                let _ = mqtt_sn_wait_for(sensor_net, MQTT_SN_PUBACK, settings);
            }
            match packet {
                Packet::Publish(p) => Ok(p),
                _ => unreached(),
            }
        },
        Err(e) => Err(e),
    }
}

/// Waits for an inbound PUBLISH.
pub fn mqtt_sn_receive_publish<S: SensorNetwork>(sensor_net: &mut S, settings: &Settings) -> (r:
    Result<PublishPacket, SnError>)
    ensures
        r matches Ok(p) ==> p@.wf(),
        r matches Err(e) ==> e == SnError::UnexpectedDisconnect || e == SnError::Timeout,
{
    match mqtt_sn_wait_for(sensor_net, MQTT_SN_PUBLISH, settings) {
        Ok(packet) => match packet {
            Packet::Publish(p) => Ok(p),
            _ => unreached(),
        },
        Err(e) => Err(e),
    }
}

/// Acknowledges an inbound PUBLISH: sends PUBACK echoing its topic id and
/// message id with the given return code, enveloped if the session requires
/// it.
pub fn mqtt_sn_send_puback<S: SensorNetwork>(
    sensor_net: &mut S,
    settings: &Settings,
    packet: &PublishPacket,
    return_code: u8,
) -> (r: Result<PubackPacket, SnError>)
    ensures
        r matches Ok(a) ==> a == (PubackPacket {
            topic_id: packet.topic_id,
            message_id: packet.message_id,
            return_code,
        }),
        r matches Err(e) ==> e == SnError::IoError,
{
    let puback = Packet::Puback(
        PubackPacket { topic_id: packet.topic_id, message_id: packet.message_id, return_code },
    );
    match mqtt_sn_send_session_packet(sensor_net, settings, &puback) {
        Ok(_) => match puback {
            Packet::Puback(a) => Ok(a),
            _ => unreached(),
        },
        Err(e) => Err(e),
    }
}

/// A two-byte topic name packed directly into a topic id: the first byte
/// high, the second low, whatever the platform's byte order.
pub fn short_topic_id(topic: &str) -> (r: u16)
    requires
        topic.spec_bytes().len() == 2,
    ensures
        r == spec_be16(topic.spec_bytes()[0], topic.spec_bytes()[1]),
{
    let bytes = topic.as_bytes();
    (bytes[0] as u16) * 256 + (bytes[1] as u16)
}

/// Resolves the topic a session publishes to, per the configuration: a
/// configured nonzero topic id is used as a predefined id; a two-byte topic
/// name is packed directly as a short topic id; any other name is registered
/// with the gateway, whose REGACK assigns the id. The resolved id lands in
/// the session state and the resolved topic-id type comes back.
pub fn mqtt_sn_resolve_topic<S: SensorNetwork>(
    sensor_net: &mut S,
    settings: &Settings,
    state: &mut SessionState,
) -> (r: Result<u8, SnError>)
    ensures
        settings.topic_id != 0 ==> r == Ok::<u8, SnError>(MQTT_SN_TOPIC_TYPE_PREDEFINED) && final(state).topic_id == settings.topic_id && final(state).message_id == old(state).message_id,
        settings.topic_id == 0 && spec_string_bytes(settings.topic).len() == 2 ==> r == Ok::<
            u8,
            SnError,
        >(MQTT_SN_TOPIC_TYPE_SHORT) && final(state).topic_id == spec_be16(
            spec_string_bytes(settings.topic)[0],
            spec_string_bytes(settings.topic)[1],
        ) && final(state).message_id == old(state).message_id,
        r matches Ok(t) ==> (t == MQTT_SN_TOPIC_TYPE_PREDEFINED || t == MQTT_SN_TOPIC_TYPE_SHORT
            || t == MQTT_SN_TOPIC_TYPE_NORMAL),
{
    if settings.topic_id != 0 {
        set_topic_id(state, settings.topic_id);
        return Ok(MQTT_SN_TOPIC_TYPE_PREDEFINED);
    }
    let topic_bytes = settings.topic.as_str().as_bytes_vec();
    if topic_bytes.len() == 2 {
        let id = short_topic_id(settings.topic.as_str());
        set_topic_id(state, id);
        return Ok(MQTT_SN_TOPIC_TYPE_SHORT);
    }
    match mqtt_sn_send_register(sensor_net, settings, state) {
        Ok(_) => {},
        Err(e) => {
            return Err(e);
        },
    }
    match mqtt_sn_receive_regack(sensor_net, settings, state) {
        Ok(_) => Ok(MQTT_SN_TOPIC_TYPE_NORMAL),
        Err(e) => Err(e),
    }
}

} // verus!
