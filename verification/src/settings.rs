//! Session configuration and per-session mutable state.
//!
//! The configuration is immutable for a run and owned by the caller. The
//! mutable counters — message id, resolved topic id, last observed wireless
//! node id — are scoped to one session, so independent sessions never share
//! state.

use vstd::prelude::*;

use crate::constants::{
    MQTT_SN_DEFAULT_KEEP_ALIVE, MQTT_SN_DEFAULT_PORT, MQTT_SN_DEFAULT_TIMEOUT, MQTT_SN_FLAG_QOS_0,
    MQTT_SN_FLAG_QOS_1, MQTT_SN_FLAG_QOS_2, MQTT_SN_FLAG_QOS_N1,
    MQTT_SN_MAX_WIRELESS_NODE_ID_LENGTH,
};

verus! {

/// Immutable-per-run settings, built by the caller and passed by reference
/// into every engine operation. The topic registry pairs gateway-assigned
/// topic ids with their names for later lookups on inbound publishes.
#[derive(Debug)]
pub struct Settings {
    pub mqtt_sn_host: String,
    pub mqtt_sn_port: u16,
    pub serial_port: String,
    pub baudrate: u32,
    pub keep_alive: u16,
    pub timeout: u64,
    pub network_timeout: u64,
    pub network_retries: u8,
    pub sleep_duration: u64,
    pub wireless_node_id: u16,
    pub qos: i8,
    pub source_port: u16,
    pub topic_id: u16,
    pub topic_id_type: u8,
    pub retain: bool,
    pub one_message_per_line: bool,
    pub client_id: String,
    pub forwarder_encapsulation: bool,
    pub debug_level: u8,
    pub file: String,
    pub message: String,
    pub null_message: bool,
    pub read_stdin: bool,
    pub topic: String,
    pub verbose: bool,
    pub verbose_time: bool,
    pub topic_map: Vec<(u16, String)>,
    pub topic_list: Vec<String>,
    pub topic_id_list: Vec<u16>,
    pub loop_frequency: u64,
    pub loop_count: u64,
    pub single_message: bool,
    pub clean_session: bool,
}

impl Default for Settings {
    /// The defaults of a fresh configuration: localhost gateway on the
    /// default port, QoS 0, clean session, nothing to send yet.
    fn default() -> (r: Settings)
        ensures
            r.mqtt_sn_host@ == "127.0.0.1"@,
            r.mqtt_sn_port == MQTT_SN_DEFAULT_PORT,
            r.serial_port@ == "/dev/ttyUSB0"@,
            r.baudrate == 115200u32,
            r.keep_alive == MQTT_SN_DEFAULT_KEEP_ALIVE,
            r.timeout == MQTT_SN_DEFAULT_TIMEOUT,
            r.network_timeout == 100u64,
            r.network_retries == 3u8,
            r.sleep_duration == 0u64,
            r.wireless_node_id == 0u16,
            r.qos == 0i8,
            r.source_port == 0u16,
            r.topic_id == 0u16,
            r.topic_id_type == 0u8,
            !r.retain,
            !r.one_message_per_line,
            r.client_id@ == "mqtt-sn-tools-rs"@,
            !r.forwarder_encapsulation,
            r.debug_level == 0u8,
            r.file@.len() == 0,
            r.message@.len() == 0,
            !r.null_message,
            !r.read_stdin,
            r.topic@.len() == 0,
            !r.verbose,
            !r.verbose_time,
            r.topic_map@.len() == 0,
            r.topic_list@.len() == 0,
            r.topic_id_list@.len() == 0,
            r.loop_frequency == 0u64,
            r.loop_count == 0u64,
            !r.single_message,
            r.clean_session,
    {
        proof {
            reveal_strlit("");
        }
        Settings {
            mqtt_sn_host: "127.0.0.1".to_owned(),
            mqtt_sn_port: MQTT_SN_DEFAULT_PORT,
            serial_port: "/dev/ttyUSB0".to_owned(),
            baudrate: 115200,
            keep_alive: MQTT_SN_DEFAULT_KEEP_ALIVE,
            timeout: MQTT_SN_DEFAULT_TIMEOUT,
            network_timeout: 100,
            network_retries: 3,
            sleep_duration: 0,
            wireless_node_id: 0,
            qos: 0,
            source_port: 0,
            topic_id: 0,
            topic_id_type: 0,
            retain: false,
            one_message_per_line: false,
            client_id: "mqtt-sn-tools-rs".to_owned(),
            forwarder_encapsulation: false,
            debug_level: 0,
            file: "".to_owned(),
            message: "".to_owned(),
            null_message: false,
            read_stdin: false,
            topic: "".to_owned(),
            verbose: false,
            verbose_time: false,
            topic_map: Vec::new(),
            topic_list: Vec::new(),
            topic_id_list: Vec::new(),
            loop_frequency: 0,
            loop_count: 0,
            single_message: false,
            clean_session: true,
        }
    }
}

/// Mutable state of one session: the message-id counter, the topic id
/// resolved for the active topic, and the wireless node id last observed in a
/// forwarder envelope. Created at session start and discarded at the end.
#[derive(Debug)]
pub struct SessionState {
    pub message_id: u16,
    pub topic_id: u16,
    pub wireless_node_id: Vec<u8>,
}

impl SessionState {
    /// A fresh session: counters at zero, no node id seen.
    pub fn new() -> (r: SessionState)
        ensures
            r.message_id == 0u16,
            r.topic_id == 0u16,
            r.wireless_node_id@.len() == 0,
    {
        SessionState { message_id: 0, topic_id: 0, wireless_node_id: Vec::new() }
    }
}

/// Draws the next message id: the counter moves up by one, wrapping at 16
/// bits, and the new value is both stored and returned.
pub fn get_next_message_id(state: &mut SessionState) -> (r: u16)
    ensures
        final(state).message_id == (old(state).message_id + 1) % 0x10000,
        r == final(state).message_id,
        final(state).topic_id == old(state).topic_id,
        final(state).wireless_node_id == old(state).wireless_node_id,
{
    let next_id = if state.message_id == 0xFFFF {
        0
    } else {
        state.message_id + 1
    };
    state.message_id = next_id;
    next_id
}

/// The most recently issued message id.
pub fn get_last_message_id(state: &SessionState) -> (r: u16)
    ensures
        r == state.message_id,
{
    state.message_id
}

/// Resets the message-id counter, as a QoS 0 publish does.
pub fn reset_message_id(state: &mut SessionState)
    ensures
        final(state).message_id == 0u16,
        final(state).topic_id == old(state).topic_id,
        final(state).wireless_node_id == old(state).wireless_node_id,
{
    state.message_id = 0;
}

/// The topic id resolved for the active topic.
pub fn get_topic_id(state: &SessionState) -> (r: u16)
    ensures
        r == state.topic_id,
{
    state.topic_id
}

/// Stores the topic id resolved for the active topic.
pub fn set_topic_id(state: &mut SessionState, topic_id: u16)
    ensures
        final(state).topic_id == topic_id,
        final(state).message_id == old(state).message_id,
        final(state).wireless_node_id == old(state).wireless_node_id,
{
    state.topic_id = topic_id;
}

/// Records the wireless node id observed in a forwarder envelope, truncated
/// to the protocol's maximum length.
pub fn set_wireless_node_id(state: &mut SessionState, wireless_node_id: Vec<u8>)
    ensures
        final(state).wireless_node_id@ == if wireless_node_id@.len()
            <= MQTT_SN_MAX_WIRELESS_NODE_ID_LENGTH {
            wireless_node_id@
        } else {
            wireless_node_id@.subrange(0, MQTT_SN_MAX_WIRELESS_NODE_ID_LENGTH as int)
        },
        final(state).message_id == old(state).message_id,
        final(state).topic_id == old(state).topic_id,
{
    let mut wireless_node_id = wireless_node_id;
    if wireless_node_id.len() > MQTT_SN_MAX_WIRELESS_NODE_ID_LENGTH {
        wireless_node_id.truncate(MQTT_SN_MAX_WIRELESS_NODE_ID_LENGTH);
    }
    state.wireless_node_id = wireless_node_id;
}

/// The wireless node id last recorded, copied out.
pub fn get_wireless_node_id(state: &SessionState) -> (r: Vec<u8>)
    ensures
        r@ == state.wireless_node_id@,
{
    let mut out: Vec<u8> = Vec::new();
    let mut i: usize = 0;
    while i < state.wireless_node_id.len()
        invariant
            i <= state.wireless_node_id@.len(),
            out@ == state.wireless_node_id@.subrange(0, i as int),
        decreases state.wireless_node_id@.len() - i,
    {
        out.push(state.wireless_node_id[i]);
        proof {
            assert(state.wireless_node_id@.subrange(0, i as int) + seq![
                state.wireless_node_id@[i as int],
            ] =~= state.wireless_node_id@.subrange(0, i + 1));
        }
        i = i + 1;
    }
    proof {
        assert(state.wireless_node_id@.subrange(0, state.wireless_node_id@.len() as int)
            =~= state.wireless_node_id@);
    }
    out
}

/// The QoS bits of the flags byte for a configured QoS level; levels outside
/// the protocol read as QoS 0 bits.
pub fn get_qos_flag(qos: i8) -> (r: u8)
    ensures
        r == spec_qos_flag(qos),
{
    if qos == 0 {
        MQTT_SN_FLAG_QOS_0
    } else if qos == 1 {
        MQTT_SN_FLAG_QOS_1
    } else if qos == 2 {
        MQTT_SN_FLAG_QOS_2
    } else if qos == -1 {
        MQTT_SN_FLAG_QOS_N1
    } else {
        0
    }
}

/// The QoS bits for a configured QoS level.
pub open spec fn spec_qos_flag(qos: i8) -> u8 {
    if qos == 0 {
        MQTT_SN_FLAG_QOS_0
    } else if qos == 1 {
        MQTT_SN_FLAG_QOS_1
    } else if qos == 2 {
        MQTT_SN_FLAG_QOS_2
    } else if qos == -1 {
        MQTT_SN_FLAG_QOS_N1
    } else {
        0
    }
}

} // verus!
