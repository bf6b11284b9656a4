//! Client-side MQTT-SN protocol engine: binary packet codec, session state,
//! request/acknowledgement handling and transport framing, with machine-checked
//! contracts for the wire format and the engine's bookkeeping.

pub mod constants;
pub mod errors;
pub mod network_abstractions;
pub mod packet_types;
pub mod packets;
pub mod parser;
pub mod pubsub;
pub mod settings;
pub mod traits;
pub mod value_objects;
