//! Packet value types over the codec's value objects: each message carries
//! its type tag and typed fields, and knows its own byte layout.

pub mod connack;
pub mod connect;
pub mod disconnect;
pub mod puback;
pub mod publish;
pub mod regack;
pub mod register;

pub use connack::ConnackPacket;
pub use connect::ConnectPacket;
pub use disconnect::DisconnectPacket;
pub use puback::PubackPacket;
pub use publish::PublishPacket;
pub use regack::RegackPacket;
pub use register::RegisterPacket;
