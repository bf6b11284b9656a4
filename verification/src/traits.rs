//! The capability traits that generic code is written against.

pub mod packet;
pub mod sensor_net;

pub use packet::MqttSnPacket;
pub use sensor_net::SensorNet;
