//! Small immutable value types shared by the codec and the engine.

pub mod flags;
pub mod packet_types;
pub mod return_codes;
pub mod sensor_net_types;
pub mod topic_id;

pub use flags::Flags;
pub use flags::Qos;
pub use packet_types::MqttSnPacketType;
pub use return_codes::MqttSnReturnCode;
pub use sensor_net_types::SensorNetInitArgs;
pub use sensor_net_types::SensorNetType;
pub use topic_id::TopicId;
pub use topic_id::TopicIdType;
