use mqtt_sn_tools_rs::traits::packet::MqttSnPacket;
use mqtt_sn_tools_rs::value_objects::packet_types::MqttSnPacketType;

// A minimal packet type exercising the trait surface.
#[derive(Debug)]
struct DummyPacket;

impl MqttSnPacket for DummyPacket {
    fn get_length(&self) -> u8 {
        0
    }

    fn get_type(&self) -> MqttSnPacketType {
        MqttSnPacketType::Advertise
    }

    fn as_bytes(&self) -> Vec<u8> {
        Vec::new()
    }
}

#[test]
fn packet_test_get_length() {
    let packet = DummyPacket;
    assert_eq!(packet.get_length(), 0);
}

#[test]
fn packet_test_get_type() {
    let packet = DummyPacket;
    assert_eq!(packet.get_type(), MqttSnPacketType::Advertise);
}

#[test]
fn packet_test_as_bytes() {
    let packet = DummyPacket;
    assert_eq!(packet.as_bytes(), Vec::<u8>::new());
}
