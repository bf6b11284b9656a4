use mqtt_sn_tools_rs::packets::connack::{ConnackPacket, ConnackReturnCode};
use mqtt_sn_tools_rs::packets::connect::ConnectPacket;
use mqtt_sn_tools_rs::packets::disconnect::DisconnectPacket;
use mqtt_sn_tools_rs::packets::publish::PublishPacket;
use mqtt_sn_tools_rs::packets::regack::RegackPacket;
use mqtt_sn_tools_rs::packets::register::RegisterPacket;
use mqtt_sn_tools_rs::traits::packet::MqttSnPacket;
use mqtt_sn_tools_rs::value_objects::flags::Flags;
use mqtt_sn_tools_rs::value_objects::packet_types::MqttSnPacketType;
use mqtt_sn_tools_rs::value_objects::topic_id::TopicId;

#[test]
fn connack_test_get_length() {
    let packet = ConnackPacket {
        msg_type: MqttSnPacketType::Connack,
        return_code: ConnackReturnCode::Accepted,
    };
    assert_eq!(packet.get_length(), 0x03);
}

#[test]
fn connack_test_get_type() {
    let packet = ConnackPacket {
        msg_type: MqttSnPacketType::Connack,
        return_code: ConnackReturnCode::Accepted,
    };
    assert_eq!(packet.get_type(), MqttSnPacketType::Connack);
}

#[test]
fn connack_test_as_bytes() {
    let packet = ConnackPacket {
        msg_type: MqttSnPacketType::Connack,
        return_code: ConnackReturnCode::Accepted,
    };
    assert_eq!(packet.as_bytes(), vec![0x03, 0x05, 0x00]);
}

#[test]
fn connack_test_from_bytes() {
    let packet = ConnackPacket {
        msg_type: MqttSnPacketType::Connack,
        return_code: ConnackReturnCode::Accepted,
    };
    let bytes = vec![0x03, 0x05, 0x00];
    assert_eq!(ConnackPacket::from_bytes(&bytes), packet);
}

#[test]
fn connect_test_length() {
    let packet = ConnectPacket {
        msg_type: MqttSnPacketType::Connect,
        flags: 0,
        protocol_id: 1,
        duration: 500,
        client_id: vec![1, 2, 3, 4, 5],
    };
    assert_eq!(packet.get_length(), 0x0B);
}

#[test]
fn connect_test_get_type() {
    let packet = ConnectPacket {
        msg_type: MqttSnPacketType::Connect,
        flags: 0,
        protocol_id: 1,
        duration: 500,
        client_id: vec![1, 2, 3, 4, 5],
    };
    assert_eq!(packet.get_type(), MqttSnPacketType::Connect);
}

#[test]
fn connect_test_from_bytes() {
    let bytes = vec![0x0B, 0x04, 0x00, 0x01, 0x01, 0xF4, 0x01, 0x02, 0x03, 0x04, 0x05];
    let packet = ConnectPacket::from_bytes(&bytes);
    assert_eq!(packet.get_length(), 0x0B);
    assert_eq!(packet.msg_type, MqttSnPacketType::Connect);
    assert_eq!(packet.flags, 0x00);
    assert_eq!(packet.protocol_id, 0x01);
    assert_eq!(packet.duration, 500);
    assert_eq!(packet.client_id, vec![1, 2, 3, 4, 5]);
}

#[test]
fn connect_test_as_bytes() {
    let packet = ConnectPacket {
        msg_type: MqttSnPacketType::Connect,
        flags: 0x00,
        protocol_id: 0x01,
        duration: 500,
        client_id: vec![1, 2, 3, 4, 5],
    };
    let bytes = packet.as_bytes();
    assert_eq!(bytes, vec![0x0B, 0x04, 0x00, 0x01, 0x01, 0xF4, 0x01, 0x02, 0x03, 0x04, 0x05]);
}

#[test]
fn disconnect_test_length() {
    let packet = DisconnectPacket { msg_type: MqttSnPacketType::Disconnect, duration: None };
    assert_eq!(packet.get_length(), 0x02);
}

#[test]
fn test_length_with_duration() {
    let packet = DisconnectPacket { msg_type: MqttSnPacketType::Disconnect, duration: Some(10) };
    assert_eq!(packet.get_length(), 0x04);
}

#[test]
fn test_type() {
    let packet = DisconnectPacket { msg_type: MqttSnPacketType::Disconnect, duration: None };
    assert_eq!(packet.get_type(), MqttSnPacketType::Disconnect);
}

#[test]
fn disconnect_test_from_bytes() {
    let bytes = vec![0x02, 0x14];
    let packet = DisconnectPacket::from_bytes(&bytes);
    assert_eq!(packet.msg_type, MqttSnPacketType::Disconnect);
    assert_eq!(packet.duration, None);
}

#[test]
fn test_from_bytes_with_duration() {
    let bytes = vec![0x04, 0x14, 0x00, 0x0A];
    let packet = DisconnectPacket::from_bytes(&bytes);
    assert_eq!(packet.msg_type, MqttSnPacketType::Disconnect);
    assert_eq!(packet.duration, Some(10));
}

#[test]
fn disconnect_test_as_bytes() {
    let packet = DisconnectPacket { msg_type: MqttSnPacketType::Disconnect, duration: None };
    assert_eq!(packet.as_bytes(), vec![0x02, 0x18]);
}

#[test]
fn test_as_bytes_with_duration() {
    let packet = DisconnectPacket { msg_type: MqttSnPacketType::Disconnect, duration: Some(10) };
    assert_eq!(packet.as_bytes(), vec![0x04, 0x18, 0x00, 0x0A]);
}

#[test]
fn publish_test_length() {
    let packet = PublishPacket {
        msg_type: MqttSnPacketType::Publish,
        flags: Flags::from(0),
        topic_id: TopicId::Normal(1),
        msg_id: 2,
        data: vec![1, 2, 3, 4, 5, 6],
    };
    assert_eq!(packet.get_length(), 0x0D);
}

#[test]
fn publish_test_get_type() {
    let packet = PublishPacket {
        msg_type: MqttSnPacketType::Publish,
        flags: Flags::from(0),
        topic_id: TopicId::Normal(1),
        msg_id: 2,
        data: vec![1, 2, 3, 4, 5, 6],
    };
    assert_eq!(packet.get_type(), MqttSnPacketType::Publish);
}

#[test]
fn publish_test_as_bytes() {
    let packet = PublishPacket {
        msg_type: MqttSnPacketType::Publish,
        flags: Flags::from(0),
        topic_id: TopicId::Normal(1),
        msg_id: 2,
        data: vec![1, 2, 3, 4, 5, 6],
    };
    let flags = Flags::from(0);
    let flags_byte: u8 = flags.into();
    assert_eq!(
        packet.as_bytes(),
        vec![0x0D, 0x0C, flags_byte, 0x00, 0x01, 0x00, 0x02, 0x01, 0x02, 0x03, 0x04, 0x05, 0x06]
    );
}

#[test]
fn publish_test_from_bytes() {
    let bytes = vec![0x0D, 0x0C, 0x00, 0x00, 0x01, 0x00, 0x02, 0x01, 0x02, 0x03, 0x04, 0x05, 0x06];
    let packet = PublishPacket::from_bytes(&bytes);
    assert_eq!(packet.msg_type, MqttSnPacketType::Publish);
    assert_eq!(packet.flags, Flags::from(0));
    assert_eq!(packet.topic_id, TopicId::Normal(1));
    assert_eq!(packet.msg_id, 2);
    assert_eq!(packet.data, vec![1, 2, 3, 4, 5, 6]);
}

#[test]
fn regack_test_length() {
    let packet = RegackPacket { topic_id: 1, msg_id: 2, return_code: 0 };
    assert_eq!(packet.get_length(), 0x07);
}

#[test]
fn regack_test_get_type() {
    let packet = RegackPacket { topic_id: 1, msg_id: 2, return_code: 0 };
    assert_eq!(packet.get_type(), MqttSnPacketType::Regack);
}

#[test]
fn regack_test_as_bytes() {
    let packet = RegackPacket { topic_id: 1, msg_id: 2, return_code: 0 };
    assert_eq!(packet.as_bytes(), vec![0x07, 0x00, 0x01, 0x00, 0x02, 0x00]);
}

#[test]
fn regack_test_from_bytes() {
    let bytes = vec![0x07, 0x00, 0x01, 0x00, 0x02, 0x00];
    let packet = RegackPacket::from_bytes(&bytes);
    assert_eq!(packet.topic_id, 1);
    assert_eq!(packet.msg_id, 2);
    assert_eq!(packet.return_code, 0);
}

#[test]
fn register_test_length() {
    let packet = RegisterPacket { topic_id: 1, message_id: 2, topic_name: "test".to_string() };
    assert_eq!(packet.get_length(), 0x0B);
}

#[test]
fn register_test_get_type() {
    let packet = RegisterPacket { topic_id: 1, message_id: 2, topic_name: "test".to_string() };
    assert_eq!(packet.get_type(), MqttSnPacketType::Register);
}

#[test]
fn register_test_as_bytes() {
    let packet = RegisterPacket { topic_id: 1, message_id: 2, topic_name: "test".to_string() };
    assert_eq!(packet.as_bytes(), vec![0x0B, 0x00, 0x01, 0x00, 0x02, 0x74, 0x65, 0x73, 0x74]);
}

#[test]
fn register_test_from_bytes() {
    let bytes = vec![0x0B, 0x00, 0x01, 0x00, 0x02, 0x74, 0x65, 0x73, 0x74];
    let packet = RegisterPacket::from_bytes(&bytes);
    assert_eq!(packet.topic_id, 1);
    assert_eq!(packet.message_id, 2);
    assert_eq!(packet.topic_name, "test".to_string());
}
