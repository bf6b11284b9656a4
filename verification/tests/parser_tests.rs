use mqtt_sn_tools_rs::parser::{parse_packet, ParsedPacket};
use mqtt_sn_tools_rs::value_objects::packet_types::MqttSnPacketType;
use mqtt_sn_tools_rs::value_objects::topic_id::TopicId;

#[test]
fn parse_dispatches_on_type_byte() {
    // A CONNACK wire buffer [length, type, return_code].
    let connack = parse_packet(&vec![0x03, 0x05, 0x00]).unwrap();
    match connack {
        ParsedPacket::Connack(c) => {
            assert_eq!(c.msg_type, MqttSnPacketType::Connack);
        }
        _ => panic!("expected a parsed CONNACK"),
    }

    // A CONNECT wire buffer; the client id spans the declared length only.
    let connect = parse_packet(&vec![
        0x0B, 0x04, 0x00, 0x01, 0x01, 0xF4, 0x01, 0x02, 0x03, 0x04, 0x05, 0xEE, 0xEE,
    ])
    .unwrap();
    match connect {
        ParsedPacket::Connect(c) => {
            assert_eq!(c.msg_type, MqttSnPacketType::Connect);
            assert_eq!(c.duration, 500);
            assert_eq!(c.client_id, vec![1, 2, 3, 4, 5]);
        }
        _ => panic!("expected a parsed CONNECT"),
    }

    // A PUBLISH wire buffer; the data spans the declared length only.
    let publish = parse_packet(&vec![
        0x0A, 0x0C, 0x00, 0x00, 0x01, 0x00, 0x02, 0x07, 0x08, 0x09, 0xEE,
    ])
    .unwrap();
    match publish {
        ParsedPacket::Publish(p) => {
            assert_eq!(p.topic_id, TopicId::Normal(1));
            assert_eq!(p.msg_id, 2);
            assert_eq!(p.data, vec![7, 8, 9]);
        }
        _ => panic!("expected a parsed PUBLISH"),
    }

    // The compact REGACK layout starts its fields right after the length
    // byte, so here the type byte doubles as the topic id's high byte.
    let regack = parse_packet(&vec![0x07, 0x0B, 0x01, 0x00, 0x02, 0x00]).unwrap();
    match regack {
        ParsedPacket::Regack(g) => {
            assert_eq!(g.topic_id, 0x0B01);
            assert_eq!(g.msg_id, 2);
            assert_eq!(g.return_code, 0);
        }
        _ => panic!("expected a parsed REGACK"),
    }

    // The compact REGISTER layout likewise; the name must be text.
    let register =
        parse_packet(&vec![0x09, 0x0A, 0x01, 0x00, 0x02, b't', b'e', b's', b't']).unwrap();
    match register {
        ParsedPacket::Register(g) => {
            assert_eq!(g.topic_id, 0x0A01);
            assert_eq!(g.message_id, 2);
            assert_eq!(g.topic_name, "test");
        }
        _ => panic!("expected a parsed REGISTER"),
    }

    let puback = parse_packet(&vec![0x07, 0x0D, 0x05, 0x00, 0x07, 0x00]).unwrap();
    match puback {
        ParsedPacket::Puback(a) => {
            assert_eq!(a.topic_id, TopicId::Normal(0x0D05));
            assert_eq!(a.msg_id, 7);
        }
        _ => panic!("expected a parsed PUBACK"),
    }
}

#[test]
fn parse_rejects_bad_buffers() {
    // Too short to carry a type byte.
    assert!(parse_packet(&vec![]).is_none());
    assert!(parse_packet(&vec![0x03]).is_none());
    // Too short for the selected layout.
    assert!(parse_packet(&vec![0x03, 0x05]).is_none());
    assert!(parse_packet(&vec![0x05, 0x0C, 0x00, 0x00, 0x01]).is_none());
    // A declared length beyond the buffer.
    assert!(parse_packet(&vec![0x0C, 0x04, 0x00, 0x01, 0x01, 0xF4, 0x01]).is_none());
    // An unsupported type byte is malformed, not a fallback.
    assert!(parse_packet(&vec![0x02, 0x16]).is_none());
    assert!(parse_packet(&vec![0x02, 0x33]).is_none());
    // A register whose name bytes are not text.
    assert!(parse_packet(&vec![0x06, 0x0A, 0x00, 0x01, 0x00, 0xFF]).is_none());
}
