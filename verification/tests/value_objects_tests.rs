use mqtt_sn_tools_rs::value_objects::flags::{Flags, Qos};
use mqtt_sn_tools_rs::value_objects::packet_types::MqttSnPacketType;
use mqtt_sn_tools_rs::value_objects::return_codes::MqttSnReturnCode;
use mqtt_sn_tools_rs::value_objects::sensor_net_types::{
    CharSize, FlowControl, Parity, SensorNetInitArgs, SensorNetType,
};
use mqtt_sn_tools_rs::settings::get_qos_flag;
use mqtt_sn_tools_rs::value_objects::topic_id::TopicId;
use mqtt_sn_tools_rs::value_objects::topic_id::TopicIdType;

#[test]
fn test_from_byte() {
    let flags = Flags::from_byte(0b0000_0000);
    assert_eq!(flags.dup, false);
    assert_eq!(flags.qos, Qos::QOS0);
    assert_eq!(flags.retain, false);
    assert_eq!(flags.will, false);
    assert_eq!(flags.clean_session, false);
    assert_eq!(flags.topic_id_type, TopicIdType::Normal);

    let flags = Flags::from_byte(0b1000_0000);
    assert_eq!(flags.dup, true);
    assert_eq!(flags.qos, Qos::QOS0);
    assert_eq!(flags.retain, false);
    assert_eq!(flags.will, false);
    assert_eq!(flags.clean_session, false);
    assert_eq!(flags.topic_id_type, TopicIdType::Normal);

    let flags = Flags::from_byte(0b0100_0000);
    assert_eq!(flags.dup, false);
    assert_eq!(flags.qos, Qos::QOS2);
    assert_eq!(flags.retain, false);
    assert_eq!(flags.will, false);
    assert_eq!(flags.clean_session, false);
    assert_eq!(flags.topic_id_type, TopicIdType::Normal);

    let flags = Flags::from_byte(0b0001_0000);
    assert_eq!(flags.dup, false);
    assert_eq!(flags.qos, Qos::QOS0);
    assert_eq!(flags.retain, true);
    assert_eq!(flags.will, false);
    assert_eq!(flags.clean_session, false);
    assert_eq!(flags.topic_id_type, TopicIdType::Normal);

    let flags = Flags::from_byte(0b0000_1000);
    assert_eq!(flags.dup, false);
    assert_eq!(flags.qos, Qos::QOS0);
    assert_eq!(flags.retain, false);
    assert_eq!(flags.will, true);
    assert_eq!(flags.clean_session, false);
    assert_eq!(flags.topic_id_type, TopicIdType::Normal);

    let flags = Flags::from_byte(0b0000_0100);
    assert_eq!(flags.dup, false);
    assert_eq!(flags.qos, Qos::QOS0);
    assert_eq!(flags.retain, false);
    assert_eq!(flags.will, false);
    assert_eq!(flags.clean_session, true);
    assert_eq!(flags.topic_id_type, TopicIdType::Normal);

    let flags = Flags::from_byte(0b0000_0011);
    assert_eq!(flags.dup, false);
    assert_eq!(flags.qos, Qos::QOS0);
    assert_eq!(flags.retain, false);
    assert_eq!(flags.will, false);
    assert_eq!(flags.clean_session, false);
    assert_eq!(flags.topic_id_type, TopicIdType::Short);
}

#[test]
fn test_as_byte() {
    let flags = Flags {
        dup: false,
        qos: Qos::QOS0,
        retain: false,
        will: false,
        clean_session: false,
        topic_id_type: TopicIdType::Normal,
    };
    assert_eq!(flags.as_byte(), 0b0000_0000);

    let flags = Flags {
        dup: true,
        qos: Qos::QOS0,
        retain: false,
        will: false,
        clean_session: false,
        topic_id_type: TopicIdType::Normal,
    };
    assert_eq!(flags.as_byte(), 0b1000_0000);

    let flags = Flags {
        dup: false,
        qos: Qos::QOS2,
        retain: false,
        will: false,
        clean_session: false,
        topic_id_type: TopicIdType::Normal,
    };
    assert_eq!(flags.as_byte(), 0b0100_0000);

    let flags = Flags {
        dup: false,
        qos: Qos::QOS0,
        retain: true,
        will: false,
        clean_session: false,
        topic_id_type: TopicIdType::Normal,
    };
    assert_eq!(flags.as_byte(), 0b0001_0000);

    let flags = Flags {
        dup: false,
        qos: Qos::QOS0,
        retain: false,
        will: true,
        clean_session: false,
        topic_id_type: TopicIdType::Normal,
    };
    assert_eq!(flags.as_byte(), 0b0000_1000);

    let flags = Flags {
        dup: false,
        qos: Qos::QOS0,
        retain: false,
        will: false,
        clean_session: true,
        topic_id_type: TopicIdType::Normal,
    };
    assert_eq!(flags.as_byte(), 0b0000_0100);

    let flags = Flags {
        dup: false,
        qos: Qos::QOS0,
        retain: false,
        will: false,
        clean_session: false,
        topic_id_type: TopicIdType::Short,
    };
    assert_eq!(flags.as_byte(), 0b0000_0010);
}

#[test]
fn test_from_u8() {
    assert_eq!(MqttSnPacketType::from(0x00), MqttSnPacketType::Advertise);
    assert_eq!(MqttSnPacketType::from(0x01), MqttSnPacketType::Searchgw);
    assert_eq!(MqttSnPacketType::from(0x02), MqttSnPacketType::Gwinfo);
    assert_eq!(MqttSnPacketType::from(0x04), MqttSnPacketType::Connect);
    assert_eq!(MqttSnPacketType::from(0x05), MqttSnPacketType::Connack);
    assert_eq!(MqttSnPacketType::from(0x06), MqttSnPacketType::Willtopicreq);
    assert_eq!(MqttSnPacketType::from(0x07), MqttSnPacketType::Willtopic);
    assert_eq!(MqttSnPacketType::from(0x08), MqttSnPacketType::Willmsgreq);
    assert_eq!(MqttSnPacketType::from(0x09), MqttSnPacketType::Willmsg);
    assert_eq!(MqttSnPacketType::from(0x0A), MqttSnPacketType::Register);
    assert_eq!(MqttSnPacketType::from(0x0B), MqttSnPacketType::Regack);
    assert_eq!(MqttSnPacketType::from(0x0C), MqttSnPacketType::Publish);
    assert_eq!(MqttSnPacketType::from(0x0D), MqttSnPacketType::Puback);
    assert_eq!(MqttSnPacketType::from(0x0E), MqttSnPacketType::Pubcomp);
    assert_eq!(MqttSnPacketType::from(0x0F), MqttSnPacketType::Pubrec);
    assert_eq!(MqttSnPacketType::from(0x10), MqttSnPacketType::Pubrel);
    assert_eq!(MqttSnPacketType::from(0x12), MqttSnPacketType::Subscribe);
    assert_eq!(MqttSnPacketType::from(0x13), MqttSnPacketType::Suback);
    assert_eq!(MqttSnPacketType::from(0x14), MqttSnPacketType::Unsubscribe);
    assert_eq!(MqttSnPacketType::from(0x15), MqttSnPacketType::Unsuback);
    assert_eq!(MqttSnPacketType::from(0x16), MqttSnPacketType::Pingreq);
    assert_eq!(MqttSnPacketType::from(0x17), MqttSnPacketType::Pingresp);
    assert_eq!(MqttSnPacketType::from(0x18), MqttSnPacketType::Disconnect);
    assert_eq!(MqttSnPacketType::from(0x1A), MqttSnPacketType::Willtopicupd);
    assert_eq!(MqttSnPacketType::from(0x1B), MqttSnPacketType::Willtopicresp);
    assert_eq!(MqttSnPacketType::from(0x1C), MqttSnPacketType::Willmsgupd);
    assert_eq!(MqttSnPacketType::from(0x1D), MqttSnPacketType::Willmsgresp);
    assert_eq!(MqttSnPacketType::from(0x1E), MqttSnPacketType::Encapsulated);
    assert_eq!(MqttSnPacketType::from(0x1F), MqttSnPacketType::Frwdencap);
    assert_eq!(MqttSnPacketType::from(0xFF), MqttSnPacketType::Unknown);
}

#[test]
fn test_to_string() {
    assert_eq!(MqttSnPacketType::Advertise.to_string(), "Advertise");
    assert_eq!(MqttSnPacketType::Searchgw.to_string(), "Searchgw");
    assert_eq!(MqttSnPacketType::Gwinfo.to_string(), "Gwinfo");
    assert_eq!(MqttSnPacketType::Connect.to_string(), "Connect");
    assert_eq!(MqttSnPacketType::Connack.to_string(), "Connack");
    assert_eq!(MqttSnPacketType::Willtopicreq.to_string(), "Willtopicreq");
    assert_eq!(MqttSnPacketType::Willtopic.to_string(), "Willtopic");
    assert_eq!(MqttSnPacketType::Willmsgreq.to_string(), "Willmsgreq");
    assert_eq!(MqttSnPacketType::Willmsg.to_string(), "Willmsg");
    assert_eq!(MqttSnPacketType::Register.to_string(), "Register");
    assert_eq!(MqttSnPacketType::Regack.to_string(), "Regack");
    assert_eq!(MqttSnPacketType::Publish.to_string(), "Publish");
    assert_eq!(MqttSnPacketType::Puback.to_string(), "Puback");
    assert_eq!(MqttSnPacketType::Pubcomp.to_string(), "Pubcomp");
    assert_eq!(MqttSnPacketType::Pubrec.to_string(), "Pubrec");
    assert_eq!(MqttSnPacketType::Pubrel.to_string(), "Pubrel");
    assert_eq!(MqttSnPacketType::Subscribe.to_string(), "Subscribe");
    assert_eq!(MqttSnPacketType::Suback.to_string(), "Suback");
    assert_eq!(MqttSnPacketType::Unsubscribe.to_string(), "Unsubscribe");
    assert_eq!(MqttSnPacketType::Unsuback.to_string(), "Unsuback");
    assert_eq!(MqttSnPacketType::Pingreq.to_string(), "Pingreq");
    assert_eq!(MqttSnPacketType::Pingresp.to_string(), "Pingresp");
    assert_eq!(MqttSnPacketType::Disconnect.to_string(), "Disconnect");
    assert_eq!(MqttSnPacketType::Willtopicupd.to_string(), "Willtopicupd");
    assert_eq!(MqttSnPacketType::Willtopicresp.to_string(), "Willtopicresp");
    assert_eq!(MqttSnPacketType::Willmsgupd.to_string(), "Willmsgupd");
    assert_eq!(MqttSnPacketType::Willmsgresp.to_string(), "Willmsgresp");
    assert_eq!(MqttSnPacketType::Encapsulated.to_string(), "Encapsulated");
    assert_eq!(MqttSnPacketType::Frwdencap.to_string(), "Frwdencap");
    assert_eq!(MqttSnPacketType::Unknown.to_string(), "Unknown");
}

#[test]
fn test_into_u8() {
    assert_eq!(u8::from(MqttSnPacketType::Advertise), 0x00);
    assert_eq!(u8::from(MqttSnPacketType::Searchgw), 0x01);
    assert_eq!(u8::from(MqttSnPacketType::Gwinfo), 0x02);
    assert_eq!(u8::from(MqttSnPacketType::Connect), 0x04);
    assert_eq!(u8::from(MqttSnPacketType::Connack), 0x05);
    assert_eq!(u8::from(MqttSnPacketType::Willtopicreq), 0x06);
    assert_eq!(u8::from(MqttSnPacketType::Willtopic), 0x07);
    assert_eq!(u8::from(MqttSnPacketType::Willmsgreq), 0x08);
    assert_eq!(u8::from(MqttSnPacketType::Willmsg), 0x09);
    assert_eq!(u8::from(MqttSnPacketType::Register), 0x0A);
    assert_eq!(u8::from(MqttSnPacketType::Regack), 0x0B);
    assert_eq!(u8::from(MqttSnPacketType::Publish), 0x0C);
    assert_eq!(u8::from(MqttSnPacketType::Puback), 0x0D);
    assert_eq!(u8::from(MqttSnPacketType::Pubcomp), 0x0E);
    assert_eq!(u8::from(MqttSnPacketType::Pubrec), 0x0F);
    assert_eq!(u8::from(MqttSnPacketType::Pubrel), 0x10);
    assert_eq!(u8::from(MqttSnPacketType::Subscribe), 0x12);
    assert_eq!(u8::from(MqttSnPacketType::Suback), 0x13);
    assert_eq!(u8::from(MqttSnPacketType::Unsubscribe), 0x14);
    assert_eq!(u8::from(MqttSnPacketType::Unsuback), 0x15);
    assert_eq!(u8::from(MqttSnPacketType::Pingreq), 0x16);
    assert_eq!(u8::from(MqttSnPacketType::Pingresp), 0x17);
    assert_eq!(u8::from(MqttSnPacketType::Disconnect), 0x18);
    assert_eq!(u8::from(MqttSnPacketType::Willtopicupd), 0x1A);
    assert_eq!(u8::from(MqttSnPacketType::Willtopicresp), 0x1B);
    assert_eq!(u8::from(MqttSnPacketType::Willmsgupd), 0x1C);
    assert_eq!(u8::from(MqttSnPacketType::Willmsgresp), 0x1D);
    assert_eq!(u8::from(MqttSnPacketType::Encapsulated), 0x1E);
    assert_eq!(u8::from(MqttSnPacketType::Frwdencap), 0x1F);
    assert_eq!(u8::from(MqttSnPacketType::Unknown), 0xFF);
}

#[test]
fn return_codes_test_from_bytes() {
    let return_code = MqttSnReturnCode::from(0x00);
    assert_eq!(return_code, MqttSnReturnCode::Accepted);
}

#[test]
fn return_codes_test_as_bytes() {
    let return_code = MqttSnReturnCode::Accepted;
    let return_code_byte: u8 = return_code.into();
    assert_eq!(return_code_byte, 0x00);
}

#[test]
fn test_from_str() {
    assert_eq!(SensorNetType::from_str("UDP").unwrap(), SensorNetType::UDP);
    assert_eq!(SensorNetType::from_str("Serial2").unwrap(), SensorNetType::Serial2);
    assert!(SensorNetType::from_str("Invalid").is_err());
}

#[test]
fn test_as_str() {
    assert_eq!(SensorNetType::UDP.as_str(), "UDP");
    assert_eq!(SensorNetType::Serial2.as_str(), "Serial2");
}

#[test]
fn test_sensor_net_init_args() {
    let udp_args = SensorNetInitArgs::UDP {
        source_address: "0.0.0.0".to_string(),
        destination_address: "127.0.0.1".to_string(),
        timeout: 1000,
    };
    match udp_args {
        SensorNetInitArgs::UDP { source_address, destination_address, timeout } => {
            assert_eq!(source_address, "0.0.0.0");
            assert_eq!(destination_address, "127.0.0.1");
            assert_eq!(timeout, 1000);
        }
        _ => panic!("Invalid sensor network initialization arguments"),
    }

    let serial2_args = SensorNetInitArgs::Serial2 {
        port_name: "COM1".to_string(),
        baud_rate: 9600,
        parity: Parity::Disabled,
        data_bits: CharSize::Bits8,
        flow_control: FlowControl::Disabled,
        timeout: 1000,
    };

    match serial2_args {
        SensorNetInitArgs::Serial2 { port_name, baud_rate, parity, data_bits, flow_control, timeout } => {
            assert_eq!(port_name, "COM1");
            assert_eq!(baud_rate, 9600);
            assert_eq!(parity, Parity::Disabled);
            assert_eq!(data_bits, CharSize::Bits8);
            assert_eq!(flow_control, FlowControl::Disabled);
            assert_eq!(timeout, 1000);
        }
        _ => panic!("Invalid sensor network initialization arguments"),
    }
}

#[test]
fn flags_round_trip_through_byte() {
    // The byte encoding is lossless for every flags value.
    for qos in [Qos::QOSN1, Qos::QOS0, Qos::QOS1, Qos::QOS2] {
        for tit in [TopicIdType::Normal, TopicIdType::Predefined, TopicIdType::Short] {
            for bits in 0u8..32 {
                let flags = Flags::new(
                    bits & 1 != 0,
                    qos,
                    bits & 2 != 0,
                    bits & 4 != 0,
                    bits & 8 != 0,
                    tit,
                );
                assert_eq!(Flags::from_byte(flags.as_byte()), flags);
            }
        }
    }
}

#[test]
fn topic_id_bytes_round_trip() {
    let id = TopicId::Normal(0x0102);
    assert_eq!(id.as_bytes(), vec![1, 2]);
    assert_eq!(TopicId::from_bytes(&[1, 2], TopicIdType::Normal), id);
    let id = TopicId::Predefined(0xA1B2);
    assert_eq!(id.as_bytes(), vec![0xA1, 0xB2]);
    assert_eq!(TopicId::from_bytes(&[0xA1, 0xB2], TopicIdType::Predefined), id);
    let id = TopicId::Short(0x6162);
    assert_eq!(id.as_bytes(), vec![b'a', b'b']);
    assert_eq!(TopicId::from_bytes(&[b'a', b'b'], TopicIdType::Short), id);
}

#[test]
fn qos_flag_bits() {
    assert_eq!(get_qos_flag(0), 0x00);
    assert_eq!(get_qos_flag(1), 0x20);
    assert_eq!(get_qos_flag(2), 0x40);
    assert_eq!(get_qos_flag(-1), 0x60);
    assert_eq!(get_qos_flag(5), 0x00);
}
