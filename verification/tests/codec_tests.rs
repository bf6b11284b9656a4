use mqtt_sn_tools_rs::errors::SnError;
use mqtt_sn_tools_rs::packet_types::{
    mqtt_sn_packet_type_to_str, ConnackPacket, ConnectPacket, DisconnectPacket, FWDEncapPacket,
    Packet, PingreqPacket, PingrespPacket, PubackPacket, PublishPacket, RegackPacket,
    RegisterPacket, SubackPacket, SubscribePacket, Topic,
};

fn round_trips(p: Packet) {
    let bytes = p.encode();
    let decoded = Packet::decode(bytes.as_slice()).expect("well-formed packet must decode");
    assert_eq!(decoded, p);
}

#[test]
fn round_trip_every_variant() {
    round_trips(Packet::Connect(ConnectPacket {
        flags: 0x04,
        protocol_id: 1,
        duration: 60,
        client_id: b"sensor1".to_vec(),
    }));
    round_trips(Packet::Connack(ConnackPacket { return_code: 0 }));
    round_trips(Packet::Register(RegisterPacket {
        topic_id: 0,
        message_id: 1,
        topic_name: b"kitchen/temp".to_vec(),
    }));
    round_trips(Packet::Regack(RegackPacket { topic_id: 7, message_id: 1, return_code: 0 }));
    round_trips(Packet::Publish(PublishPacket {
        flags: 0x20,
        topic_id: 7,
        message_id: 2,
        data: b"21.5".to_vec(),
    }));
    round_trips(Packet::Puback(PubackPacket { topic_id: 7, message_id: 2, return_code: 0 }));
    round_trips(Packet::Subscribe(SubscribePacket {
        flags: 0x00,
        message_id: 3,
        topic: Topic::TopicName(b"kitchen/temp".to_vec()),
    }));
    round_trips(Packet::Subscribe(SubscribePacket {
        flags: 0x01,
        message_id: 4,
        topic: Topic::TopicId(0x1234),
    }));
    round_trips(Packet::Suback(SubackPacket {
        flags: 0,
        topic_id: 7,
        message_id: 3,
        return_code: 0,
    }));
    round_trips(Packet::Pingreq(PingreqPacket {}));
    round_trips(Packet::Pingresp(PingrespPacket {}));
    round_trips(Packet::Disconnect(DisconnectPacket { duration: None }));
    round_trips(Packet::Disconnect(DisconnectPacket { duration: Some(30) }));
    let inner = Packet::Connack(ConnackPacket { return_code: 0 }).encode();
    round_trips(Packet::FwdEncap(FWDEncapPacket {
        ctrl: 1,
        wireless_node_id: vec![0xAA, 0xBB],
        inner_packet: inner,
    }));
}

#[test]
fn length_byte_is_true_byte_count() {
    let samples = vec![
        Packet::Connect(ConnectPacket {
            flags: 0,
            protocol_id: 1,
            duration: 10,
            client_id: b"abc".to_vec(),
        }),
        Packet::Connack(ConnackPacket { return_code: 2 }),
        Packet::Register(RegisterPacket {
            topic_id: 0,
            message_id: 9,
            topic_name: b"t".to_vec(),
        }),
        Packet::Regack(RegackPacket { topic_id: 1, message_id: 9, return_code: 1 }),
        Packet::Publish(PublishPacket { flags: 0, topic_id: 1, message_id: 0, data: vec![] }),
        Packet::Puback(PubackPacket { topic_id: 1, message_id: 0, return_code: 3 }),
        Packet::Suback(SubackPacket { flags: 0, topic_id: 1, message_id: 1, return_code: 0 }),
        Packet::Pingreq(PingreqPacket {}),
        Packet::Pingresp(PingrespPacket {}),
        Packet::Disconnect(DisconnectPacket { duration: None }),
    ];
    for p in samples {
        let bytes = p.encode();
        assert_eq!(bytes[0] as usize, bytes.len());
    }
}

#[test]
fn connect_length_byte_counts_client_id() {
    for n in [0usize, 1, 7, 23] {
        let p = ConnectPacket {
            flags: 0,
            protocol_id: 1,
            duration: 30,
            client_id: vec![b'x'; n],
        };
        let bytes = p.as_bytes();
        assert_eq!(bytes[0] as usize, 6 + n);
        assert_eq!(bytes.len(), 6 + n);
    }
}

#[test]
fn connect_scenario_exact_bytes() {
    // clean_session sets flag bit 0x04; keep_alive 60 is big-endian 0, 60.
    let p = ConnectPacket {
        flags: 0x04,
        protocol_id: 1,
        duration: 60,
        client_id: b"sensor1".to_vec(),
    };
    assert_eq!(
        p.as_bytes(),
        vec![13, 4, 4, 1, 0, 60, b's', b'e', b'n', b's', b'o', b'r', b'1']
    );
}

#[test]
fn publish_scenario_exact_bytes() {
    let p = PublishPacket { flags: 0, topic_id: 1, message_id: 0, data: b"hi".to_vec() };
    assert_eq!(p.as_bytes(), vec![9, 12, 0, 0, 1, 0, 0, b'h', b'i']);
}

#[test]
fn decode_rejects_malformed_buffers() {
    // Too short for any packet.
    assert_eq!(Packet::decode(&[]), Err(SnError::MalformedPacket));
    assert_eq!(Packet::decode(&[2]), Err(SnError::MalformedPacket));
    // Zero and extended-length forms.
    assert_eq!(Packet::decode(&[0, 4]), Err(SnError::MalformedPacket));
    assert_eq!(Packet::decode(&[1, 4]), Err(SnError::MalformedPacket));
    // Declared length beyond the buffer.
    assert_eq!(Packet::decode(&[9, 4, 0, 1]), Err(SnError::MalformedPacket));
    // Shorter than the type's fixed header.
    assert_eq!(Packet::decode(&[5, 12, 0, 0, 1]), Err(SnError::MalformedPacket));
    // Unsupported type byte.
    assert_eq!(Packet::decode(&[2, 0x33]), Err(SnError::MalformedPacket));
}

#[test]
fn decode_slices_declared_length_only() {
    // Three trailing garbage bytes beyond the declared length are ignored.
    let p = Packet::Publish(PublishPacket {
        flags: 0,
        topic_id: 1,
        message_id: 0,
        data: b"hi".to_vec(),
    });
    let mut bytes = p.encode();
    bytes.extend_from_slice(&[0xDE, 0xAD, 0xBE]);
    assert_eq!(Packet::decode(bytes.as_slice()), Ok(p));
}

#[test]
fn packet_type_names() {
    assert_eq!(mqtt_sn_packet_type_to_str(0x04), "CONNECT");
    assert_eq!(mqtt_sn_packet_type_to_str(0x05), "CONNACK");
    assert_eq!(mqtt_sn_packet_type_to_str(0xFE), "FRWDENCAP");
    assert_eq!(mqtt_sn_packet_type_to_str(0x33), "UNKNOWN");
}

#[test]
fn round_trip_largest_and_empty_payloads() {
    // The largest encodable publish: 248 payload bytes, length byte 255.
    let p = Packet::Publish(PublishPacket {
        flags: 0,
        topic_id: 1,
        message_id: 0,
        data: vec![0x55; 248],
    });
    let bytes = p.encode();
    assert_eq!(bytes[0], 255);
    assert_eq!(bytes.len(), 255);
    assert_eq!(Packet::decode(bytes.as_slice()), Ok(p));

    // A null (zero length) message.
    let p = Packet::Publish(PublishPacket { flags: 0, topic_id: 1, message_id: 0, data: vec![] });
    let bytes = p.encode();
    assert_eq!(bytes[0], 7);
    assert_eq!(Packet::decode(bytes.as_slice()), Ok(p));

    // The largest encodable client id.
    let p = Packet::Connect(ConnectPacket {
        flags: 0,
        protocol_id: 1,
        duration: 1,
        client_id: vec![b'c'; 249],
    });
    let bytes = p.encode();
    assert_eq!(bytes[0], 255);
    assert_eq!(Packet::decode(bytes.as_slice()), Ok(p));
}
