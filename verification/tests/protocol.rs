use openiot::protocol::{
    crc16, decode_is_defined, Frame, MeshAddress, MeshConfig, OpCode, FLAG_ACK_REQUIRED, FLAG_ENCRYPTED,
    FLAG_MESH_RELAY, FRAME_FOOTER, FRAME_HEADER,
};

#[test]
fn test_frame_encode_decode() {
    let frame = Frame::new(OpCode::Heartbeat, 0x0001, 0x0002, vec![0x01, 0x02, 0x03]);
    let encoded = frame.encode();
    let decoded = Frame::decode(&encoded).unwrap();
    assert_eq!(decoded.opcode, OpCode::Heartbeat);
    assert_eq!(decoded.src_addr, 0x0001);
    assert_eq!(decoded.dst_addr, 0x0002);
    assert_eq!(decoded.payload, vec![0x01, 0x02, 0x03]);
}

#[test]
fn test_crc16() {
    let data = b"123456789";
    let crc = crc16(data);
    assert_eq!(crc, 0x29B1);
}

#[test]
fn crc16_of_nothing_is_the_initial_value() {
    assert_eq!(crc16(&[]), 0xFFFF);
}

#[test]
fn encode_writes_the_documented_layout() {
    let frame = Frame::new(OpCode::SetState, 0x1234, 0xABCD, vec![0x42]);
    let mut frame = frame.with_ack_required();
    frame.seq = 0x0102;
    let encoded = frame.encode();
    let body = [FRAME_HEADER, 0x02, 0x20, 0x12, 0x34, 0xAB, 0xCD, 0x01, 0x02, 0x42];
    assert_eq!(encoded.len(), 13);
    assert_eq!(&encoded[..10], &body);
    let crc = crc16(&body);
    assert_eq!(encoded[10], (crc >> 8) as u8);
    assert_eq!(encoded[11], (crc & 0xff) as u8);
    assert_eq!(encoded[12], FRAME_FOOTER);
}

#[test]
fn decode_gives_back_every_field() {
    let mut frame = Frame::new(OpCode::MeshRoute, 0xFFFF, 0x0000, vec![]);
    frame.seq = 0xBEEF;
    let frame = frame.with_encrypted().with_mesh_relay();
    let decoded = Frame::decode(&frame.encode()).unwrap();
    assert_eq!(decoded.flags, FLAG_ENCRYPTED | FLAG_MESH_RELAY);
    assert_eq!(decoded.opcode, OpCode::MeshRoute);
    assert_eq!(decoded.src_addr, 0xFFFF);
    assert_eq!(decoded.dst_addr, 0x0000);
    assert_eq!(decoded.seq, 0xBEEF);
    assert!(decoded.payload.is_empty());
}

#[test]
fn encoding_a_decoded_frame_gives_the_same_bytes() {
    let frame = Frame::new(OpCode::KeyExchange, 7, 9, vec![1, 2, 3, 4, 5]).with_ack_required();
    let bytes = frame.encode();
    let again = Frame::decode(&bytes).unwrap().encode();
    assert_eq!(again, bytes);
}

#[test]
fn decode_reports_a_short_frame() {
    assert_eq!(Frame::decode(&[0xAA; 10]).unwrap_err(), "frame too short");
    assert_eq!(Frame::decode(&[]).unwrap_err(), "frame too short");
}

#[test]
fn decode_reports_a_bad_header() {
    let mut bytes = Frame::new(OpCode::Ack, 1, 2, vec![]).encode();
    bytes[0] = 0x00;
    assert_eq!(Frame::decode(&bytes).unwrap_err(), "invalid header");
}

#[test]
fn decode_reports_a_bad_footer() {
    let mut bytes = Frame::new(OpCode::Ack, 1, 2, vec![]).encode();
    let last = bytes.len() - 1;
    bytes[last] = 0x00;
    assert_eq!(Frame::decode(&bytes).unwrap_err(), "invalid footer");
}

#[test]
fn decode_reports_an_unknown_opcode() {
    let mut bytes = Frame::new(OpCode::Ack, 1, 2, vec![]).encode();
    bytes[2] = 0x99;
    assert_eq!(Frame::decode(&bytes).unwrap_err(), "unknown opcode");
}

#[test]
fn decode_reports_a_checksum_mismatch() {
    let mut bytes = Frame::new(OpCode::StateReport, 1, 2, vec![10, 20]).encode();
    bytes[9] ^= 0xFF;
    assert_eq!(Frame::decode(&bytes).unwrap_err(), "crc mismatch");
}

#[test]
fn flag_setters_set_their_own_bit() {
    let f = Frame::new(OpCode::Ack, 0, 0, vec![]);
    assert_eq!(f.clone().with_encrypted().flags, 0x01);
    assert_eq!(f.clone().with_ack_required().flags, 0x02);
    assert_eq!(f.clone().with_mesh_relay().flags, 0x04);
    let all = f.with_encrypted().with_ack_required().with_mesh_relay();
    assert_eq!(all.flags, FLAG_ENCRYPTED | FLAG_ACK_REQUIRED | FLAG_MESH_RELAY);
    assert_eq!(all.with_encrypted().flags, 0x07);
}

#[test]
fn opcode_bytes_round_trip() {
    let ops = [
        (0x00, OpCode::Ack),
        (0x01, OpCode::Heartbeat),
        (0x02, OpCode::Discover),
        (0x03, OpCode::DiscoverResp),
        (0x10, OpCode::ProvisionReq),
        (0x11, OpCode::ProvisionResp),
        (0x12, OpCode::ProvisionAck),
        (0x20, OpCode::SetState),
        (0x21, OpCode::GetState),
        (0x22, OpCode::StateReport),
        (0x30, OpCode::MeshJoin),
        (0x31, OpCode::MeshLeave),
        (0x32, OpCode::MeshRelay),
        (0x33, OpCode::MeshRoute),
        (0x40, OpCode::KeyExchange),
        (0x41, OpCode::KeyExchangeAck),
    ];
    for (b, op) in ops {
        assert_eq!(OpCode::from_byte(b), Some(op));
        assert_eq!(op.to_byte(), b);
    }
    assert_eq!(OpCode::from_byte(0x04), None);
    assert_eq!(OpCode::from_byte(0xFF), None);
}

#[test]
fn broadcast_address() {
    assert!(MeshAddress::broadcast().is_broadcast());
    assert!(!MeshAddress::unassigned().is_broadcast());
    assert!(MeshAddress(0xFFFF).is_broadcast());
    assert!(!MeshAddress(0x1234).is_broadcast());
}

#[test]
fn mesh_config_default() {
    let c = MeshConfig::default();
    assert_eq!(c.net_key, [0u8; 16]);
    assert_eq!(c.app_key, [0u8; 16]);
    assert_eq!(c.net_index, 0);
    assert_eq!(c.iv_index, 0);
    assert_eq!(c.ttl, 7);
}

#[test]
fn new_frame_has_no_flags_and_sequence_zero() {
    let f = Frame::new(OpCode::Discover, 3, 4, vec![9]);
    assert_eq!(f.flags, 0);
    assert_eq!(f.seq, 0);
    assert_eq!(f.opcode, OpCode::Discover);
    assert_eq!((f.src_addr, f.dst_addr), (3, 4));
    assert_eq!(f.payload, vec![9]);
}

#[test]
fn appending_the_crc_gives_zero() {
    for data in [&b"123456789"[..], &b""[..], &[0xAA, 0x00, 0xFF][..]] {
        let c = crc16(data);
        let mut with_crc = data.to_vec();
        with_crc.push((c >> 8) as u8);
        with_crc.push((c & 0xFF) as u8);
        assert_eq!(crc16(&with_crc), 0);
    }
}

#[test]
fn every_single_byte_corruption_is_detected() {
    let bytes = Frame::new(OpCode::SetState, 0x0102, 0x0304, vec![1, 2, 3]).with_encrypted().encode();
    for i in 0..bytes.len() {
        for m in [0x01u8, 0x10, 0x80, 0xFF, 0x5A] {
            let mut d = bytes.clone();
            d[i] ^= m;
            assert!(decode_is_defined(&d));
            assert!(Frame::decode(&d).is_err(), "byte {} mask {:#x}", i, m);
        }
    }
}

#[test]
fn decode_is_defined_cases() {
    let bad = [0xAA, 0, 0x01, 0, 0, 0, 0, 0, 0, 0, 0x55];
    assert!(!decode_is_defined(&bad));
    let unknown_op = [0xAA, 0, 0x99, 0, 0, 0, 0, 0, 0, 0, 0x55];
    assert!(decode_is_defined(&unknown_op));
    assert_eq!(Frame::decode(&unknown_op).unwrap_err(), "unknown opcode");
    assert!(decode_is_defined(&[0xAA; 10]));
    assert!(decode_is_defined(&Frame::new(OpCode::Ack, 0, 0, vec![]).encode()));
}
