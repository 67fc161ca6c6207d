use node_identity::{DiskEntity, EnrManager, NodeEndpoint, NodeRecord, Secret};

fn secret_of(b: u8) -> Secret {
    Secret::from_bytes(vec![b; 32]).unwrap()
}

fn endpoint(ip: Vec<u8>, tcp: u16, udp: u16) -> NodeEndpoint {
    NodeEndpoint { ip, tcp_port: tcp, udp_port: udp }
}

#[test]
fn secret_length_is_checked() {
    assert!(Secret::from_bytes(vec![0xcd; 31]).is_none());
    assert!(Secret::from_bytes(vec![0xcd; 33]).is_none());
    assert!(Secret::from_bytes(vec![0xcd; 32]).is_some());
}

#[test]
fn secret_hex_round_trip() {
    let key = secret_of(0xcd);
    let text = key.to_repr();
    assert_eq!(text, "cd".repeat(32));
    let back = Secret::from_repr(&text).unwrap();
    assert_eq!(back, key);
}

#[test]
fn secret_parses_uppercase() {
    let text = "CD".repeat(32);
    let key = Secret::from_repr(&text).unwrap();
    assert_eq!(key, secret_of(0xcd));
    assert_eq!(key.to_repr(), "cd".repeat(32));
}

#[test]
fn secret_rejects_bad_text() {
    assert!(Secret::from_repr("").is_none());
    assert!(Secret::from_repr(&"cd".repeat(31)).is_none());
    assert!(Secret::from_repr(&"cd".repeat(33)).is_none());
    assert!(Secret::from_repr(&format!("{}c", "cd".repeat(31))).is_none());
    assert!(Secret::from_repr(&"zz".repeat(32)).is_none());
}

#[test]
fn manager_rejects_invalid_key_material() {
    // the all-zero scalar is no valid signing key
    assert!(EnrManager::new(secret_of(0), 0).is_none());
}

#[test]
fn fresh_manager_carries_starting_sequence() {
    let m = EnrManager::new(secret_of(0xcd), 5).unwrap();
    assert_eq!(m.seq(), 5);
    assert!(m.udp_port().is_none());
    assert!(m.tcp_port().is_none());
    assert!(m.ip_octets().is_none());
}

#[test]
fn endpoint_update_bumps_sequence_and_stores_endpoint() {
    let mut m = EnrManager::new(secret_of(0xcd), 0).unwrap();
    let done = m.set_node_endpoint(&endpoint(vec![203, 0, 113, 5], 30303, 30303));
    assert!(done);
    assert_eq!(m.seq(), 1);
    assert_eq!(m.udp_port(), Some(30303));
    assert_eq!(m.tcp_port(), Some(30303));
    assert_eq!(m.ip_octets(), Some(vec![203, 0, 113, 5]));
}

#[test]
fn sequence_grows_by_one_per_update() {
    let mut m = EnrManager::new(secret_of(0xcd), 10).unwrap();
    for i in 0..3u16 {
        assert!(m.set_node_endpoint(&endpoint(vec![203, 0, 113, 5], 30303, 30303 + i)));
    }
    assert_eq!(m.seq(), 13);
}

#[test]
fn builder_style_update() {
    let m = EnrManager::new(secret_of(0xcd), 0).unwrap().with_node_endpoint(&endpoint(
        vec![203, 0, 113, 5],
        30303,
        30303,
    ));
    assert_eq!(m.seq(), 1);
    assert_eq!(m.udp_port(), Some(30303));
}

#[test]
fn version_six_endpoint_uses_its_own_keys() {
    let mut m = EnrManager::new(secret_of(0xcd), 0).unwrap();
    let done = m.set_node_endpoint(&endpoint(vec![0x20, 0x01, 0x0d, 0xb8, 0, 0, 0, 0, 0, 0, 0, 0, 0, 0, 0, 1], 30303, 30303));
    assert!(done);
    assert_eq!(m.seq(), 1);
    // the version 4 entries stay empty
    assert!(m.udp_port().is_none());
    assert!(m.tcp_port().is_none());
    assert!(m.ip_octets().is_none());
    // the version 6 entries carry the endpoint
    assert_eq!(m.udp6_port(), Some(30303));
    assert_eq!(m.tcp6_port(), Some(30303));
    assert_eq!(
        m.ip6_octets(),
        Some(vec![0x20, 0x01, 0x0d, 0xb8, 0, 0, 0, 0, 0, 0, 0, 0, 0, 0, 0, 1])
    );
}

#[test]
fn every_port_shape_reads_back() {
    let mut m = EnrManager::new(secret_of(0xcd), 0).unwrap();
    for &p in &[0u16, 1, 127, 128, 255, 256, 30303, 65535] {
        assert!(m.set_node_endpoint(&endpoint(vec![203, 0, 113, 5], p, p)));
        assert_eq!(m.udp_port(), Some(p));
        assert_eq!(m.tcp_port(), Some(p));
    }
}

#[test]
fn pairing_is_checked_on_load() {
    let m = EnrManager::new(secret_of(0xcd), 0).unwrap();
    let text = m.as_enr().to_repr();

    let record = NodeRecord::from_repr(&text).unwrap();
    assert!(EnrManager::load(secret_of(0xcd), record).is_some());

    let record = NodeRecord::from_repr(&text).unwrap();
    assert!(EnrManager::load(secret_of(0xab), record).is_none());

    let record = NodeRecord::from_repr(&text).unwrap();
    assert!(EnrManager::load(secret_of(0), record).is_none());
}

#[test]
fn record_text_round_trip() {
    let m = EnrManager::new(secret_of(0xcd), 7).unwrap();
    let text = m.into_enr().to_repr();
    assert!(text.starts_with("enr:"));
    let record = NodeRecord::from_repr(&text).unwrap();
    let back = EnrManager::load(secret_of(0xcd), record).unwrap();
    assert_eq!(back.seq(), 7);
}

#[test]
fn record_text_keeps_endpoint() {
    let mut m = EnrManager::new(secret_of(0xcd), 0).unwrap();
    assert!(m.set_node_endpoint(&endpoint(vec![203, 0, 113, 5], 30303, 30304)));
    let text = m.as_enr().to_repr();
    let record = NodeRecord::from_repr(&text).unwrap();
    let back = EnrManager::load(secret_of(0xcd), record).unwrap();
    assert_eq!(back.seq(), 1);
    assert_eq!(back.udp_port(), Some(30304));
    assert_eq!(back.tcp_port(), Some(30303));
    assert_eq!(back.ip_octets(), Some(vec![203, 0, 113, 5]));
}

#[test]
fn record_rejects_bad_text() {
    assert!(NodeRecord::from_repr("").is_none());
    assert!(NodeRecord::from_repr("enr:").is_none());
    assert!(NodeRecord::from_repr("not a record").is_none());
    assert!(NodeRecord::from_repr(&"cd".repeat(32)).is_none());
}

#[test]
fn rlp_codec_round_trip() {
    for &p in &[0u16, 1, 127, 128, 255, 256, 30303, 65535] {
        let item = node_identity::rlp_text::rlp_encode_u16(p);
        assert_eq!(node_identity::rlp_text::rlp_decode_u16(&item), Some(p));
    }
    let bytes = vec![203u8, 0, 113, 5];
    let item = node_identity::rlp_text::rlp_encode_bytes(&bytes);
    assert_eq!(item, vec![0x84, 203, 0, 113, 5]);
    assert_eq!(node_identity::rlp_text::rlp_decode_bytes(&item), Some(bytes));
}

#[test]
fn hex_codec_round_trip() {
    let bytes = vec![0u8, 15, 16, 255, 0xcd];
    let text = node_identity::hex_text::bytes_to_hex(&bytes);
    assert_eq!(text, "000f10ffcd");
    assert_eq!(node_identity::hex_text::hex_to_bytes(&text), Some(bytes));
    assert!(node_identity::hex_text::hex_to_bytes("0").is_none());
    assert!(node_identity::hex_text::hex_to_bytes("0g").is_none());
}

#[test]
fn canonical_file_names() {
    assert_eq!(<Secret as DiskEntity>::path_name(), "key");
    assert_eq!(<NodeRecord as DiskEntity>::path_name(), "enr");
}

#[test]
fn persist_reload_then_update() {
    // construct at sequence zero, persist both entities as text
    let key = secret_of(0xcd);
    let m = EnrManager::new(key, 0).unwrap();
    let key_text = secret_of(0xcd).to_repr();
    let record_text = m.as_enr().to_repr();

    // reload both and rebuild the manager: the sequence number is untouched
    let key_back = Secret::from_repr(&key_text).unwrap();
    let record_back = NodeRecord::from_repr(&record_text).unwrap();
    let mut reloaded = EnrManager::load(key_back, record_back).unwrap();
    assert_eq!(reloaded.seq(), 0);

    // one endpoint update: the sequence steps to one, the port reads back
    assert!(reloaded.set_node_endpoint(&endpoint(vec![203, 0, 113, 5], 30303, 30304)));
    assert_eq!(reloaded.seq(), 1);
    assert_eq!(reloaded.udp_port(), Some(30304));
}
