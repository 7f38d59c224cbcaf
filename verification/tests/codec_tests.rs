use signal_client::codec::{b64_encode, b64_decode, b64_round_trip, u32_decimal};
use signal_client::keys::{KeyPairBytes, KyberPreKeyRecord, PreKeyRecord, SessionRecord, SignedPreKeyRecord};

#[test]
fn wire_encoding_known_values() {
    assert_eq!(b64_encode(&b"hello".to_vec()), "aGVsbG8");
    assert_eq!(b64_encode(&Vec::new()), "");
    assert_eq!(b64_encode(&vec![0u8]), "AA");
    assert_eq!(b64_decode("aGVsbG8").unwrap(), b"hello".to_vec());
}

#[test]
fn wire_encoding_rejects_padding() {
    assert!(b64_decode("aGVsbG8=").is_err());
    assert!(b64_decode("!!!").is_err());
}

#[test]
fn wire_round_trip() {
    let blob: Vec<u8> = (0u16..256).map(|b| b as u8).collect();
    assert_eq!(b64_round_trip(&blob), blob);
    let decoded = b64_decode(&b64_encode(&blob)).unwrap();
    assert_eq!(decoded, blob);
    assert!(b64_round_trip(&Vec::new()).is_empty());
}

#[test]
fn decimal_rendering() {
    assert_eq!(u32_decimal(0), b"0".to_vec());
    assert_eq!(u32_decimal(7), b"7".to_vec());
    assert_eq!(u32_decimal(12345), b"12345".to_vec());
    assert_eq!(u32_decimal(u32::MAX), b"4294967295".to_vec());
}

#[test]
fn session_record_bytes_round_trip() {
    let record = SessionRecord::new(0x01020304, vec![9, 8, 7]);
    let bytes = record.serialize();
    assert_eq!(bytes, vec![4, 3, 2, 1, 0, 9, 8, 7]);
    let back = SessionRecord::deserialize(&bytes).unwrap();
    assert_eq!(back.registration_id, 0x01020304);
    assert!(!back.archived);
    assert_eq!(back.state, vec![9, 8, 7]);
}

#[test]
fn archived_flag_survives_the_bytes() {
    let mut record = SessionRecord::new(1, vec![1]);
    record.archive_current_state();
    let back = SessionRecord::deserialize(&record.serialize()).unwrap();
    assert!(back.archived);
}

#[test]
fn malformed_session_bytes_rejected() {
    assert!(SessionRecord::deserialize(&vec![1, 2, 3]).is_none());
    // a flag byte that is neither zero nor one
    assert!(SessionRecord::deserialize(&vec![0, 0, 0, 0, 2]).is_none());
}

#[test]
fn key_pair_bytes_round_trip() {
    let pair = KeyPairBytes::new(vec![1, 2, 3], vec![4, 5]);
    let bytes = pair.serialize();
    assert_eq!(bytes, vec![3, 0, 0, 0, 1, 2, 3, 2, 0, 0, 0, 4, 5]);
    let back = KeyPairBytes::deserialize(&bytes).unwrap();
    assert_eq!(back.public_key, vec![1, 2, 3]);
    assert_eq!(back.private_key, vec![4, 5]);
    // trailing garbage is rejected
    let mut longer = pair.serialize();
    longer.push(0);
    assert!(KeyPairBytes::deserialize(&longer).is_none());
}

#[test]
fn pre_key_record_bytes_round_trip() {
    let record = PreKeyRecord::new(17, KeyPairBytes::new(vec![1; 32], vec![2; 32]));
    let back = PreKeyRecord::deserialize(&record.serialize()).unwrap();
    assert_eq!(back.id, 17);
    assert_eq!(back.key_pair.public_key, vec![1; 32]);
    assert_eq!(back.key_pair.private_key, vec![2; 32]);
}

#[test]
fn signed_pre_key_record_bytes_round_trip() {
    let record = SignedPreKeyRecord::new(
        3,
        1_700_000_000_123,
        KeyPairBytes::new(vec![5; 32], vec![6; 32]),
        vec![7; 64],
    );
    let back = SignedPreKeyRecord::deserialize(&record.serialize()).unwrap();
    assert_eq!(back.id, 3);
    assert_eq!(back.timestamp, 1_700_000_000_123);
    assert_eq!(back.key_pair.public_key, vec![5; 32]);
    assert_eq!(back.key_pair.private_key, vec![6; 32]);
    assert_eq!(back.signature, vec![7; 64]);
}

#[test]
fn kyber_record_bytes_round_trip() {
    let record = KyberPreKeyRecord::new(9, vec![1, 2, 3, 4, 5]);
    let back = KyberPreKeyRecord::deserialize(&record.serialize()).unwrap();
    assert_eq!(back.id, 9);
    assert_eq!(back.state, vec![1, 2, 3, 4, 5]);
    assert!(KyberPreKeyRecord::deserialize(&vec![1, 2]).is_none());
}
