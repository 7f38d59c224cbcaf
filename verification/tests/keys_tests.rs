use signal_client::address::ProtocolAddress;
use signal_client::keys::{generate_key_pair, generate_pre_keys, generate_pre_keys_from_id, generate_signed_pre_key, KeyPairBytes, SignedPreKeyRecord};
use signal_client::pre_keys::{initialize_pre_keys, DeviceKeys, DevicePreKeys, PreKeyEntity, PreKeyState, SignedPreKeyEntity};
use signal_client::store::StateStore;

#[test]
fn pre_key_ids_sequential_from_one() {
    let batch = generate_pre_keys(100);
    assert_eq!(batch.len(), 100);
    for (i, record) in batch.iter().enumerate() {
        assert_eq!(record.id, (i + 1) as u32);
    }
}

#[test]
fn pre_key_ids_unique_in_large_batch() {
    let batch = generate_pre_keys(10_000);
    assert_eq!(batch.len(), 10_000);
    let mut ids: Vec<u32> = batch.iter().map(|r| r.id).collect();
    ids.sort();
    ids.dedup();
    assert_eq!(ids.len(), 10_000);
    assert_eq!(ids[0], 1);
    assert_eq!(ids[9_999], 10_000);
}

#[test]
fn smallest_batch() {
    let batch = generate_pre_keys(1);
    assert_eq!(batch.len(), 1);
    assert_eq!(batch[0].id, 1);
}

#[test]
fn pre_key_ids_from_custom_start() {
    let batch = generate_pre_keys_from_id(5, 100);
    let ids: Vec<u32> = batch.iter().map(|r| r.id).collect();
    assert_eq!(ids, vec![100, 101, 102, 103, 104]);
}

#[test]
fn generated_key_material_is_fresh() {
    let a = generate_key_pair();
    let b = generate_key_pair();
    assert_eq!(a.public_key.len(), 32);
    assert_eq!(a.private_key.len(), 32);
    // the secure source never repeats 32-byte draws in practice
    assert_ne!(a.private_key, b.private_key);
    assert_ne!(a.public_key, b.public_key);
}

#[test]
fn pre_key_state_mirrors_records() {
    let batch = generate_pre_keys(3);
    let signed = SignedPreKeyRecord::new(1, 555, generate_key_pair(), vec![9; 64]);
    let state = PreKeyState::new(vec![1; 32], &batch, &signed);
    assert_eq!(state.identity_key, vec![1; 32]);
    assert_eq!(state.pre_keys.len(), 3);
    for (entity, record) in state.pre_keys.iter().zip(batch.iter()) {
        assert_eq!(entity.key_id, record.id);
        assert_eq!(entity.public_key, record.key_pair.public_key);
    }
    assert_eq!(state.signed_pre_key.key_id, 1);
    assert_eq!(state.signed_pre_key.public_key, signed.key_pair.public_key);
    assert_eq!(state.signed_pre_key.signature, vec![9; 64]);
}

#[test]
fn device_keys_become_bundles() {
    let device = DevicePreKeys {
        device_id: 2,
        registration_id: 777,
        signed_pre_key: SignedPreKeyEntity {
            key_id: 1,
            public_key: vec![1; 32],
            signature: vec![2; 64],
        },
        pre_key: PreKeyEntity::new(42, vec![3; 32]),
    };
    let keys = DeviceKeys { identity_key: vec![4; 33], devices: vec![device] };
    let bundles = keys.into_bundles();
    assert_eq!(bundles.len(), 1);
    let bundle = &bundles[0];
    assert_eq!(bundle.device_id, 2);
    assert_eq!(bundle.registration_id, 777);
    assert_eq!(bundle.pre_key_id, 42);
    assert_eq!(bundle.pre_key_public, vec![3; 32]);
    assert_eq!(bundle.signed_pre_key_id, 1);
    assert_eq!(bundle.signed_pre_key_public, vec![1; 32]);
    assert_eq!(bundle.signed_pre_key_signature, vec![2; 64]);
    assert_eq!(bundle.identity_key, vec![4; 33]);
}

#[test]
fn initialize_pre_keys_persists_everything() {
    let mut store = StateStore::new_temporary().unwrap();
    let ikp = KeyPairBytes::new(vec![11; 32], vec![12; 32]);
    let own = ProtocolAddress::new(b"me".to_vec(), 1);
    store.register_new_account(&ikp, 1, &own, "pass").unwrap();

    let batch = generate_pre_keys(10);
    let signed = SignedPreKeyRecord::new(1, 999, generate_key_pair(), vec![1; 64]);
    let state = initialize_pre_keys(&mut store, &batch, &signed).unwrap();

    assert_eq!(state.identity_key, vec![11; 32]);
    assert_eq!(state.pre_keys.len(), 10);
    for id in 1u32..=10 {
        let stored = store.get_pre_key(id).unwrap();
        assert_eq!(stored.id, id);
    }
    let stored_signed = store.get_signed_pre_key(1).unwrap();
    assert_eq!(stored_signed.timestamp, 999);
}

#[test]
fn signed_pre_key_assembly() {
    let pair = generate_key_pair();
    let expected_public = pair.public_key.clone();
    let record = generate_signed_pre_key(1, pair, vec![5; 64]);
    assert_eq!(record.id, 1);
    assert_eq!(record.key_pair.public_key, expected_public);
    assert_eq!(record.signature, vec![5; 64]);
    // stamped with wall-clock milliseconds, well past the epoch
    assert!(record.timestamp > 1_600_000_000_000);
}
