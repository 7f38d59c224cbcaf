use signal_client::address::ProtocolAddress;
use signal_client::error::Error;
use signal_client::keys::{KeyPairBytes, KyberPreKeyRecord, PreKeyRecord, SessionRecord, SignedPreKeyRecord};
use signal_client::store::{SaveIdentityOutcome, StateStore};

fn addr(name: &[u8], device_id: u32) -> ProtocolAddress {
    ProtocolAddress::new(name.to_vec(), device_id)
}

#[test]
fn idempotent_identity_save() {
    let mut store = StateStore::new_temporary().unwrap();
    let a = addr(b"alice", 1);
    let key = vec![7u8; 33];
    assert_eq!(store.save_identity(&a, &key).unwrap(), SaveIdentityOutcome::New);
    assert_eq!(store.save_identity(&a, &key).unwrap(), SaveIdentityOutcome::Unchanged);
    assert_eq!(store.save_identity(&a, &key).unwrap(), SaveIdentityOutcome::Unchanged);
    assert_eq!(store.get_identity(&a).unwrap(), Some(key));
}

#[test]
fn identity_overwrite_reported() {
    let mut store = StateStore::new_temporary().unwrap();
    let a = addr(b"alice", 1);
    let first = vec![1u8; 33];
    let second = vec![2u8; 33];
    assert_eq!(store.save_identity(&a, &first).unwrap(), SaveIdentityOutcome::New);
    assert_eq!(store.save_identity(&a, &second).unwrap(), SaveIdentityOutcome::Overwritten);
    assert_eq!(store.get_identity(&a).unwrap(), Some(second));
}

#[test]
fn first_use_is_trusted() {
    let store = StateStore::new_temporary().unwrap();
    let a = addr(b"nobody-we-know", 4);
    assert!(store.is_trusted_identity(&a, &vec![0u8; 33]).unwrap());
    assert!(store.is_trusted_identity(&a, &vec![255u8; 33]).unwrap());
    assert!(store.is_trusted_identity(&a, &Vec::new()).unwrap());
}

#[test]
fn known_identity_trust_is_exact() {
    let mut store = StateStore::new_temporary().unwrap();
    let a = addr(b"alice", 1);
    let key = vec![9u8; 33];
    store.save_identity(&a, &key).unwrap();
    assert!(store.is_trusted_identity(&a, &key).unwrap());
    assert!(!store.is_trusted_identity(&a, &vec![8u8; 33]).unwrap());
    // a different device of the same user has its own record
    let a2 = addr(b"alice", 2);
    assert!(store.is_trusted_identity(&a2, &vec![8u8; 33]).unwrap());
}

#[test]
fn session_round_trip_through_store() {
    let mut store = StateStore::new_temporary().unwrap();
    let a = addr(b"alice", 3);
    assert!(store.load_session(&a).unwrap().is_none());
    let record = SessionRecord::new(777, vec![1, 2, 3, 4]);
    store.store_session(&a, &record).unwrap();
    let loaded = store.load_session(&a).unwrap().unwrap();
    assert_eq!(loaded.registration_id, 777);
    assert!(!loaded.archived);
    assert_eq!(loaded.state, vec![1, 2, 3, 4]);
}

#[test]
fn prefix_isolation() {
    let mut store = StateStore::new_temporary().unwrap();
    for device in [1u32, 2, 3] {
        store
            .store_session(&addr(b"alice", device), &SessionRecord::new(device, vec![device as u8]))
            .unwrap();
    }
    store.store_session(&addr(b"bob", 1), &SessionRecord::new(9, vec![9])).unwrap();
    let sessions = store.load_sessions_by_prefix(&b"alice".to_vec()).unwrap();
    assert_eq!(sessions.len(), 3);
    let mut devices: Vec<u32> = sessions.iter().map(|(a, _)| a.device_id).collect();
    devices.sort();
    assert_eq!(devices, vec![1, 2, 3]);
    for (a, _) in &sessions {
        assert_eq!(a.name, b"alice".to_vec());
    }
    let bobs = store.load_sessions_by_prefix(&b"bob".to_vec()).unwrap();
    assert_eq!(bobs.len(), 1);
    assert_eq!(bobs[0].0.device_id, 1);
    assert_eq!(bobs[0].1.registration_id, 9);
}

#[test]
fn pre_key_store_operations() {
    let mut store = StateStore::new_temporary().unwrap();
    assert!(matches!(store.get_pre_key(1), Err(Error::UnknownPreKey)));
    let record = PreKeyRecord::new(1, KeyPairBytes::new(vec![1; 32], vec![2; 32]));
    store.save_pre_key(1, &record).unwrap();
    let loaded = store.get_pre_key(1).unwrap();
    assert_eq!(loaded.id, 1);
    assert_eq!(loaded.key_pair.public_key, vec![1; 32]);
    assert_eq!(loaded.key_pair.private_key, vec![2; 32]);
    store.remove_pre_key(1).unwrap();
    assert!(matches!(store.get_pre_key(1), Err(Error::UnknownPreKey)));
    // deleting an absent key is a no-op, not an error
    store.remove_pre_key(1).unwrap();
}

#[test]
fn signed_pre_key_single_slot_overwrites() {
    let mut store = StateStore::new_temporary().unwrap();
    assert!(matches!(store.get_signed_pre_key(1), Err(Error::UnknownSignedPreKey)));
    let first = SignedPreKeyRecord::new(1, 1111, KeyPairBytes::new(vec![1; 32], vec![2; 32]), vec![3; 64]);
    store.save_signed_pre_key(1, &first).unwrap();
    let second = SignedPreKeyRecord::new(1, 2222, KeyPairBytes::new(vec![4; 32], vec![5; 32]), vec![6; 64]);
    store.save_signed_pre_key(1, &second).unwrap();
    let loaded = store.get_signed_pre_key(1).unwrap();
    assert_eq!(loaded.timestamp, 2222);
    assert_eq!(loaded.key_pair.public_key, vec![4; 32]);
    assert_eq!(loaded.signature, vec![6; 64]);
}

#[test]
fn kyber_pre_key_consumed_when_used() {
    let mut store = StateStore::new_temporary().unwrap();
    let record = KyberPreKeyRecord::new(5, vec![1, 2, 3]);
    store.save_kyber_pre_key(5, &record).unwrap();
    assert_eq!(store.get_kyber_pre_key(5).unwrap().state, vec![1, 2, 3]);
    store.mark_kyber_pre_key_used(5).unwrap();
    assert!(matches!(store.get_kyber_pre_key(5), Err(Error::UnknownPreKey)));
}

#[test]
fn uninitialized_store_is_a_distinct_error() {
    let store = StateStore::new_temporary().unwrap();
    assert!(matches!(store.get_address(), Err(Error::Uninitialized)));
    assert!(matches!(store.api_username(), Err(Error::Uninitialized)));
    assert!(matches!(store.api_password(), Err(Error::Uninitialized)));
    assert!(matches!(store.get_identity_key_pair(), Err(Error::Uninitialized)));
    assert!(matches!(store.get_local_registration_id(), Err(Error::Uninitialized)));
}

#[test]
fn registered_credentials_read_back() {
    let mut store = StateStore::new_temporary().unwrap();
    let ikp = KeyPairBytes::new(vec![11; 32], vec![12; 32]);
    let own = addr(b"31337aa0-aaaa-bbbb-cccc-ddddeeeeffff", 2);
    store.register_new_account(&ikp, 5555, &own, "s3cret-pass").unwrap();
    let read = store.get_address().unwrap();
    assert_eq!(read.name, own.name);
    assert_eq!(read.device_id, 2);
    assert_eq!(
        store.api_username().unwrap(),
        b"31337aa0-aaaa-bbbb-cccc-ddddeeeeffff.2".to_vec()
    );
    assert_eq!(store.api_password().unwrap(), b"s3cret-pass".to_vec());
    let pair = store.get_identity_key_pair().unwrap();
    assert_eq!(pair.public_key, vec![11; 32]);
    assert_eq!(pair.private_key, vec![12; 32]);
    assert_eq!(store.get_local_registration_id().unwrap(), 5555);
}
