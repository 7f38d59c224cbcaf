use signal_client::address::ProtocolAddress;
use signal_client::dispatch::{load_send_targets, record_established_sessions, Dispatcher};
use signal_client::error::Error;
use signal_client::keys::SessionRecord;
use signal_client::store::StateStore;

fn addr(name: &[u8], device_id: u32) -> ProtocolAddress {
    ProtocolAddress::new(name.to_vec(), device_id)
}

fn sorted_devices(targets: &[(ProtocolAddress, u32)]) -> Vec<u32> {
    let mut devices: Vec<u32> = targets.iter().map(|(a, _)| a.device_id).collect();
    devices.sort();
    devices
}

#[test]
fn reconciliation_convergence() {
    // A recipient with one known device; the server reports device 2 missing
    // on the first attempt and accepts the second.
    let recipient = b"alice".to_vec();
    let mut store = StateStore::new_temporary().unwrap();
    store
        .store_session(&addr(b"alice", 1), &SessionRecord::new(101, vec![1]))
        .unwrap();
    let mut dispatcher = Dispatcher::new(5);

    // first attempt: one target
    let targets = load_send_targets(&store, &recipient).unwrap();
    assert_eq!(sorted_devices(&targets), vec![1]);

    // the server answers the batch with a mismatch naming device 2
    let to_establish = dispatcher
        .on_mismatch(&mut store, &recipient, &vec![2], &Vec::new())
        .unwrap();
    assert_eq!(to_establish, vec![2]);
    assert_eq!(dispatcher.rounds_used, 1);

    // exactly one round of establishment for device 2
    record_established_sessions(&mut store, &recipient, &vec![(2, SessionRecord::new(202, vec![2]))])
        .unwrap();

    // second attempt: both devices, and the server accepts
    let targets = load_send_targets(&store, &recipient).unwrap();
    assert_eq!(sorted_devices(&targets), vec![1, 2]);
    let registration_ids: Vec<u32> = {
        let mut ids: Vec<u32> = targets.iter().map(|(_, r)| *r).collect();
        ids.sort();
        ids
    };
    assert_eq!(registration_ids, vec![101, 202]);
}

#[test]
fn archive_on_removal() {
    // Devices 1, 2, 3 known; the server reports device 3 gone.
    let recipient = b"alice".to_vec();
    let mut store = StateStore::new_temporary().unwrap();
    for device in [1u32, 2, 3] {
        store
            .store_session(&addr(b"alice", device), &SessionRecord::new(device, vec![device as u8]))
            .unwrap();
    }
    let mut dispatcher = Dispatcher::new(5);
    let to_establish = dispatcher
        .on_mismatch(&mut store, &recipient, &Vec::new(), &vec![3])
        .unwrap();
    assert!(to_establish.is_empty());

    // the session is archived, not deleted
    let kept = store.load_session(&addr(b"alice", 3)).unwrap().unwrap();
    assert!(kept.archived);
    assert_eq!(kept.registration_id, 3);
    assert_eq!(kept.state, vec![3]);

    // the next encryption batch excludes the archived device
    let targets = load_send_targets(&store, &recipient).unwrap();
    assert_eq!(sorted_devices(&targets), vec![1, 2]);
}

#[test]
fn reconciliation_budget_runs_out() {
    let recipient = b"alice".to_vec();
    let mut store = StateStore::new_temporary().unwrap();
    store
        .store_session(&addr(b"alice", 1), &SessionRecord::new(1, vec![1]))
        .unwrap();
    let mut dispatcher = Dispatcher::new(2);
    for _ in 0..2 {
        dispatcher
            .on_mismatch(&mut store, &recipient, &vec![2], &Vec::new())
            .unwrap();
    }
    let result = dispatcher.on_mismatch(&mut store, &recipient, &vec![2], &Vec::new());
    assert!(matches!(result, Err(Error::ReconciliationDidNotConverge)));
}

#[test]
fn archiving_an_absent_session_is_an_error() {
    let recipient = b"alice".to_vec();
    let mut store = StateStore::new_temporary().unwrap();
    let mut dispatcher = Dispatcher::new(5);
    let result = dispatcher.on_mismatch(&mut store, &recipient, &Vec::new(), &vec![9]);
    assert!(matches!(result, Err(Error::MissingSession)));
}

#[test]
fn established_batch_is_persisted() {
    let recipient = b"carol".to_vec();
    let mut store = StateStore::new_temporary().unwrap();
    let batch = vec![
        (1u32, SessionRecord::new(11, vec![1])),
        (2u32, SessionRecord::new(22, vec![2])),
        (3u32, SessionRecord::new(33, vec![3])),
    ];
    record_established_sessions(&mut store, &recipient, &batch).unwrap();
    let targets = load_send_targets(&store, &recipient).unwrap();
    assert_eq!(sorted_devices(&targets), vec![1, 2, 3]);
}

#[test]
fn archived_sessions_still_answer_loads() {
    // archived state is kept so trailing messages can still be decrypted
    let recipient = b"dave".to_vec();
    let mut store = StateStore::new_temporary().unwrap();
    store
        .store_session(&addr(b"dave", 1), &SessionRecord::new(1, vec![42]))
        .unwrap();
    let mut dispatcher = Dispatcher::new(5);
    dispatcher
        .on_mismatch(&mut store, &recipient, &Vec::new(), &vec![1])
        .unwrap();
    let targets = load_send_targets(&store, &recipient).unwrap();
    assert!(targets.is_empty());
    let kept = store.load_session(&addr(b"dave", 1)).unwrap().unwrap();
    assert_eq!(kept.state, vec![42]);
}
