use signal_client::codec::b64_encode;
use signal_client::error::Error;
use signal_client::keys::KeyPairBytes;
use signal_client::messages::{create_data_message, create_message, create_sync_message, CiphertextKind, CiphertextMessage, MessagesWrapper, SendMetadata};
use signal_client::provision::{provisioning_url, ProvisioningAction, ProvisioningEngine, ProvisioningFrame, ProvisioningState, HEARTBEAT_INTERVAL_SECS};
use signal_client::qrcode::qrcode_image;

#[test]
fn provisioning_happy_path() {
    let mut engine = ProvisioningEngine::new();
    assert!(matches!(engine.state, ProvisioningState::AwaitingUuid));
    assert_eq!(engine.ephemeral_key_pair.public_key.len(), 32);
    let expected_url = provisioning_url("some-uuid", &engine.ephemeral_key_pair.public_key);

    // a ping keeps the socket alive and is answered in kind
    match engine.process_frame(ProvisioningFrame::Ping { payload: vec![1, 2] }) {
        ProvisioningAction::SendPong { payload } => assert_eq!(payload, vec![1, 2]),
        _ => panic!("ping not answered with a pong"),
    }

    // the session-naming frame is acknowledged and shows the QR code
    match engine.process_frame(ProvisioningFrame::Uuid {
        request_id: 7,
        uuid: "some-uuid".to_string(),
    }) {
        ProvisioningAction::AckAndShowQr { request_id, url, image } => {
            assert_eq!(request_id, 7);
            assert_eq!(url, expected_url);
            let rendered = image.unwrap();
            assert!(!rendered.is_empty());
            assert_ne!(rendered, url);
        },
        _ => panic!("uuid frame not acknowledged with a QR code"),
    }
    assert!(matches!(engine.state, ProvisioningState::UuidReceived { .. }));

    // the envelope completes the handshake and closes the socket
    match engine.process_frame(ProvisioningFrame::Envelope {
        request_id: 8,
        identity_key_pair: KeyPairBytes::new(vec![1; 32], vec![2; 32]),
        number: "+4955512".to_string(),
        provisioning_code: "654321".to_string(),
    }) {
        ProvisioningAction::AckAndClose { request_id } => assert_eq!(request_id, 8),
        _ => panic!("envelope not acknowledged with a close"),
    }

    let message = engine.into_result().unwrap();
    assert_eq!(message.number(), "+4955512");
    assert_eq!(message.provisioning_code(), "654321");
    assert_eq!(message.identity_key_pair().public_key, vec![1; 32]);
}

#[test]
fn provisioning_url_carries_the_public_key() {
    let key = vec![7u8; 32];
    let url = provisioning_url("abc", &key);
    let mut expected = String::from("sgnl://linkdevice?uuid=abc&pub_key=");
    expected.push_str(&b64_encode(&key));
    assert_eq!(url, expected);
}

#[test]
fn abrupt_close_fails_the_handshake() {
    let mut engine = ProvisioningEngine::new();
    engine.on_socket_closed();
    assert!(matches!(engine.state, ProvisioningState::Failed));
    assert!(matches!(engine.into_result(), Err(Error::ProvisioningFailed)));
}

#[test]
fn close_after_success_is_harmless() {
    let mut engine = ProvisioningEngine::new();
    engine.process_frame(ProvisioningFrame::Uuid { request_id: 1, uuid: "u".to_string() });
    engine.process_frame(ProvisioningFrame::Envelope {
        request_id: 2,
        identity_key_pair: KeyPairBytes::new(vec![1; 32], vec![2; 32]),
        number: "+1".to_string(),
        provisioning_code: "c".to_string(),
    });
    engine.on_socket_closed();
    assert!(engine.into_result().is_ok());
}

#[test]
fn quiet_frames_are_ignored() {
    let mut engine = ProvisioningEngine::new();
    assert!(matches!(engine.process_frame(ProvisioningFrame::Pong), ProvisioningAction::Ignore));
    assert!(matches!(engine.process_frame(ProvisioningFrame::Text), ProvisioningAction::Ignore));
    assert!(matches!(engine.process_frame(ProvisioningFrame::Close), ProvisioningAction::Ignore));
    assert!(matches!(engine.state, ProvisioningState::AwaitingUuid));
    assert_eq!(HEARTBEAT_INTERVAL_SECS, 15);
}

#[test]
fn early_envelope_is_only_acknowledged() {
    let mut engine = ProvisioningEngine::new();
    match engine.process_frame(ProvisioningFrame::Envelope {
        request_id: 3,
        identity_key_pair: KeyPairBytes::new(vec![1; 32], vec![2; 32]),
        number: "+1".to_string(),
        provisioning_code: "c".to_string(),
    }) {
        ProvisioningAction::Ack { request_id } => assert_eq!(request_id, 3),
        _ => panic!("out-of-order envelope should only be acknowledged"),
    }
    assert!(matches!(engine.state, ProvisioningState::AwaitingUuid));
}

#[test]
fn qr_rendering_depends_on_input() {
    let a = qrcode_image("sgnl://linkdevice?uuid=a", true).unwrap();
    let b = qrcode_image("sgnl://linkdevice?uuid=b", true).unwrap();
    assert_ne!(a, b);
    let plain = qrcode_image("sgnl://linkdevice?uuid=a", false).unwrap();
    assert_ne!(a, plain);
}

#[test]
fn envelope_tags_match_kinds() {
    let content = CiphertextMessage::new(CiphertextKind::PreKey, vec![1, 2, 3]);
    assert_eq!(content.message_type(), 3);
    let metadata = SendMetadata::new(content, 4, 999);
    assert_eq!(metadata.msg_type, 3);
    assert_eq!(metadata.device_id, 4);
    assert_eq!(metadata.registration_id, 999);
    assert_eq!(metadata.content.bytes, vec![1, 2, 3]);
    assert_eq!(CiphertextMessage::new(CiphertextKind::Whisper, vec![]).message_type(), 2);
    assert_eq!(CiphertextMessage::new(CiphertextKind::SenderKey, vec![]).message_type(), 7);
    assert_eq!(CiphertextMessage::new(CiphertextKind::Plaintext, vec![]).message_type(), 8);
}

#[test]
fn batch_wrapper_is_offline_and_stamped() {
    let metadata = SendMetadata::new(
        CiphertextMessage::new(CiphertextKind::Whisper, vec![1]),
        1,
        2,
    );
    let wrapper = MessagesWrapper::new(vec![metadata]);
    assert_eq!(wrapper.messages.len(), 1);
    assert!(!wrapper.online);
    // the stamp is wall-clock milliseconds, well past the epoch
    assert!(wrapper.timestamp > 1_600_000_000_000);
}

#[test]
fn message_construction() {
    let data = create_data_message("hi there".to_string());
    assert_eq!(data.body.as_deref(), Some("hi there"));
    let stamp = data.timestamp;
    assert!(stamp.is_some());

    let content = create_message(data.clone());
    assert_eq!(content.data_message.as_ref().unwrap().body.as_deref(), Some("hi there"));
    assert!(content.sync_message.is_none());

    let sync = create_sync_message("dest-uuid".to_string(), data);
    assert!(sync.data_message.is_none());
    let sent = sync.sync_message.unwrap().sent.unwrap();
    assert_eq!(sent.destination_uuid.as_deref(), Some("dest-uuid"));
    assert_eq!(sent.timestamp, stamp);
    assert_eq!(sent.message.unwrap().body.as_deref(), Some("hi there"));
}
