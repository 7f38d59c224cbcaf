use signal_client::api::{classify_status, ApiConfig, ApiPath, Body};
use signal_client::error::Error;
use signal_client::http::{build_request_head, parse_header_line, parse_status_line, read_until_rn};
use signal_client::register::{credentials_from_response, generate_registration_id, make_api_pass, DeviceRegistrationRequest};
use signal_client::keys::KeyPairBytes;

#[test]
fn api_paths_exact() {
    assert_eq!(ApiPath::ProvisioningSocket.get_path(), "/v1/websocket/provisioning/");
    assert_eq!(ApiPath::PreKeys.get_path(), "/v2/keys/");
    assert_eq!(
        ApiPath::Device { provisioning_code: "123456" }.get_path(),
        "/v1/devices/123456"
    );
    assert_eq!(
        ApiPath::SendMessage { recipient: "+4912345" }.get_path(),
        "/v1/messages/+4912345"
    );
    assert_eq!(
        ApiPath::GetSessionKey { recipient: "alice", device_id: "*" }.get_path(),
        "/v2/keys/alice/*"
    );
}

#[test]
fn default_api_config() {
    let config = ApiConfig::default();
    assert_eq!(config.user_agent, "Signal-Desktop/6.10.1 Linux");
    assert_eq!(config.authority, "textsecure-service.whispersystems.org:443");
    assert!(config.cert_bytes.is_empty());
    assert!(matches!(Body::empty(), Body::Empty));
}

#[test]
fn status_classification() {
    assert!(classify_status(200, String::new()).is_ok());
    assert!(classify_status(204, String::new()).is_ok());
    assert!(classify_status(299, String::new()).is_ok());
    match classify_status(499, "old".to_string()) {
        Err(Error::DeprecatedHttpError(body)) => assert_eq!(body, "old"),
        other => panic!("unexpected: {:?}", other.is_ok()),
    }
    match classify_status(409, "mismatch".to_string()) {
        Err(Error::HttpError(status, body)) => {
            assert_eq!(status, 409);
            assert_eq!(body, "mismatch");
        },
        other => panic!("unexpected: {:?}", other.is_ok()),
    }
    assert!(classify_status(199, String::new()).is_err());
    assert!(classify_status(300, String::new()).is_err());
}

#[test]
fn registration_request_capabilities() {
    let request = DeviceRegistrationRequest::new("laptop".to_string(), 1234);
    let expected = [
        "gv2-3",
        "gv1-migration",
        "senderKey",
        "changeNumber",
        "announcementGroup",
        "giftBadges",
        "stories",
    ];
    assert_eq!(request.capabilities.len(), expected.len());
    for ((name, enabled), want) in request.capabilities.iter().zip(expected.iter()) {
        assert_eq!(name, want);
        assert!(*enabled);
    }
    assert!(request.fetches_messages);
    assert_eq!(request.name, "laptop");
    assert_eq!(request.registration_id, 1234);
    assert!(!request.supports_sms);
    assert!(request.unidentified_access_key.is_none());
    assert!(!request.unrestricted_unidentified_access);
}

#[test]
fn registration_id_is_fourteen_bits() {
    for _ in 0..100 {
        assert!(generate_registration_id() < 0x4000);
    }
}

#[test]
fn api_pass_is_unpadded_and_fresh() {
    let a = make_api_pass();
    let b = make_api_pass();
    // sixteen bytes render to twenty-two symbols without padding
    assert_eq!(a.len(), 22);
    assert!(!a.contains('='));
    assert_ne!(a, b);
}

#[test]
fn credentials_fallbacks() {
    let pair = KeyPairBytes::new(vec![1; 32], vec![2; 32]);
    let with_uuid = credentials_from_response(
        Some("uuid-1".to_string()),
        Some(3),
        "+491234",
        "pw".to_string(),
        pair,
        77,
    );
    assert_eq!(with_uuid.address.name, b"uuid-1".to_vec());
    assert_eq!(with_uuid.address.device_id, 3);
    assert_eq!(with_uuid.api_pass, "pw");
    assert_eq!(with_uuid.registration_id, 77);

    let pair = KeyPairBytes::new(vec![1; 32], vec![2; 32]);
    let fallback = credentials_from_response(None, None, "+491234", "pw".to_string(), pair, 77);
    assert_eq!(fallback.address.name, b"+491234".to_vec());
    assert_eq!(fallback.address.device_id, 1);
}

#[test]
fn line_reader_finds_breaks() {
    let data = b"HTTP/1.1 200 OK\r\nHost: x\r\n\r\nbody".to_vec();
    let (line, next) = read_until_rn(&data, 0).unwrap();
    assert_eq!(line, b"HTTP/1.1 200 OK".to_vec());
    let (line2, next2) = read_until_rn(&data, next).unwrap();
    assert_eq!(line2, b"Host: x".to_vec());
    let (line3, next3) = read_until_rn(&data, next2).unwrap();
    assert!(line3.is_empty());
    assert_eq!(&data[next3..], b"body");
    assert!(read_until_rn(&data, next3).is_none());
    assert!(read_until_rn(&b"no break".to_vec(), 0).is_none());
    assert!(read_until_rn(&b"bare\rreturn".to_vec(), 0).is_none());
}

#[test]
fn status_line_parsing() {
    assert_eq!(parse_status_line(&b"HTTP/1.1 200 OK".to_vec()), Some(200));
    assert_eq!(parse_status_line(&b"HTTP/1.1 409 Conflict".to_vec()), Some(409));
    assert_eq!(parse_status_line(&b"HTTP/1.1 503".to_vec()), Some(503));
    assert_eq!(parse_status_line(&b"HTTP/1.0 200 OK".to_vec()), None);
    assert_eq!(parse_status_line(&b"HTTP/1.1 2x0 OK".to_vec()), None);
    assert_eq!(parse_status_line(&b"short".to_vec()), None);
}

#[test]
fn header_line_parsing() {
    let (name, value) = parse_header_line(&b"Content-Type: application/json".to_vec()).unwrap();
    assert_eq!(name, b"Content-Type".to_vec());
    assert_eq!(value, b" application/json".to_vec());
    assert!(parse_header_line(&b"no colon here".to_vec()).is_none());
}

#[test]
fn request_head_exact() {
    let head = build_request_head("PUT", "/v2/keys/", "example.org");
    assert_eq!(head, b"PUT /v2/keys/ HTTP/1.1\r\nHost: example.org\r\n".to_vec());
}

#[test]
fn error_messages_name_the_condition() {
    assert_eq!(Error::Uninitialized.message(), "app state is not initialized");
    assert_eq!(Error::ReconciliationDidNotConverge.message(), "device set did not converge");
    assert_eq!(Error::HttpError(409, "body".to_string()).message(), "body");
    assert_eq!(Error::ProvisioningFailed.message(), "provisioning failed");
}
