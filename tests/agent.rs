use orca::agent::{
    frame_message, frame_payload, identity_payload, registry_host, RegistrationError, RegistrationSession,
    RegistrationStep, DEFAULT_MAX_ATTEMPTS,
};
use orca::registry::RegistryReply;
use orca::ClientInfo;

#[test]
fn payload_without_stored_identifier() {
    let p = identity_payload(None, "alpha".to_string(), "10.0.0.1".to_string(), "aa:bb".to_string());
    assert_eq!(
        p,
        ClientInfo {
            uuid: "UNREGISTERED".to_string(),
            hostname: Some("alpha".to_string()),
            ip: "10.0.0.1".to_string(),
            mac_address: Some("aa:bb".to_string()),
        }
    );
}

#[test]
fn payload_with_stored_identifier() {
    let p = identity_payload(Some("machine-1".to_string()), "alpha".to_string(), "10.0.0.1".to_string(), "aa:bb".to_string());
    assert_eq!(p.uuid, "machine-1");
}

#[test]
fn session_persists_identifier() {
    let mut s = RegistrationSession::new(DEFAULT_MAX_ATTEMPTS);
    assert_eq!(s.on_reply(&RegistryReply::Registered("id-1".to_string())), RegistrationStep::Persist("id-1".to_string()));
    let mut s = RegistrationSession::new(DEFAULT_MAX_ATTEMPTS);
    assert_eq!(s.on_reply(&RegistryReply::Updated("id-2".to_string())), RegistrationStep::Persist("id-2".to_string()));
    assert_eq!(s.attempts(), 1);
}

#[test]
fn session_retries_then_gives_up() {
    let mut s = RegistrationSession::new(3);
    assert_eq!(s.on_reply(&RegistryReply::UuidInUse), RegistrationStep::Retry);
    assert_eq!(s.on_reply(&RegistryReply::UuidInUse), RegistrationStep::Retry);
    assert_eq!(
        s.on_reply(&RegistryReply::UuidInUse),
        RegistrationStep::Fail(RegistrationError::RetriesExhausted(3))
    );
    assert_eq!(s.attempts(), 3);
    assert_eq!(
        s.on_reply(&RegistryReply::UuidInUse),
        RegistrationStep::Fail(RegistrationError::RetriesExhausted(3))
    );
    assert_eq!(s.attempts(), 3);
}

#[test]
fn session_retry_then_success() {
    let mut s = RegistrationSession::new(2);
    assert_eq!(s.on_reply(&RegistryReply::UuidInUse), RegistrationStep::Retry);
    assert_eq!(s.on_reply(&RegistryReply::Registered("new".to_string())), RegistrationStep::Persist("new".to_string()));
}

#[test]
fn session_rejects_other_reply() {
    let mut s = RegistrationSession::new(DEFAULT_MAX_ATTEMPTS);
    assert_eq!(
        s.on_reply(&RegistryReply::Failed("Database error: down".to_string())),
        RegistrationStep::Fail(RegistrationError::Rejected("Database error: down".to_string()))
    );
}

#[test]
fn session_with_no_attempts() {
    let mut s = RegistrationSession::new(0);
    assert_eq!(s.on_reply(&RegistryReply::UuidInUse), RegistrationStep::Fail(RegistrationError::RetriesExhausted(0)));
    assert_eq!(s.attempts(), 0);
}

#[test]
fn frame_appends_newline() {
    assert_eq!(frame_message(&b"{\"command\":\"ls\"}".to_vec()), b"{\"command\":\"ls\"}\n".to_vec());
    assert_eq!(frame_message(&Vec::new()), b"\n".to_vec());
}

#[test]
fn frame_payload_stops_at_first_newline() {
    assert_eq!(frame_payload(&b"abc\ndef\n".to_vec()), Some(b"abc".to_vec()));
    assert_eq!(frame_payload(&b"\n".to_vec()), Some(Vec::new()));
}

#[test]
fn frame_payload_without_newline() {
    assert_eq!(frame_payload(&b"not json and no newline".to_vec()), None);
    assert_eq!(frame_payload(&Vec::new()), None);
}

#[test]
fn frame_round_trip() {
    let p = b"{\"command\":\"echo hello\",\"files\":[]}".to_vec();
    assert_eq!(frame_payload(&frame_message(&p)), Some(p));
}

#[test]
fn registry_host_part() {
    assert_eq!(registry_host("registry.example.com:7000"), "registry.example.com");
    assert_eq!(registry_host("registry.example.com"), "registry.example.com");
    assert_eq!(registry_host(":7000"), "");
}
