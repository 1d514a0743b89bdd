use orca::registry::RegistryReply;
use orca::store::{decide_registration, plan_registration, IdentityStore, RegistrationAction};
use orca::ClientInfo;

fn info(uuid: &str, ip: &str, host: &str, mac: &str) -> ClientInfo {
    ClientInfo {
        uuid: uuid.to_string(),
        hostname: Some(host.to_string()),
        ip: ip.to_string(),
        mac_address: Some(mac.to_string()),
    }
}

fn is_v4_text(s: &str) -> bool {
    let c: Vec<char> = s.chars().collect();
    if c.len() != 36 {
        return false;
    }
    for (i, ch) in c.iter().enumerate() {
        let ok = if i == 8 || i == 13 || i == 18 || i == 23 {
            *ch == '-'
        } else {
            ch.is_ascii_digit() || ('a'..='f').contains(ch)
        };
        if !ok {
            return false;
        }
    }
    c[14] == '4' && matches!(c[19], '8' | '9' | 'a' | 'b')
}

#[test]
fn reply_wire_texts() {
    assert_eq!(RegistryReply::Registered("abc".to_string()).to_wire(), "registered:abc");
    assert_eq!(RegistryReply::Updated("abc".to_string()).to_wire(), "updated:abc");
    assert_eq!(RegistryReply::UuidInUse.to_wire(), "UUID_IN_USE");
    assert_eq!(RegistryReply::Failed("boom".to_string()).to_wire(), "boom");
}

#[test]
fn reply_read_back() {
    assert_eq!(RegistryReply::from_wire("registered:abc"), RegistryReply::Registered("abc".to_string()));
    assert_eq!(RegistryReply::from_wire("updated:x-1"), RegistryReply::Updated("x-1".to_string()));
    assert_eq!(RegistryReply::from_wire("UUID_IN_USE"), RegistryReply::UuidInUse);
    assert_eq!(RegistryReply::from_wire("UUID_IN_USE!"), RegistryReply::Failed("UUID_IN_USE!".to_string()));
    assert_eq!(RegistryReply::from_wire("Database error: gone"), RegistryReply::Failed("Database error: gone".to_string()));
    assert_eq!(RegistryReply::from_wire(""), RegistryReply::Failed(String::new()));
}

#[test]
fn reply_round_trip() {
    for r in [
        RegistryReply::Registered("0f0e".to_string()),
        RegistryReply::Updated("machine-7".to_string()),
        RegistryReply::UuidInUse,
    ] {
        assert_eq!(RegistryReply::from_wire(&r.to_wire()), r);
    }
}

#[test]
fn failure_replies() {
    assert_eq!(
        RegistryReply::parse_failure("expected value at line 1"),
        RegistryReply::Failed("Error parsing client info: expected value at line 1".to_string())
    );
    assert_eq!(
        RegistryReply::store_failure("pool closed"),
        RegistryReply::Failed("Database error: pool closed".to_string())
    );
}

#[test]
fn decision_new_identifier_kept() {
    let p = info("machine-1", "10.0.0.1", "alpha", "aa:bb");
    let a = decide_registration(&p, &None, &"ffffffff-ffff-4fff-bfff-ffffffffffff".to_string());
    assert_eq!(a, RegistrationAction::Insert(p.clone()));
    assert_eq!(a.reply(), RegistryReply::Registered("machine-1".to_string()));
}

#[test]
fn decision_placeholder_gets_fresh() {
    let fresh = "12345678-1234-4234-8234-123456789abc".to_string();
    for id in ["", "UNREGISTERED", "UNKNOWN"] {
        let p = info(id, "10.0.0.1", "alpha", "aa:bb");
        let a = decide_registration(&p, &None, &fresh);
        assert_eq!(a, RegistrationAction::Insert(info(&fresh, "10.0.0.1", "alpha", "aa:bb")));
    }
}

#[test]
fn decision_matching_mac_updates() {
    let stored = info("machine-1", "10.0.0.1", "alpha", "aa:bb");
    let p = info("machine-1", "10.0.0.9", "beta", "aa:bb");
    let a = decide_registration(&p, &Some(stored), &String::new());
    assert_eq!(a, RegistrationAction::Update(info("machine-1", "10.0.0.9", "beta", "aa:bb")));
    assert_eq!(a.reply(), RegistryReply::Updated("machine-1".to_string()));
}

#[test]
fn decision_other_mac_rejected() {
    let stored = info("machine-1", "10.0.0.1", "alpha", "aa:bb");
    let p = info("machine-1", "10.0.0.9", "beta", "cc:dd");
    let a = decide_registration(&p, &Some(stored), &String::new());
    assert_eq!(a, RegistrationAction::Reject);
    assert_eq!(a.reply(), RegistryReply::UuidInUse);
}

#[test]
fn decision_unset_stored_mac_rejected() {
    let mut stored = info("machine-1", "10.0.0.1", "alpha", "aa:bb");
    stored.mac_address = None;
    let p = info("machine-1", "10.0.0.9", "beta", "cc:dd");
    assert_eq!(decide_registration(&p, &Some(stored), &String::new()), RegistrationAction::Reject);
}

#[test]
fn plan_draws_uuid_for_placeholder() {
    let p = info("UNREGISTERED", "10.0.0.1", "alpha", "aa:bb");
    match plan_registration(&p, &None) {
        RegistrationAction::Insert(row) => {
            assert!(is_v4_text(&row.uuid), "{}", row.uuid);
            assert_eq!(row.ip, "10.0.0.1");
        }
        other => panic!("unexpected {:?}", other),
    }
}

#[test]
fn plan_keeps_real_identifier() {
    let p = info("machine-1", "10.0.0.1", "alpha", "aa:bb");
    assert_eq!(plan_registration(&p, &None), RegistrationAction::Insert(p.clone()));
}

#[test]
fn idempotent_check_in() {
    let mut store = IdentityStore::new();
    let first = store.register(&info("machine-1", "10.0.0.1", "alpha", "aa:bb"));
    assert_eq!(first, RegistryReply::Registered("machine-1".to_string()));
    let r1 = store.register(&info("machine-1", "10.0.0.2", "beta", "aa:bb"));
    let r2 = store.register(&info("machine-1", "10.0.0.2", "beta", "aa:bb"));
    assert_eq!(r1, RegistryReply::Updated("machine-1".to_string()));
    assert_eq!(r2, RegistryReply::Updated("machine-1".to_string()));
    assert_eq!(store.len(), 1);
    assert_eq!(store.get(0), info("machine-1", "10.0.0.2", "beta", "aa:bb"));
}

#[test]
fn collision_detected() {
    let mut store = IdentityStore::new();
    store.register(&info("machine-1", "10.0.0.1", "alpha", "aa:bb"));
    let r = store.register(&info("machine-1", "10.0.0.7", "intruder", "ee:ff"));
    assert_eq!(r, RegistryReply::UuidInUse);
    assert_eq!(store.len(), 1);
    assert_eq!(store.get(0), info("machine-1", "10.0.0.1", "alpha", "aa:bb"));
}

#[test]
fn fresh_assignment() {
    let mut store = IdentityStore::new();
    store.register(&info("machine-1", "10.0.0.1", "alpha", "aa:bb"));
    let mut seen = vec!["machine-1".to_string()];
    for id in ["", "UNREGISTERED", "UNKNOWN", "UNREGISTERED"] {
        match store.register(&info(id, "10.0.0.3", "gamma", "11:22")) {
            RegistryReply::Registered(new_id) => {
                assert!(is_v4_text(&new_id), "{}", new_id);
                assert!(!seen.contains(&new_id));
                seen.push(new_id);
            }
            other => panic!("unexpected {:?}", other),
        }
    }
    assert_eq!(store.len(), 5);
}

#[test]
fn fresh_identifier_already_stored() {
    let fresh = "12345678-1234-4234-8234-123456789abc".to_string();
    let mut store = IdentityStore::new();
    store.register(&info(&fresh, "10.0.0.1", "alpha", "aa:bb"));
    let r = store.register_with(&info("UNREGISTERED", "10.0.0.3", "gamma", "11:22"), &fresh);
    assert_eq!(r, RegistryReply::Failed("Database error: identifier already stored".to_string()));
    assert_eq!(store.len(), 1);
}

#[test]
fn lookup_and_find() {
    let mut store = IdentityStore::new();
    store.register(&info("machine-1", "10.0.0.1", "alpha", "aa:bb"));
    store.register(&info("machine-2", "10.0.0.2", "beta", "cc:dd"));
    assert_eq!(store.find("machine-2"), Some(1));
    assert_eq!(store.find("machine-3"), None);
    assert_eq!(store.lookup("machine-1"), Some(info("machine-1", "10.0.0.1", "alpha", "aa:bb")));
    assert_eq!(store.lookup("UNREGISTERED"), None);
}
