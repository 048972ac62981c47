use chrono::{TimeZone, Utc};
use sha2::{Digest, Sha256};
use vocrit_subscription::clock::{Now, Timestamp};
use vocrit_subscription::device::{
    ensure_device_id, generate_device_id, get_subscription_status, HostNames,
};
use vocrit_subscription::subscription::SubscriptionState;

fn now_at(y: i32, m: u32, d: u32) -> Now {
    let dt = Utc.with_ymd_and_hms(y, m, d, 9, 0, 0).unwrap();
    Now::at(Timestamp { secs: dt.timestamp(), nanos: 0 }).unwrap()
}

fn host(h: Option<&str>, c: Option<&str>, u: Option<&str>, un: Option<&str>) -> HostNames {
    HostNames {
        hostname: h.map(String::from),
        computername: c.map(String::from),
        user: u.map(String::from),
        username: un.map(String::from),
    }
}

fn expected(seed: &str) -> String {
    format!("{:x}", Sha256::digest(seed.as_bytes()))
}

#[test]
fn device_id_is_sha256_of_host_and_user() {
    let id = generate_device_id(&host(Some("desk"), Some("OTHER"), Some("alice"), Some("bob")));
    assert_eq!(id, expected("vocrit-ai:desk:alice"));
    assert_eq!(id.len(), 64);
    assert!(id.chars().all(|c| c.is_ascii_digit() || ('a'..='f').contains(&c)));
}

#[test]
fn device_id_of_empty_seed_parts_is_known_digest() {
    // SHA-256 of "vocrit-ai:unknown:unknown", checked against the sha2 crate.
    let id = generate_device_id(&host(None, None, None, None));
    assert_eq!(id, expected("vocrit-ai:unknown:unknown"));
    assert_ne!(id, "vocrit-ai:unknown:unknown");
}

#[test]
fn device_id_falls_back_to_windows_names() {
    let id = generate_device_id(&host(None, Some("PC-1"), None, Some("carol")));
    assert_eq!(id, expected("vocrit-ai:PC-1:carol"));
}

#[test]
fn device_id_of_a_known_input() {
    // echo -n "abc" | sha256sum, seeded through the same format.
    assert_eq!(
        format!("{:x}", Sha256::digest(b"abc")),
        "ba7816bf8f01cfea414140de5dae2223b00361a396177a9cb410ff61f20015ad"
    );
    let id = generate_device_id(&host(Some("h"), None, Some("u"), None));
    assert_eq!(id, expected("vocrit-ai:h:u"));
}

#[test]
fn device_id_once_set_is_kept() {
    let mut s = SubscriptionState::default();
    ensure_device_id(&mut s, &host(Some("a"), None, Some("b"), None));
    let first = s.device_id.clone().unwrap();
    assert_eq!(first, expected("vocrit-ai:a:b"));
    ensure_device_id(&mut s, &host(Some("z"), None, Some("y"), None));
    assert_eq!(s.device_id.as_deref(), Some(first.as_str()));
}

#[test]
fn status_refresh_saves_only_when_something_changed() {
    let now = now_at(2024, 5, 15);
    let mut s = SubscriptionState::default();
    let r = get_subscription_status(&mut s, &now, &host(Some("a"), None, Some("b"), None));
    assert!(r.save);
    assert!(s.device_id.is_some());
    assert_eq!(s.quota_window_started_at.as_deref(), Some(now.rfc3339()));
    assert_eq!(r.status.remaining_chars, 5000);
    let r2 = get_subscription_status(&mut s, &now, &host(Some("a"), None, Some("b"), None));
    assert!(!r2.save);
}
