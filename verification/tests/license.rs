use chrono::{TimeZone, Utc};
use vocrit_subscription::clock::{Now, Timestamp};
use vocrit_subscription::device::{generate_device_id, HostNames};
use vocrit_subscription::license::{
    admin_emails, backend_base_url, checkout_url, complete_license_activation,
    interpret_payment_status, is_valid_session_id, license_verify_url, payment_session,
    payment_status_url, prepare_checkout, start_license_activation, ActivationStep, AdminConfig,
    PaymentStatusReply, VerifyReply, VerifyRequest,
};
use vocrit_subscription::subscription::{SubscriptionState, SubscriptionTier};

fn now_at(y: i32, m: u32, d: u32) -> Now {
    let dt = Utc.with_ymd_and_hms(y, m, d, 9, 0, 0).unwrap();
    Now::at(Timestamp { secs: dt.timestamp(), nanos: 0 }).unwrap()
}

fn host() -> HostNames {
    HostNames {
        hostname: Some("desk".to_string()),
        computername: None,
        user: Some("alice".to_string()),
        username: None,
    }
}

fn admin(key: Option<&str>, emails: Option<&str>) -> AdminConfig {
    AdminConfig { master_key: key.map(String::from), admin_emails: emails.map(String::from) }
}

#[test]
fn admin_email_list_is_trimmed_lowercased_and_without_blanks() {
    assert_eq!(
        admin_emails(Some(" Boss@Example.COM, ,second@x.org ,")),
        vec!["boss@example.com".to_string(), "second@x.org".to_string()]
    );
    assert!(admin_emails(None).is_empty());
    assert!(admin_emails(Some("")).is_empty());
}

#[test]
fn activation_refuses_empty_email_or_key() {
    let now = now_at(2024, 5, 15);
    let mut s = SubscriptionState::default();
    let e = start_license_activation(&mut s, &now, &host(), &admin(None, None), "  \t", "KEY");
    assert_eq!(e.err().as_deref(), Some("Email is required"));
    let e = start_license_activation(&mut s, &now, &host(), &admin(None, None), "a@b.c", " \n ");
    assert_eq!(e.err().as_deref(), Some("License key is required"));
    assert!(s.device_id.is_none());
}

#[test]
fn master_key_grants_admin_free() {
    let now = now_at(2024, 5, 15);
    let mut s = SubscriptionState::default();
    s.monthly_chars_used = 321;
    let r = start_license_activation(
        &mut s,
        &now,
        &host(),
        &admin(Some("MASTER-1"), None),
        "  Friend@Mail.com ",
        " MASTER-1 ",
    )
    .unwrap();
    match r {
        ActivationStep::Activated(st) => {
            assert_eq!(st.tier, SubscriptionTier::AdminFree);
            assert!(st.is_unlimited);
            assert_eq!(st.email.as_deref(), Some("friend@mail.com"));
        }
        ActivationStep::Verify(_) => panic!("master key must not need the backend"),
    }
    assert_eq!(s.tier, SubscriptionTier::AdminFree);
    assert_eq!(s.license_key.as_deref(), Some("MASTER-1"));
    assert!(s.expires_at.is_none());
    assert_eq!(s.monthly_chars_used, 321);
    assert_eq!(s.device_id, Some(generate_device_id(&host())));
}

#[test]
fn admin_email_grants_admin_free() {
    let now = now_at(2024, 5, 15);
    let mut s = SubscriptionState::default();
    let r = start_license_activation(
        &mut s,
        &now,
        &host(),
        &admin(None, Some("boss@example.com")),
        "BOSS@example.com",
        "anything",
    )
    .unwrap();
    assert!(matches!(r, ActivationStep::Activated(_)));
    assert_eq!(s.tier, SubscriptionTier::AdminFree);
}

#[test]
fn empty_master_key_is_not_an_admin_key() {
    let now = now_at(2024, 5, 15);
    let mut s = SubscriptionState::default();
    let r = start_license_activation(&mut s, &now, &host(), &admin(Some(""), None), "a@b.c", "k")
        .unwrap();
    assert!(matches!(r, ActivationStep::Verify(_)));
    assert_eq!(s.tier, SubscriptionTier::Free);
}

#[test]
fn other_keys_go_to_the_backend() {
    let now = now_at(2024, 5, 15);
    let mut s = SubscriptionState::default();
    let r = start_license_activation(
        &mut s,
        &now,
        &host(),
        &admin(Some("MASTER-1"), Some("boss@example.com")),
        " User@Mail.com",
        " VOCRIT-ABC ",
    )
    .unwrap();
    match r {
        ActivationStep::Verify(req) => {
            assert_eq!(req.email, "user@mail.com");
            assert_eq!(req.key, "VOCRIT-ABC");
            assert_eq!(req.device_id, generate_device_id(&host()));
        }
        ActivationStep::Activated(_) => panic!("an ordinary key is never trusted locally"),
    }
    assert_eq!(s.tier, SubscriptionTier::Free);
    assert!(s.license_key.is_none());
}

fn request() -> VerifyRequest {
    VerifyRequest {
        key: "VOCRIT-ABC".to_string(),
        email: "user@mail.com".to_string(),
        device_id: "dev".to_string(),
    }
}

#[test]
fn rejected_key_changes_nothing() {
    let now = now_at(2024, 5, 15);
    let mut s = SubscriptionState::default();
    let reply = VerifyReply {
        valid: false,
        tier: Some("premium".to_string()),
        expires_at: None,
        reason: Some("revoked".to_string()),
    };
    let r = complete_license_activation(&mut s, &now, &request(), &reply);
    assert_eq!(r.err().as_deref(), Some("License key rejected: revoked"));
    assert_eq!(s.tier, SubscriptionTier::Free);
    assert!(s.license_key.is_none());
    let reply = VerifyReply { valid: false, tier: None, expires_at: None, reason: None };
    let r = complete_license_activation(&mut s, &now, &request(), &reply);
    assert_eq!(r.err().as_deref(), Some("License key rejected: invalid key"));
}

#[test]
fn accepted_key_with_expiry_becomes_premium() {
    let now = now_at(2024, 5, 15);
    let mut s = SubscriptionState::default();
    let reply = VerifyReply {
        valid: true,
        tier: Some("premium".to_string()),
        expires_at: Some("2025-05-15T00:00:00Z".to_string()),
        reason: None,
    };
    let st = complete_license_activation(&mut s, &now, &request(), &reply).unwrap();
    assert_eq!(st.tier, SubscriptionTier::Premium);
    assert!(st.is_unlimited);
    assert_eq!(s.expires_at.as_deref(), Some("2025-05-15T00:00:00Z"));
    assert_eq!(s.email.as_deref(), Some("user@mail.com"));
    assert_eq!(s.license_key.as_deref(), Some("VOCRIT-ABC"));
}

#[test]
fn accepted_key_without_expiry_lasts_a_year() {
    let now = now_at(2024, 5, 15);
    let mut s = SubscriptionState::default();
    let reply = VerifyReply { valid: true, tier: None, expires_at: None, reason: None };
    let st = complete_license_activation(&mut s, &now, &request(), &reply).unwrap();
    assert_eq!(st.tier, SubscriptionTier::Premium);
    assert_eq!(s.expires_at.as_deref(), Some("2025-05-15T09:00:00+00:00"));
}

#[test]
fn backend_may_grant_admin_free() {
    let now = now_at(2024, 5, 15);
    let mut s = SubscriptionState::default();
    s.expires_at = Some("2020-01-01T00:00:00Z".to_string());
    let reply = VerifyReply {
        valid: true,
        tier: Some("admin_free".to_string()),
        expires_at: Some("2025-01-01T00:00:00Z".to_string()),
        reason: None,
    };
    let st = complete_license_activation(&mut s, &now, &request(), &reply).unwrap();
    assert_eq!(st.tier, SubscriptionTier::AdminFree);
    assert!(s.expires_at.is_none());
}

#[test]
fn checkout_refuses_empty_fields_and_binds_the_device() {
    let mut s = SubscriptionState::default();
    assert_eq!(
        prepare_checkout(&mut s, &host(), " ", "+225").err().as_deref(),
        Some("Email is required")
    );
    assert_eq!(
        prepare_checkout(&mut s, &host(), "a@b.c", "   ").err().as_deref(),
        Some("Phone number is required")
    );
    assert!(s.device_id.is_none());
    let req = prepare_checkout(&mut s, &host(), " A@B.C ", " +22507000000 ").unwrap();
    assert_eq!(req.email, "a@b.c");
    assert_eq!(req.phone, "+22507000000");
    assert_eq!(req.provider, "money_fusion");
    assert_eq!(req.plan, "annual");
    assert_eq!(req.amount_xof, 10_000);
    assert_eq!(req.currency, "XOF");
    assert_eq!(Some(req.device_id.clone()), s.device_id);
}

#[test]
fn payment_session_carries_the_price() {
    let p = payment_session("sess_1".to_string(), "https://pay/x".to_string());
    assert_eq!(p.session_id, "sess_1");
    assert_eq!(p.checkout_url, "https://pay/x");
    assert_eq!(p.amount_xof, 10_000);
    assert_eq!(p.currency, "XOF");
    assert_eq!(p.provider, "money_fusion");
}

#[test]
fn session_ids_are_nanoid_tokens() {
    assert!(is_valid_session_id("cN1pTq8_-x"));
    assert!(!is_valid_session_id(""));
    assert!(!is_valid_session_id("../admin"));
    assert!(!is_valid_session_id("a?b=c"));
    assert!(!is_valid_session_id("é"));
    assert!(!is_valid_session_id("a b"));
}

#[test]
fn backend_urls() {
    assert_eq!(backend_base_url(None), "https://api.vocrit.ai");
    assert_eq!(backend_base_url(Some("http://localhost:3000//")), "http://localhost:3000");
    assert_eq!(license_verify_url("https://h"), "https://h/api/license/verify");
    assert_eq!(checkout_url("https://h"), "https://h/api/checkout");
    let mut s = SubscriptionState::default();
    assert_eq!(payment_status_url("https://h", "abc", &s), "https://h/api/checkout/abc?device_id=");
    s.device_id = Some("d1".to_string());
    assert_eq!(
        payment_status_url("https://h", "abc", &s),
        "https://h/api/checkout/abc?device_id=d1"
    );
}

#[test]
fn payment_status_must_be_paid_and_complete() {
    let reply = |status: &str, email: Option<&str>, key: Option<&str>| PaymentStatusReply {
        status: status.to_string(),
        email: email.map(String::from),
        license_key: key.map(String::from),
    };
    assert_eq!(
        interpret_payment_status(&reply("pending", Some("a"), Some("k"))).err().as_deref(),
        Some("Payment not completed yet (status: pending)")
    );
    assert_eq!(
        interpret_payment_status(&reply("paid", None, Some("k"))).err().as_deref(),
        Some("Backend omitted email")
    );
    assert_eq!(
        interpret_payment_status(&reply("paid", Some("a"), None)).err().as_deref(),
        Some("Backend omitted license_key")
    );
    assert_eq!(
        interpret_payment_status(&reply("paid", Some("a@b"), Some("K"))).unwrap(),
        ("a@b".to_string(), "K".to_string())
    );
}

#[test]
fn unicode_white_space_and_case_are_normalized() {
    assert_eq!(
        admin_emails(Some("\u{3000}Éric@Exemple.FR\u{2003},\u{a0}")),
        vec!["éric@exemple.fr".to_string()]
    );
    let now = now_at(2024, 5, 15);
    let mut s = SubscriptionState::default();
    let r = start_license_activation(
        &mut s,
        &now,
        &host(),
        &admin(None, Some("éric@exemple.fr")),
        "\u{205f}ÉRIC@exemple.fr\t",
        "\u{1680}k\u{2028}",
    )
    .unwrap();
    assert!(matches!(r, ActivationStep::Activated(_)));
    assert_eq!(s.license_key.as_deref(), Some("k"));
}

#[test]
fn every_unicode_white_space_is_trimmed_and_nothing_else() {
    let spaces: Vec<char> = [0x09u32, 0x0a, 0x0b, 0x0c, 0x0d, 0x20, 0x85, 0xa0, 0x1680]
        .into_iter()
        .chain(0x2000..=0x200a)
        .chain([0x2028, 0x2029, 0x202f, 0x205f, 0x3000])
        .map(|u| char::from_u32(u).unwrap())
        .collect();
    let pad: String = spaces.iter().collect();
    let now = now_at(2024, 5, 15);
    let mut s = SubscriptionState::default();
    let key = format!("{pad}\u{200b}K\u{180e}{pad}");
    let r = start_license_activation(&mut s, &now, &host(), &admin(None, None), "a@b.c", &key)
        .unwrap();
    match r {
        ActivationStep::Verify(req) => assert_eq!(req.key, "\u{200b}K\u{180e}"),
        ActivationStep::Activated(_) => panic!("not an admin key"),
    }
}
