//! License activation, checkout and payment polling against the licensing
//! backend: everything but the network exchanges themselves.
//!
//! Admin paths are decided locally and work offline: the key equals the
//! build-time master key (when one is configured and not empty), or the email
//! is in the build-time admin list. Every other key is verified by the
//! backend before any tier upgrade is stored.

use crate::clock::Now;
use crate::device::{ensure_device_id, with_device_id, HostNames};
use crate::subscription::{
    clone_text, is_status_of, to_status, StateView, SubscriptionState, SubscriptionStatus,
    SubscriptionTier, SUBSCRIPTION_CURRENCY, SUBSCRIPTION_PRICE_XOF,
};
use crate::text::{
    lowercase_of, split_commas, split_commas_spec, to_lowercase, trim, trim_spec,
    trim_trailing_slashes, trim_trailing_slashes_spec,
};
use vstd::prelude::*;

verus! {

/// Backend used when the build names none.
pub const DEFAULT_BACKEND_URL: &'static str = "https://api.vocrit.ai";

/// Payment provider of the checkout.
pub const PAYMENT_PROVIDER: &'static str = "money_fusion";

/// Plan bought at checkout.
pub const SUBSCRIPTION_PLAN: &'static str = "annual";

/// An email address as it is compared and stored: trimmed, then lower-cased.
pub open spec fn normalized_email(s: Seq<char>) -> Seq<char> {
    lowercase_of(trim_spec(s))
}

/// The admin list built from the normalized pieces of `pieces`, blank ones left out.
pub open spec fn admin_list_of(pieces: Seq<Seq<char>>) -> Seq<Seq<char>>
    decreases pieces.len(),
{
    if pieces.len() == 0 {
        Seq::empty()
    } else {
        let init = admin_list_of(pieces.drop_last());
        if trim_spec(pieces.last()).len() > 0 {
            init.push(normalized_email(pieces.last()))
        } else {
            init
        }
    }
}

/// The admin emails of a comma-separated list (none when no list is set).
pub open spec fn admin_email_list(configured: Option<Seq<char>>) -> Seq<Seq<char>> {
    admin_list_of(
        split_commas_spec(
            match configured {
                Some(s) => s,
                None => Seq::empty(),
            },
        ),
    )
}

/// The admin emails named by the build-time comma-separated list: each piece
/// trimmed and lower-cased, empty ones dropped.
pub fn admin_emails(configured: Option<&str>) -> (r: Vec<String>)
    ensures
        r.deep_view() == admin_email_list(configured.deep_view()),
{
    let raw = configured.unwrap_or("");
    proof {
        reveal_strlit("");
        assert(raw@ =~= match configured.deep_view() {
            Some(s) => s,
            None => Seq::empty(),
        });
    }
    let pieces = split_commas(raw);
    let mut out: Vec<String> = Vec::new();
    let n = pieces.len();
    let mut i: usize = 0;
    assert(pieces.deep_view().take(0) =~= Seq::<Seq<char>>::empty());
    while i < n
        invariant
            n == pieces.deep_view().len(),
            i <= n,
            out.deep_view() == admin_list_of(pieces.deep_view().take(i as int)),
        decreases n - i,
    {
        let e = to_lowercase(trim(pieces[i].as_str()));
        proof {
            assert(pieces.deep_view().take(i + 1).drop_last() =~= pieces.deep_view().take(
                i as int,
            ));
            assert(pieces.deep_view().take(i + 1).last() == pieces[i as int]@);
        }
        if !e.as_str().is_empty() {
            let ghost before = out.deep_view();
            out.push(e);
            assert(out.deep_view() =~= before.push(normalized_email(pieces[i as int]@)));
        }
        i = i + 1;
    }
    assert(pieces.deep_view().take(n as int) =~= pieces.deep_view());
    out
}

/// Whether `x` occurs in `list`.
fn contains_text(list: &Vec<String>, x: &String) -> (r: bool)
    ensures
        r == list.deep_view().contains(x@),
{
    let n = list.len();
    let mut i: usize = 0;
    while i < n
        invariant
            n == list.deep_view().len(),
            i <= n,
            forall|j: int| 0 <= j < i ==> list.deep_view()[j] != x@,
        decreases n - i,
    {
        if list[i] == *x {
            assert(list.deep_view()[i as int] == x@);
            return true;
        }
        i = i + 1;
    }
    false
}

/// The build-time admin settings.
pub struct AdminConfig {
    /// The master key; its bearer is granted the AdminFree tier.
    pub master_key: Option<String>,
    /// Comma-separated admin emails.
    pub admin_emails: Option<String>,
}

/// The key is the configured master key, which is not empty.
pub open spec fn is_admin_key(master_key: Option<Seq<char>>, key: Seq<char>) -> bool {
    match master_key {
        Some(k) => k.len() > 0 && key == k,
        None => false,
    }
}

/// Activation bypasses the backend: admin key or admin email.
pub open spec fn is_admin_activation(admin: AdminConfig, email: Seq<char>, key: Seq<char>) -> bool {
    is_admin_key(admin.master_key.deep_view(), key) || admin_email_list(
        admin.admin_emails.deep_view(),
    ).contains(email)
}

/// The refusal text for an activation with an empty email.
pub open spec fn email_required() -> Seq<char> {
    "Email is required"@
}

/// The refusal text for an activation with an empty key.
pub open spec fn license_key_required() -> Seq<char> {
    "License key is required"@
}

/// The refusal text for a checkout with an empty phone number.
pub open spec fn phone_required() -> Seq<char> {
    "Phone number is required"@
}

/// What is sent to the backend to verify a license key.
pub struct VerifyRequest {
    pub key: String,
    pub email: String,
    pub device_id: String,
}

/// The backend's answer to a verification request.
pub struct VerifyReply {
    pub valid: bool,
    pub tier: Option<String>,
    pub expires_at: Option<String>,
    pub reason: Option<String>,
}

/// The first step of an activation: finished locally, or waiting for the
/// backend to verify the key.
pub enum ActivationStep {
    Activated(SubscriptionStatus),
    Verify(VerifyRequest),
}

/// The state once an admin activation has been recorded.
pub open spec fn admin_activated(s: StateView, email: Seq<char>, key: Seq<char>) -> StateView {
    StateView {
        email: Some(email),
        license_key: Some(key),
        tier: SubscriptionTier::AdminFree,
        expires_at: None,
        ..s
    }
}

/// The trimmed, then lower-cased email, and refuses an empty one.
fn normalize_email(email: &str) -> (r: Result<String, String>)
    ensures
        match r {
            Ok(e) => e@ == normalized_email(email@) && trim_spec(email@).len() > 0,
            Err(m) => trim_spec(email@).len() == 0 && m@ == email_required(),
        },
{
    let e = to_lowercase(trim(email));
    if e.as_str().is_empty() {
        return Err(String::from_str("Email is required"));
    }
    Ok(e)
}

/// Starts activating a license key: refuses an empty email or key, gives the
/// device an identifier, and either grants the AdminFree tier on an admin
/// path or asks for the key to be verified by the backend. The tier is never
/// raised on the user's word alone.
pub fn start_license_activation(
    state: &mut SubscriptionState,
    now: &Now,
    host: &HostNames,
    admin: &AdminConfig,
    email: &str,
    license_key: &str,
) -> (r: Result<ActivationStep, String>)
    ensures
        match r {
            Err(m) => final(state)@ == old(state)@ && (if trim_spec(email@).len() == 0 {
                m@ == email_required()
            } else {
                trim_spec(license_key@).len() == 0 && m@ == license_key_required()
            }),
            Ok(ActivationStep::Activated(st)) => {
                &&& trim_spec(email@).len() > 0
                &&& trim_spec(license_key@).len() > 0
                &&& is_admin_activation(*admin, normalized_email(email@), trim_spec(license_key@))
                &&& final(state)@ == admin_activated(
                    with_device_id(old(state)@, *host),
                    normalized_email(email@),
                    trim_spec(license_key@),
                )
                &&& is_status_of(st, final(state)@, now@.instant)
            },
            Ok(ActivationStep::Verify(req)) => {
                &&& trim_spec(email@).len() > 0
                &&& trim_spec(license_key@).len() > 0
                &&& !is_admin_activation(*admin, normalized_email(email@), trim_spec(license_key@))
                &&& final(state)@ == with_device_id(old(state)@, *host)
                &&& req.email@ == normalized_email(email@)
                &&& req.key@ == trim_spec(license_key@)
                &&& final(state)@.device_id == Some(req.device_id@)
            },
        },
{
    let email_norm = match normalize_email(email) {
        Ok(e) => e,
        Err(m) => return Err(m),
    };
    let key_norm = String::from_str(trim(license_key));
    if key_norm.as_str().is_empty() {
        return Err(String::from_str("License key is required"));
    }
    ensure_device_id(state, host);
    let device_id = match &state.device_id {
        Some(d) => d.clone(),
        None => String::new(),
    };
    let is_admin_key = match &admin.master_key {
        Some(k) => !k.as_str().is_empty() && key_norm == *k,
        None => false,
    };
    let list = match &admin.admin_emails {
        Some(raw) => admin_emails(Some(raw.as_str())),
        None => admin_emails(None),
    };
    let is_admin_email = contains_text(&list, &email_norm);
    if is_admin_key || is_admin_email {
        state.email = Some(email_norm);
        state.license_key = Some(key_norm);
        state.tier = SubscriptionTier::AdminFree;
        state.expires_at = None;
        return Ok(ActivationStep::Activated(to_status(state, now)));
    }
    Ok(ActivationStep::Verify(VerifyRequest { key: key_norm, email: email_norm, device_id }))
}

/// The tier name with which the backend grants the AdminFree tier.
pub open spec fn admin_free_tier_name() -> Seq<char> {
    "admin_free"@
}

/// The refusal text for a key the backend rejected.
pub open spec fn rejection_message(reason: Option<Seq<char>>) -> Seq<char> {
    "License key rejected: "@ + match reason {
        Some(r) => r,
        None => "invalid key"@,
    }
}

/// The state once the backend has accepted the key: AdminFree without expiry
/// when the backend says so, else Premium until the backend's expiry, or
/// until a year from now when it names none.
pub open spec fn verified_activation(
    s: StateView,
    email: Seq<char>,
    key: Seq<char>,
    reply_tier: Option<Seq<char>>,
    reply_expires_at: Option<Seq<char>>,
    fallback_expiry: Option<Seq<char>>,
) -> StateView {
    if reply_tier == Some(admin_free_tier_name()) {
        StateView {
            email: Some(email),
            license_key: Some(key),
            tier: SubscriptionTier::AdminFree,
            expires_at: None,
            ..s
        }
    } else {
        StateView {
            email: Some(email),
            license_key: Some(key),
            tier: SubscriptionTier::Premium,
            expires_at: match reply_expires_at {
                Some(e) => Some(e),
                None => fallback_expiry,
            },
            ..s
        }
    }
}

/// A premium activation without an expiry from the backend needs one
/// computed from now.
pub open spec fn needs_fallback_expiry(reply: VerifyReply) -> bool {
    reply.valid && reply.tier.deep_view() != Some(admin_free_tier_name())
        && reply.expires_at is None
}

/// Whether the backend's verdict leaves the expiry to be computed from now.
pub fn requires_default_expiry(reply: &VerifyReply) -> (r: bool)
    ensures
        r == needs_fallback_expiry(*reply),
{
    let admin_free = String::from_str("admin_free");
    let is_admin_free = match &reply.tier {
        Some(t) => *t == admin_free,
        None => false,
    };
    reply.valid && !is_admin_free && reply.expires_at.is_none()
}

/// Finishes an activation with the backend's verdict on the key: a rejected
/// key changes nothing and is reported with the backend's reason; an accepted
/// one is recorded with the tier and expiry the backend gives.
pub fn complete_license_activation(
    state: &mut SubscriptionState,
    now: &Now,
    request: &VerifyRequest,
    reply: &VerifyReply,
) -> (r: Result<SubscriptionStatus, String>)
    requires
        needs_fallback_expiry(*reply) ==> now@.license_expiry is Some,
    ensures
        match r {
            Ok(st) => {
                &&& reply.valid
                &&& final(state)@ == verified_activation(
                    old(state)@,
                    request.email@,
                    request.key@,
                    reply.tier.deep_view(),
                    reply.expires_at.deep_view(),
                    now@.license_expiry,
                )
                &&& is_status_of(st, final(state)@, now@.instant)
            },
            Err(m) => {
                &&& !reply.valid
                &&& final(state)@ == old(state)@
                &&& m@ == rejection_message(reply.reason.deep_view())
            },
        },
{
    if !reply.valid {
        let mut m = String::from_str("License key rejected: ");
        match &reply.reason {
            Some(reason) => m.append(reason.as_str()),
            None => m.append("invalid key"),
        }
        return Err(m);
    }
    state.email = Some(request.email.clone());
    state.license_key = Some(request.key.clone());
    let admin_free = String::from_str("admin_free");
    let is_admin_free = match &reply.tier {
        Some(t) => *t == admin_free,
        None => false,
    };
    if is_admin_free {
        state.tier = SubscriptionTier::AdminFree;
        state.expires_at = None;
    } else {
        state.tier = SubscriptionTier::Premium;
        state.expires_at = match &reply.expires_at {
            Some(e) => Some(e.clone()),
            None => match now.license_expiry() {
                Some(e) => Some(String::from_str(e)),
                None => None,
            },
        };
    }
    Ok(to_status(state, now))
}

/// What is sent to the backend to open a checkout.
pub struct CheckoutRequest {
    pub email: String,
    pub phone: String,
    pub device_id: String,
    pub provider: &'static str,
    pub plan: &'static str,
    pub amount_xof: u64,
    pub currency: &'static str,
}

/// Prepares a Money Fusion checkout: refuses an empty email or phone number,
/// and gives the device an identifier. The state must then be written back.
pub fn prepare_checkout(state: &mut SubscriptionState, host: &HostNames, email: &str, phone: &str) -> (r:
    Result<CheckoutRequest, String>)
    ensures
        match r {
            Ok(req) => {
                &&& trim_spec(email@).len() > 0
                &&& trim_spec(phone@).len() > 0
                &&& final(state)@ == with_device_id(old(state)@, *host)
                &&& req.email@ == normalized_email(email@)
                &&& req.phone@ == trim_spec(phone@)
                &&& final(state)@.device_id == Some(req.device_id@)
                &&& req.provider@ == PAYMENT_PROVIDER@
                &&& req.plan@ == SUBSCRIPTION_PLAN@
                &&& req.amount_xof == SUBSCRIPTION_PRICE_XOF
                &&& req.currency@ == SUBSCRIPTION_CURRENCY@
            },
            Err(m) => final(state)@ == old(state)@ && (if trim_spec(email@).len() == 0 {
                m@ == email_required()
            } else {
                trim_spec(phone@).len() == 0 && m@ == phone_required()
            }),
        },
{
    let email_norm = match normalize_email(email) {
        Ok(e) => e,
        Err(m) => return Err(m),
    };
    let phone_norm = String::from_str(trim(phone));
    if phone_norm.as_str().is_empty() {
        return Err(String::from_str("Phone number is required"));
    }
    ensure_device_id(state, host);
    let device_id = match &state.device_id {
        Some(d) => d.clone(),
        None => String::new(),
    };
    Ok(
        CheckoutRequest {
            email: email_norm,
            phone: phone_norm,
            device_id,
            provider: PAYMENT_PROVIDER,
            plan: SUBSCRIPTION_PLAN,
            amount_xof: SUBSCRIPTION_PRICE_XOF,
            currency: SUBSCRIPTION_CURRENCY,
        },
    )
}

/// Handed to the user interface once a checkout is open, so that it can show
/// the provider's payment page.
#[derive(Clone, Debug)]
pub struct PaymentSession {
    pub session_id: String,
    pub checkout_url: String,
    pub amount_xof: u64,
    pub currency: &'static str,
    pub provider: &'static str,
}

/// The payment session for the checkout the backend opened.
pub fn payment_session(session_id: String, checkout_url: String) -> (r: PaymentSession)
    ensures
        r.session_id@ == session_id@,
        r.checkout_url@ == checkout_url@,
        r.amount_xof == SUBSCRIPTION_PRICE_XOF,
        r.currency@ == SUBSCRIPTION_CURRENCY@,
        r.provider@ == PAYMENT_PROVIDER@,
{
    PaymentSession {
        session_id,
        checkout_url,
        amount_xof: SUBSCRIPTION_PRICE_XOF,
        currency: SUBSCRIPTION_CURRENCY,
        provider: PAYMENT_PROVIDER,
    }
}

/// A character allowed in a session identifier: ASCII letter or digit,
/// underscore or hyphen.
pub open spec fn session_id_char(c: char) -> bool {
    ||| ('0' <= c && c <= '9')
    ||| ('a' <= c && c <= 'z')
    ||| ('A' <= c && c <= 'Z')
    ||| c == '_'
    ||| c == '-'
}

/// A session identifier that may be put into a request path.
pub open spec fn valid_session_id(s: Seq<char>) -> bool {
    s.len() > 0 && forall|i: int| 0 <= i < s.len() ==> session_id_char(#[trigger] s[i])
}

/// Session identifiers are nanoid-style tokens; anything else is refused so
/// that the value cannot rewrite the request path.
pub fn is_valid_session_id(session_id: &str) -> (r: bool)
    ensures
        r == valid_session_id(session_id@),
{
    let n = session_id.unicode_len();
    if n == 0 {
        return false;
    }
    let mut i: usize = 0;
    while i < n
        invariant
            n == session_id@.len(),
            i <= n,
            forall|j: int| 0 <= j < i ==> session_id_char(#[trigger] session_id@[j]),
        decreases n - i,
    {
        let c = session_id.get_char(i);
        let ok = ('0' <= c && c <= '9') || ('a' <= c && c <= 'z') || ('A' <= c && c <= 'Z') || c
            == '_' || c == '-';
        if !ok {
            return false;
        }
        i = i + 1;
    }
    true
}

/// The base address of the licensing backend: the configured one, or the
/// default, without trailing slashes.
pub fn backend_base_url(configured: Option<&str>) -> (r: String)
    ensures
        r@ == trim_trailing_slashes_spec(
            match configured {
                Some(c) => c@,
                None => DEFAULT_BACKEND_URL@,
            },
        ),
{
    trim_trailing_slashes(configured.unwrap_or(DEFAULT_BACKEND_URL))
}

/// The endpoint that verifies license keys.
pub fn license_verify_url(base: &str) -> (r: String)
    ensures
        r@ == base@ + "/api/license/verify"@,
{
    let mut r = String::from_str(base);
    r.append("/api/license/verify");
    r
}

/// The endpoint that opens checkouts.
pub fn checkout_url(base: &str) -> (r: String)
    ensures
        r@ == base@ + "/api/checkout"@,
{
    let mut r = String::from_str(base);
    r.append("/api/checkout");
    r
}

/// The device identifier sent to the backend: the stored one, or empty.
pub open spec fn device_id_or_empty(s: StateView) -> Seq<char> {
    match s.device_id {
        Some(d) => d,
        None => Seq::empty(),
    }
}

/// The endpoint that reports the status of a checkout session.
pub fn payment_status_url(base: &str, session_id: &str, state: &SubscriptionState) -> (r: String)
    ensures
        r@ == base@ + "/api/checkout/"@ + session_id@ + "?device_id="@ + device_id_or_empty(
            state@,
        ),
{
    let mut r = String::from_str(base);
    r.append("/api/checkout/");
    r.append(session_id);
    r.append("?device_id=");
    match &state.device_id {
        Some(d) => r.append(d.as_str()),
        None => {},
    }
    proof {
        reveal_strlit("");
    }
    r
}

/// The backend's report on a checkout session.
pub struct PaymentStatusReply {
    pub status: String,
    pub email: Option<String>,
    pub license_key: Option<String>,
}

/// The refusal text while a payment is not complete.
pub open spec fn payment_pending_message(status: Seq<char>) -> Seq<char> {
    "Payment not completed yet (status: "@ + status + ")"@
}

/// Reads a checkout report: a paid session yields the email and license key
/// to activate; anything else is refused.
pub fn interpret_payment_status(reply: &PaymentStatusReply) -> (r: Result<(String, String), String>)
    ensures
        match r {
            Ok((email, key)) => {
                &&& reply.status@ == "paid"@
                &&& reply.email.deep_view() == Some(email@)
                &&& reply.license_key.deep_view() == Some(key@)
            },
            Err(m) => if reply.status@ != "paid"@ {
                m@ == payment_pending_message(reply.status@)
            } else if reply.email is None {
                m@ == "Backend omitted email"@
            } else {
                reply.license_key is None && m@ == "Backend omitted license_key"@
            },
        },
{
    let paid = String::from_str("paid");
    if !(reply.status == paid) {
        let mut m = String::from_str("Payment not completed yet (status: ");
        m.append(reply.status.as_str());
        m.append(")");
        return Err(m);
    }
    let email = match &reply.email {
        Some(e) => e.clone(),
        None => return Err(String::from_str("Backend omitted email")),
    };
    let key = match &reply.license_key {
        Some(k) => k.clone(),
        None => return Err(String::from_str("Backend omitted license_key")),
    };
    Ok((email, key))
}

} // verus!
