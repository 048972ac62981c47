//! The device identifier a license is bound to.

use crate::clock::Now;
use crate::subscription::{
    after_reset, is_status_of, maybe_reset_quota, needs_reset, to_status, StateView,
    SubscriptionState, SubscriptionStatus,
};
use crate::text::{hex_lower, hex_lower_spec};
use sha2::{Digest, Sha256};
use vstd::prelude::*;

verus! {

/// The environment values a device identifier is made from: those of
/// `HOSTNAME`, `COMPUTERNAME`, `USER` and `USERNAME`, where set and valid
/// Unicode.
pub struct HostNames {
    pub hostname: Option<String>,
    pub computername: Option<String>,
    pub user: Option<String>,
    pub username: Option<String>,
}

/// The SHA-256 digest of `data`.
pub uninterp spec fn sha256_of(data: Seq<u8>) -> Seq<u8>;

/// Calls `Sha256::digest` (sha2 crate). The digest is named, not described;
/// the one fact stated is its documented length of 32 bytes.
#[verifier::external_body]
pub(crate) fn sha256(data: &[u8]) -> (r: Vec<u8>)
    ensures
        r@ == sha256_of(data@),
        r@.len() == 32,
{
    Sha256::digest(data).to_vec()
}

/// The first value that is set, or "unknown".
pub open spec fn first_set(a: Option<Seq<char>>, b: Option<Seq<char>>) -> Seq<char> {
    match a {
        Some(x) => x,
        None => match b {
            Some(y) => y,
            None => "unknown"@,
        },
    }
}

/// The text hashed into the device identifier: "vocrit-ai:<host>:<user>".
pub open spec fn device_seed(h: HostNames) -> Seq<char> {
    "vocrit-ai:"@ + first_set(h.hostname.deep_view(), h.computername.deep_view()) + ":"@
        + first_set(h.user.deep_view(), h.username.deep_view())
}

/// The device identifier: the SHA-256 digest of the UTF-8 seed, in
/// lower-case hexadecimal.
pub open spec fn device_id_for(h: HostNames) -> Seq<char> {
    hex_lower_spec(sha256_of(vstd::utf8::encode_utf8(device_seed(h))))
}

/// The first value that is set, or "unknown".
fn first_set_text(a: &Option<String>, b: &Option<String>) -> (r: String)
    ensures
        r@ == first_set(a.deep_view(), b.deep_view()),
{
    match a {
        Some(x) => x.clone(),
        None => match b {
            Some(y) => y.clone(),
            None => String::from_str("unknown"),
        },
    }
}

/// Derives the stable device identifier from the host and user names.
pub fn generate_device_id(host: &HostNames) -> (r: String)
    ensures
        r@ == device_id_for(*host),
        r@.len() == 64,
{
    let mut seed = String::from_str("vocrit-ai:");
    let h = first_set_text(&host.hostname, &host.computername);
    seed.append(h.as_str());
    seed.append(":");
    let u = first_set_text(&host.user, &host.username);
    seed.append(u.as_str());
    let digest = sha256(seed.as_str().as_bytes());
    hex_lower(digest.as_slice())
}

/// The state with a device identifier: the one it has, else a fresh one.
pub open spec fn with_device_id(s: StateView, h: HostNames) -> StateView {
    if s.device_id is Some {
        s
    } else {
        StateView { device_id: Some(device_id_for(h)), ..s }
    }
}

/// Gives the state a device identifier when it has none; an identifier once
/// set is never replaced.
pub fn ensure_device_id(state: &mut SubscriptionState, host: &HostNames)
    ensures
        final(state)@ == with_device_id(old(state)@, *host),
{
    if state.device_id.is_none() {
        state.device_id = Some(generate_device_id(host));
    }
}

/// The status, and whether the state changed and must be written back.
pub struct StatusRefresh {
    pub status: SubscriptionStatus,
    pub save: bool,
}

/// Brings the quota window up to date, gives the device an identifier if it
/// has none, and returns the status.
pub fn get_subscription_status(state: &mut SubscriptionState, now: &Now, host: &HostNames) -> (r:
    StatusRefresh)
    ensures
        final(state)@ == with_device_id(after_reset(old(state)@, now@), *host),
        r.save == (needs_reset(old(state)@.quota_window_started_at, now@.year, now@.month) || old(
            state,
        )@.device_id is None),
        is_status_of(r.status, final(state)@, now@.instant),
{
    let mut dirty = maybe_reset_quota(state, now);
    if state.device_id.is_none() {
        ensure_device_id(state, host);
        dirty = true;
    }
    StatusRefresh { status: to_status(state, now), save: dirty }
}

} // verus!
