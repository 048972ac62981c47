//! Subscription state, tiers, the monthly free quota and the status shown to
//! the user.
//!
//! Free tier: 5 000 characters per calendar month. Premium tier: unlimited,
//! 10 000 XOF per year. AdminFree tier: unlimited and never expires.

use crate::clock::{before, is_before, parse_rfc3339, parsed_rfc3339, Now, NowView, Timestamp};
use crate::text::{decimal, decimal_spec};
use vstd::prelude::*;

verus! {

/// File that holds the subscription state, apart from the app settings.
pub const SUBSCRIPTION_STORE_PATH: &'static str = "subscription_store.json";

/// Characters a free user may transcribe per calendar month.
pub const FREE_TIER_MONTHLY_CHAR_LIMIT: u64 = 5_000;

/// Price of a yearly subscription.
pub const SUBSCRIPTION_PRICE_XOF: u64 = 10_000;

/// Currency of the price.
pub const SUBSCRIPTION_CURRENCY: &'static str = "XOF";

#[derive(Clone, Copy, Debug, PartialEq, Eq, Structural)]
pub enum SubscriptionTier {
    Free,
    Premium,
    AdminFree,
}

impl Default for SubscriptionTier {
    fn default() -> (r: Self)
        ensures
            r == SubscriptionTier::Free,
    {
        SubscriptionTier::Free
    }
}

/// The stored subscription state.
#[derive(Clone, Debug)]
pub struct SubscriptionState {
    pub tier: SubscriptionTier,
    pub email: Option<String>,
    pub license_key: Option<String>,
    /// RFC 3339 instant (UTC) at which a premium license expires.
    pub expires_at: Option<String>,
    /// Characters transcribed in the current quota window.
    pub monthly_chars_used: u64,
    /// RFC 3339 instant at which the current quota window started.
    pub quota_window_started_at: Option<String>,
    /// Stable device identifier the license is bound to.
    pub device_id: Option<String>,
}

/// The state with each text taken as its characters.
pub struct StateView {
    pub tier: SubscriptionTier,
    pub email: Option<Seq<char>>,
    pub license_key: Option<Seq<char>>,
    pub expires_at: Option<Seq<char>>,
    pub monthly_chars_used: u64,
    pub quota_window_started_at: Option<Seq<char>>,
    pub device_id: Option<Seq<char>>,
}

impl View for SubscriptionState {
    type V = StateView;

    open spec fn view(&self) -> StateView {
        StateView {
            tier: self.tier,
            email: self.email.deep_view(),
            license_key: self.license_key.deep_view(),
            expires_at: self.expires_at.deep_view(),
            monthly_chars_used: self.monthly_chars_used,
            quota_window_started_at: self.quota_window_started_at.deep_view(),
            device_id: self.device_id.deep_view(),
        }
    }
}

impl Default for SubscriptionState {
    fn default() -> (r: Self)
        ensures
            r@ == (StateView {
                tier: SubscriptionTier::Free,
                email: None,
                license_key: None,
                expires_at: None,
                monthly_chars_used: 0,
                quota_window_started_at: None,
                device_id: None,
            }),
    {
        SubscriptionState {
            tier: SubscriptionTier::Free,
            email: None,
            license_key: None,
            expires_at: None,
            monthly_chars_used: 0,
            quota_window_started_at: None,
            device_id: None,
        }
    }
}

/// Snapshot handed to the user interface for the paywall and quota bar.
#[derive(Clone, Debug)]
pub struct SubscriptionStatus {
    pub tier: SubscriptionTier,
    pub email: Option<String>,
    pub expires_at: Option<String>,
    pub monthly_chars_used: u64,
    pub monthly_char_limit: u64,
    pub remaining_chars: u64,
    pub is_unlimited: bool,
    pub quota_window_started_at: Option<String>,
    pub price_xof: u64,
    pub price_currency: &'static str,
}

/// A copy of an optional text.
pub fn clone_text(o: &Option<String>) -> (r: Option<String>)
    ensures
        r.deep_view() == o.deep_view(),
{
    match o {
        Some(s) => Some(s.clone()),
        None => None,
    }
}

/// The quota window must start anew: none was recorded, the recorded start
/// cannot be read, or it lies in another calendar month than now.
pub open spec fn needs_reset(window: Option<Seq<char>>, year: i32, month: u32) -> bool {
    match window {
        None => true,
        Some(w) => match parsed_rfc3339(w) {
            Some(p) => p.year != year || p.month != month,
            None => true,
        },
    }
}

/// The state once the quota window has been brought up to date.
pub open spec fn after_reset(s: StateView, now: NowView) -> StateView {
    if needs_reset(s.quota_window_started_at, now.year, now.month) {
        StateView { monthly_chars_used: 0, quota_window_started_at: Some(now.rfc3339), ..s }
    } else {
        s
    }
}

/// Rolls the monthly quota window over when now lies in another calendar
/// month than the window's start; returns whether it did.
pub fn maybe_reset_quota(state: &mut SubscriptionState, now: &Now) -> (reset: bool)
    ensures
        reset == needs_reset(old(state)@.quota_window_started_at, now@.year, now@.month),
        final(state)@ == after_reset(old(state)@, now@),
{
    let needs = match &state.quota_window_started_at {
        None => true,
        Some(iso) => match parse_rfc3339(iso.as_str()) {
            Some(p) => p.year != now.year() || p.month != now.month(),
            None => true,
        },
    };
    if needs {
        state.monthly_chars_used = 0;
        state.quota_window_started_at = Some(String::from_str(now.rfc3339()));
        true
    } else {
        false
    }
}

/// A premium license has run out: its expiry lies before now, or cannot be
/// read. Without an expiry nothing runs out.
pub open spec fn expired(expires_at: Option<Seq<char>>, now: Timestamp) -> bool {
    match expires_at {
        None => false,
        Some(e) => match parsed_rfc3339(e) {
            Some(p) => before(p.instant, now),
            None => true,
        },
    }
}

/// Whether the recorded expiry has passed at `now`.
pub fn is_expired(state: &SubscriptionState, now: &Now) -> (r: bool)
    ensures
        r == expired(state@.expires_at, now@.instant),
{
    match &state.expires_at {
        None => false,
        Some(iso) => match parse_rfc3339(iso.as_str()) {
            Some(p) => is_before(p.instant, now.instant()),
            None => true,
        },
    }
}

/// The tier in force: an expired premium license counts as free.
pub open spec fn tier_in_force(s: StateView, now: Timestamp) -> SubscriptionTier {
    match s.tier {
        SubscriptionTier::AdminFree => SubscriptionTier::AdminFree,
        SubscriptionTier::Premium => if expired(s.expires_at, now) {
            SubscriptionTier::Free
        } else {
            SubscriptionTier::Premium
        },
        SubscriptionTier::Free => SubscriptionTier::Free,
    }
}

/// The tiers without a character quota.
pub open spec fn unlimited(t: SubscriptionTier) -> bool {
    t == SubscriptionTier::Premium || t == SubscriptionTier::AdminFree
}

/// The tier in force at `now`.
pub fn effective_tier(state: &SubscriptionState, now: &Now) -> (t: SubscriptionTier)
    ensures
        t == tier_in_force(state@, now@.instant),
{
    match state.tier {
        SubscriptionTier::AdminFree => SubscriptionTier::AdminFree,
        SubscriptionTier::Premium => if !is_expired(state, now) {
            SubscriptionTier::Premium
        } else {
            SubscriptionTier::Free
        },
        SubscriptionTier::Free => SubscriptionTier::Free,
    }
}

/// Characters left this month: all of them on an unlimited tier, else the
/// limit less what was used, and never below zero.
pub open spec fn remaining(used: u64, is_unlimited: bool) -> u64 {
    if is_unlimited {
        u64::MAX
    } else if used <= FREE_TIER_MONTHLY_CHAR_LIMIT {
        (FREE_TIER_MONTHLY_CHAR_LIMIT - used) as u64
    } else {
        0
    }
}

/// `st` is the status of the state `s` at instant `now`.
pub open spec fn is_status_of(st: SubscriptionStatus, s: StateView, now: Timestamp) -> bool {
    let tier = tier_in_force(s, now);
    &&& st.tier == tier
    &&& st.email.deep_view() == s.email
    &&& st.expires_at.deep_view() == s.expires_at
    &&& st.monthly_chars_used == s.monthly_chars_used
    &&& st.monthly_char_limit == FREE_TIER_MONTHLY_CHAR_LIMIT
    &&& st.remaining_chars == remaining(s.monthly_chars_used, unlimited(tier))
    &&& st.is_unlimited == unlimited(tier)
    &&& st.quota_window_started_at.deep_view() == s.quota_window_started_at
    &&& st.price_xof == SUBSCRIPTION_PRICE_XOF
    &&& st.price_currency@ == SUBSCRIPTION_CURRENCY@
}

/// The status of `state` at `now`.
pub fn to_status(state: &SubscriptionState, now: &Now) -> (st: SubscriptionStatus)
    ensures
        is_status_of(st, state@, now@.instant),
{
    let tier = effective_tier(state, now);
    let is_unlimited = match tier {
        SubscriptionTier::Premium | SubscriptionTier::AdminFree => true,
        SubscriptionTier::Free => false,
    };
    let remaining = if is_unlimited {
        u64::MAX
    } else {
        FREE_TIER_MONTHLY_CHAR_LIMIT.saturating_sub(state.monthly_chars_used)
    };
    SubscriptionStatus {
        tier,
        email: clone_text(&state.email),
        expires_at: clone_text(&state.expires_at),
        monthly_chars_used: state.monthly_chars_used,
        monthly_char_limit: FREE_TIER_MONTHLY_CHAR_LIMIT,
        remaining_chars: remaining,
        is_unlimited,
        quota_window_started_at: clone_text(&state.quota_window_started_at),
        price_xof: SUBSCRIPTION_PRICE_XOF,
        price_currency: SUBSCRIPTION_CURRENCY,
    }
}


/// The text of the refusal when the free quota would be exceeded.
pub open spec fn quota_exceeded_message(used: u64) -> Seq<char> {
    "Free quota exceeded ("@ + decimal_spec(used as nat) + " / "@ + decimal_spec(
        FREE_TIER_MONTHLY_CHAR_LIMIT as nat,
    ) + " chars this month). Please subscribe to continue."@
}

/// The characters are let through: the tier in force is unlimited, or the
/// month's usage plus them stays within the free limit.
pub open spec fn consume_accepted(s: StateView, now: NowView, count: u64) -> bool {
    let r = after_reset(s, now);
    unlimited(tier_in_force(r, now.instant)) || r.monthly_chars_used + count
        <= FREE_TIER_MONTHLY_CHAR_LIMIT
}

/// The state after a request to use `count` characters: on the free tier an
/// accepted request adds them to the month's usage; nothing else changes
/// but the roll-over of the quota window.
pub open spec fn after_consume(s: StateView, now: NowView, count: u64) -> StateView {
    let r = after_reset(s, now);
    if !unlimited(tier_in_force(r, now.instant)) && consume_accepted(s, now, count) {
        StateView { monthly_chars_used: (r.monthly_chars_used + count) as u64, ..r }
    } else {
        r
    }
}

/// The answer to a request to use characters, and whether the state changed
/// in a way that must be written back.
pub struct UsageOutcome {
    pub result: Result<SubscriptionStatus, String>,
    pub save: bool,
}

/// The refusal text for a month's usage of `used` characters.
fn quota_exceeded_text(used: u64) -> (r: String)
    ensures
        r@ == quota_exceeded_message(used),
{
    let mut r = String::from_str("Free quota exceeded (");
    let u = decimal(used);
    r.append(u.as_str());
    r.append(" / ");
    let l = decimal(FREE_TIER_MONTHLY_CHAR_LIMIT);
    r.append(l.as_str());
    r.append(" chars this month). Please subscribe to continue.");
    r
}

/// Called before transcribed text is pasted: accounts for `char_count`
/// characters, or refuses them when the free quota would be exceeded. On a
/// refusal the caller must not paste, and shows the paywall instead.
pub fn try_consume_chars(state: &mut SubscriptionState, now: &Now, char_count: u64) -> (r:
    UsageOutcome)
    ensures
        final(state)@ == after_consume(old(state)@, now@, char_count),
        r.save == (needs_reset(old(state)@.quota_window_started_at, now@.year, now@.month) || (
        consume_accepted(old(state)@, now@, char_count) && !unlimited(
            tier_in_force(after_reset(old(state)@, now@), now@.instant),
        ))),
        match r.result {
            Ok(st) => consume_accepted(old(state)@, now@, char_count) && is_status_of(
                st,
                final(state)@,
                now@.instant,
            ),
            Err(e) => !consume_accepted(old(state)@, now@, char_count) && e@
                == quota_exceeded_message(after_reset(old(state)@, now@).monthly_chars_used),
        },
{
    let reset = maybe_reset_quota(state, now);
    let tier = effective_tier(state, now);
    match tier {
        SubscriptionTier::Premium | SubscriptionTier::AdminFree => {
            return UsageOutcome { result: Ok(to_status(state, now)), save: reset };
        },
        SubscriptionTier::Free => {},
    }
    let projected = state.monthly_chars_used.saturating_add(char_count);
    if projected > FREE_TIER_MONTHLY_CHAR_LIMIT {
        return UsageOutcome {
            result: Err(quota_exceeded_text(state.monthly_chars_used)),
            save: reset,
        };
    }
    state.monthly_chars_used = projected;
    UsageOutcome { result: Ok(to_status(state, now)), save: true }
}

/// Leaves the subscription and returns to the free tier, keeping the month's
/// usage so that signing out does not reset the quota.
pub fn deactivate_license(state: &mut SubscriptionState, now: &Now) -> (st: SubscriptionStatus)
    ensures
        final(state)@ == (StateView {
            tier: SubscriptionTier::Free,
            license_key: None,
            expires_at: None,
            ..old(state)@
        }),
        is_status_of(st, final(state)@, now@.instant),
{
    state.tier = SubscriptionTier::Free;
    state.license_key = None;
    state.expires_at = None;
    to_status(state, now)
}

} // verus!
