//! Properties that hold across the operations of the library.

use crate::clock::{
    parsed_rfc3339, before, clock_wf, license_end, plain_four_digit_year_instant, NowView, Timestamp,
    SECS_PER_DAY, SUBSCRIPTION_DURATION_DAYS,
};
use crate::device::{with_device_id, HostNames};
use crate::license::{
    admin_activated, admin_email_list, admin_free_tier_name, admin_list_of, is_admin_activation,
    normalized_email, valid_session_id, verified_activation, AdminConfig,
};
use crate::text::split_commas_spec;
use crate::shortcut::action_for;
use crate::shortcut::ShortcutAction;
use crate::subscription::{
    is_status_of, SubscriptionStatus, needs_reset, after_consume, after_reset, consume_accepted, expired, remaining, tier_in_force, unlimited,
    StateView, SubscriptionTier, FREE_TIER_MONTHLY_CHAR_LIMIT,
};
use vstd::prelude::*;

verus! {

/// No request to use characters ever raises the month's usage above the
/// free limit: the usage after the request is either within the limit or
/// what it was once the quota window was brought up to date.
pub proof fn lemma_consume_never_exceeds_quota(s: StateView, now: NowView, count: u64)
    ensures
        after_consume(s, now, count).monthly_chars_used <= FREE_TIER_MONTHLY_CHAR_LIMIT
            || after_consume(s, now, count).monthly_chars_used == after_reset(
            s,
            now,
        ).monthly_chars_used,
{
}

/// On the free tier, an accepted request adds exactly the requested count to
/// the month's usage and takes exactly as much off the characters remaining.
pub proof fn lemma_accepted_request_is_counted(s: StateView, now: NowView, count: u64)
    requires
        !unlimited(tier_in_force(s, now.instant)),
        consume_accepted(s, now, count),
    ensures
        after_consume(s, now, count).monthly_chars_used == after_reset(s, now).monthly_chars_used
            + count,
        remaining(after_consume(s, now, count).monthly_chars_used, false) == remaining(
            after_reset(s, now).monthly_chars_used,
            false,
        ) - count,
{
}

/// A refused request changes nothing but the roll-over of the quota window.
pub proof fn lemma_refused_request_changes_nothing(s: StateView, now: NowView, count: u64)
    requires
        !consume_accepted(s, now, count),
    ensures
        after_consume(s, now, count) == after_reset(s, now),
{
}

/// The unlimited tiers are never refused, and their use is not counted.
pub proof fn lemma_unlimited_never_refused(s: StateView, now: NowView, count: u64)
    requires
        unlimited(tier_in_force(s, now.instant)),
    ensures
        consume_accepted(s, now, count),
        after_consume(s, now, count) == after_reset(s, now),
{
}

/// An AdminFree subscription never expires.
pub proof fn lemma_admin_free_never_expires(s: StateView, now: Timestamp)
    requires
        s.tier == SubscriptionTier::AdminFree,
    ensures
        tier_in_force(s, now) == SubscriptionTier::AdminFree,
        unlimited(tier_in_force(s, now)),
{
}

/// An admin activation gives unlimited use at every instant, whatever the
/// state was before.
pub proof fn lemma_admin_activation_is_permanent(
    s: StateView,
    email: Seq<char>,
    key: Seq<char>,
    now: Timestamp,
)
    ensures
        tier_in_force(admin_activated(s, email, key), now) == SubscriptionTier::AdminFree,
{
}

/// A premium subscription is unlimited exactly until it has expired.
pub proof fn lemma_premium_lasts_until_expiry(s: StateView, now: Timestamp)
    requires
        s.tier == SubscriptionTier::Premium,
    ensures
        unlimited(tier_in_force(s, now)) <==> !expired(s.expires_at, now),
{
}

/// Once expired, a license stays expired at every later instant.
pub proof fn lemma_expiry_is_final(expires_at: Option<Seq<char>>, t1: Timestamp, t2: Timestamp)
    requires
        expired(expires_at, t1),
        !before(t2, t1),
    ensures
        expired(expires_at, t2),
{
}

/// The state a deactivation leaves behind.
pub open spec fn deactivated(s: StateView) -> StateView {
    StateView { tier: SubscriptionTier::Free, license_key: None, expires_at: None, ..s }
}

/// Deactivation returns to the free tier at every instant, and keeps the
/// month's usage: signing out and back in does not reset the quota.
pub proof fn lemma_deactivation_keeps_usage(s: StateView, now: NowView)
    ensures
        tier_in_force(deactivated(s), now.instant) == SubscriptionTier::Free,
        after_reset(deactivated(s), now).monthly_chars_used == after_reset(
            s,
            now,
        ).monthly_chars_used,
        after_reset(deactivated(s), now).quota_window_started_at == after_reset(
            s,
            now,
        ).quota_window_started_at,
{
}

/// A device identifier, once given, is never replaced, whatever host names
/// come later; and giving one changes nothing else, the tier least of all.
pub proof fn lemma_device_id_is_stable(s: StateView, h1: HostNames, h2: HostNames)
    ensures
        with_device_id(with_device_id(s, h1), h2) == with_device_id(s, h1),
        with_device_id(s, h1).tier == s.tier,
        with_device_id(s, h1).monthly_chars_used == s.monthly_chars_used,
        with_device_id(s, h1).expires_at == s.expires_at,
{
}

/// The characters remaining and those used add up to the free limit while
/// the usage is within it.
pub proof fn lemma_remaining_complements_usage(used: u64)
    requires
        used <= FREE_TIER_MONTHLY_CHAR_LIMIT,
    ensures
        remaining(used, false) + used == FREE_TIER_MONTHLY_CHAR_LIMIT,
{
}

/// The state after a run of requests to use characters, all at `now`.
pub open spec fn after_requests(s: StateView, now: NowView, counts: Seq<u64>) -> StateView
    decreases counts.len(),
{
    if counts.len() == 0 {
        s
    } else {
        after_consume(after_requests(s, now, counts.drop_last()), now, counts.last())
    }
}

/// How many characters a run of requests at `now` was let through.
pub open spec fn accepted_total(s: StateView, now: NowView, counts: Seq<u64>) -> int
    decreases counts.len(),
{
    if counts.len() == 0 {
        0
    } else {
        let before = after_requests(s, now, counts.drop_last());
        accepted_total(s, now, counts.drop_last()) + if consume_accepted(
            before,
            now,
            counts.last(),
        ) {
            counts.last() as int
        } else {
            0
        }
    }
}

/// Within one calendar month the free tier lets through at most the monthly
/// limit: over any run of requests, the usage grows by exactly what was let
/// through, and that never takes it past the limit.
pub proof fn lemma_free_tier_monthly_cap(s: StateView, now: NowView, counts: Seq<u64>)
    requires
        s.tier == SubscriptionTier::Free,
        !needs_reset(s.quota_window_started_at, now.year, now.month),
        s.monthly_chars_used <= FREE_TIER_MONTHLY_CHAR_LIMIT,
    ensures
        after_requests(s, now, counts).monthly_chars_used == s.monthly_chars_used
            + accepted_total(s, now, counts),
        s.monthly_chars_used + accepted_total(s, now, counts) <= FREE_TIER_MONTHLY_CHAR_LIMIT,
        after_requests(s, now, counts).quota_window_started_at == s.quota_window_started_at,
        after_requests(s, now, counts).tier == SubscriptionTier::Free,
    decreases counts.len(),
{
    if counts.len() > 0 {
        lemma_free_tier_monthly_cap(s, now, counts.drop_last());
    }
}

/// A quota window stamped by a clock reading holds for the rest of that
/// calendar month: a later reading in the same month finds nothing to roll
/// over. RFC 3339 writes years 0 to 9999 with four digits; beyond them the
/// stamp does not read back, and the law is stated for those years only.
pub proof fn lemma_window_holds_for_the_month(s: StateView, n1: NowView, n2: NowView)
    requires
        clock_wf(n1),
        0 <= n1.year <= 9999,
        n2.year == n1.year,
        n2.month == n1.month,
    ensures
        !needs_reset(after_reset(s, n1).quota_window_started_at, n2.year, n2.month),
        after_reset(after_reset(s, n1), n2) == after_reset(s, n1),
{
}

/// Once the status has been refreshed, a second refresh in the same calendar
/// month changes nothing and writes nothing: no window to roll over, and the
/// device identifier is already there.
pub proof fn lemma_status_refresh_settles(
    s: StateView,
    h1: HostNames,
    h2: HostNames,
    n1: NowView,
    n2: NowView,
)
    requires
        clock_wf(n1),
        0 <= n1.year <= 9999,
        n2.year == n1.year,
        n2.month == n1.month,
    ensures
        ({
            let s1 = with_device_id(after_reset(s, n1), h1);
            &&& !needs_reset(s1.quota_window_started_at, n2.year, n2.month)
            &&& s1.device_id is Some
            &&& with_device_id(after_reset(s1, n2), h2) == s1
        }),
{
}

/// A premium license the backend accepts without naming an expiry is in
/// force from the moment of activation for exactly a year, and counts as
/// free afterwards (for activations whose year ends before the year 10000).
pub proof fn lemma_default_license_lasts_a_year(
    s: StateView,
    email: Seq<char>,
    key: Seq<char>,
    reply_tier: Option<Seq<char>>,
    n: NowView,
    t: Timestamp,
)
    requires
        clock_wf(n),
        reply_tier != Some(admin_free_tier_name()),
        plain_four_digit_year_instant(n.instant.secs as int, n.instant.nanos),
        plain_four_digit_year_instant(
            n.instant.secs + SUBSCRIPTION_DURATION_DAYS * SECS_PER_DAY,
            n.instant.nanos,
        ),
    ensures
        ({
            let a = verified_activation(s, email, key, reply_tier, None, n.license_expiry);
            &&& a.tier == SubscriptionTier::Premium
            &&& tier_in_force(a, n.instant) == SubscriptionTier::Premium
            &&& (tier_in_force(a, t) == SubscriptionTier::Premium <==> !before(
                license_end(n.instant),
                t,
            ))
        }),
{
}

/// The month's usage a request is counted against: none after a roll-over,
/// the recorded usage otherwise.
pub open spec fn usage_this_month(s: StateView, now: NowView) -> int {
    if needs_reset(s.quota_window_started_at, now.year, now.month) {
        0
    } else {
        s.monthly_chars_used as int
    }
}

/// On the free tier a request is let through exactly when this month's usage
/// plus the request stays within 5 000 characters; an accepted request is
/// added to the usage, a refused one leaves the usage as it stands.
pub proof fn lemma_free_tier_accepts_exactly_within_quota(s: StateView, now: NowView, count: u64)
    requires
        s.tier == SubscriptionTier::Free,
    ensures
        consume_accepted(s, now, count) <==> usage_this_month(s, now) + count <= 5000,
        usage_this_month(s, now) + count <= 5000 ==> after_consume(s, now, count).monthly_chars_used
            == usage_this_month(s, now) + count,
        usage_this_month(s, now) + count > 5000 ==> after_consume(s, now, count).monthly_chars_used
            == usage_this_month(s, now),
        after_consume(s, now, count).tier == SubscriptionTier::Free,
{
}

/// A status reports all characters as remaining exactly on the unlimited
/// tiers: Premium and AdminFree are unlimited with `u64::MAX` remaining, Free
/// is held to 5 000 less the usage; AdminFree is always unlimited, and a
/// Premium license whose expiry has not passed is unlimited too.
pub proof fn lemma_status_reports_unlimited_tiers(st: SubscriptionStatus, s: StateView, t: Timestamp)
    requires
        is_status_of(st, s, t),
    ensures
        st.is_unlimited <==> (st.tier == SubscriptionTier::Premium || st.tier
            == SubscriptionTier::AdminFree),
        st.is_unlimited ==> st.remaining_chars == u64::MAX,
        !st.is_unlimited ==> st.tier == SubscriptionTier::Free && st.remaining_chars == (if s.monthly_chars_used
            <= 5000 {
            5000 - s.monthly_chars_used
        } else {
            0
        }),
        s.tier == SubscriptionTier::AdminFree ==> st.is_unlimited && st.tier
            == SubscriptionTier::AdminFree,
        s.tier == SubscriptionTier::Free ==> !st.is_unlimited,
        (s.tier == SubscriptionTier::Premium && (s.expires_at is None || (s.expires_at matches Some(
            e,
        ) && parsed_rfc3339(e) matches Some(p) && !(p.instant.secs < t.secs || (p.instant.secs
            == t.secs && p.instant.nanos < t.nanos))))) ==> st.is_unlimited && st.tier
            == SubscriptionTier::Premium,
{
}

/// A key the backend accepts is recorded with the email and key: with the
/// tier "admin_free" as AdminFree without any expiry, whatever expiry the
/// reply names; with any other tier as Premium until the reply's expiry, or
/// until the fallback when the reply names none.
pub proof fn lemma_accepted_key_records_the_backend_tier(
    s: StateView,
    email: Seq<char>,
    key: Seq<char>,
    reply_tier: Option<Seq<char>>,
    reply_expires_at: Option<Seq<char>>,
    fallback_expiry: Option<Seq<char>>,
)
    ensures
        ({
            let a = verified_activation(
                s,
                email,
                key,
                reply_tier,
                reply_expires_at,
                fallback_expiry,
            );
            &&& a.email == Some(email)
            &&& a.license_key == Some(key)
            &&& a.monthly_chars_used == s.monthly_chars_used
            &&& a.device_id == s.device_id
            &&& reply_tier == Some("admin_free"@) ==> a.tier == SubscriptionTier::AdminFree
                && a.expires_at is None
            &&& reply_tier != Some("admin_free"@) ==> a.tier == SubscriptionTier::Premium && (
            a.expires_at == if reply_expires_at is Some {
                reply_expires_at
            } else {
                fallback_expiry
            })
        }),
{
}

/// Pieces joined back with commas.
pub open spec fn join_commas(pieces: Seq<Seq<char>>) -> Seq<char>
    decreases pieces.len(),
{
    if pieces.len() == 0 {
        Seq::empty()
    } else if pieces.len() == 1 {
        pieces[0]
    } else {
        join_commas(pieces.drop_last()) + seq![','] + pieces.last()
    }
}

proof fn lemma_join_extend_last(pieces: Seq<Seq<char>>, c: char)
    requires
        pieces.len() >= 1,
    ensures
        join_commas(pieces.update(pieces.len() - 1, pieces.last().push(c))) == join_commas(
            pieces,
        ).push(c),
{
    let u = pieces.update(pieces.len() - 1, pieces.last().push(c));
    if pieces.len() == 1 {
        assert(u[0] == pieces[0].push(c));
    } else {
        assert(u.drop_last() =~= pieces.drop_last());
        assert(join_commas(u) =~= join_commas(pieces).push(c));
    }
}

/// Splitting at commas loses nothing and invents nothing: there is at least
/// one piece, no piece holds a comma, and the pieces joined with commas give
/// back the text.
pub proof fn lemma_split_commas_inverts_join(s: Seq<char>)
    ensures
        split_commas_spec(s).len() >= 1,
        join_commas(split_commas_spec(s)) == s,
        forall|i: int, k: int|
            0 <= i < split_commas_spec(s).len() && 0 <= k < split_commas_spec(s)[i].len()
                ==> split_commas_spec(s)[i][k] != ',',
    decreases s.len(),
{
    if s.len() == 0 {
        assert(join_commas(split_commas_spec(s)) =~= s);
    } else {
        let init = split_commas_spec(s.drop_last());
        lemma_split_commas_inverts_join(s.drop_last());
        let c = s.last();
        if c == ',' {
            let r = init.push(Seq::<char>::empty());
            assert(r.drop_last() =~= init);
            assert(join_commas(r) =~= s);
            assert forall|i: int, k: int| 0 <= i < r.len() && 0 <= k < r[i].len() implies r[i][k]
                != ',' by {
                if i < init.len() {
                    assert(r[i] == init[i]);
                }
            }
        } else {
            let r = init.update(init.len() - 1, init.last().push(c));
            lemma_join_extend_last(init, c);
            assert(join_commas(r) =~= s);
            assert forall|i: int, k: int| 0 <= i < r.len() && 0 <= k < r[i].len() implies r[i][k]
                != ',' by {
                if i < init.len() - 1 {
                    assert(r[i] == init[i]);
                } else {
                    assert(r[i] == init.last().push(c));
                    if k < init.last().len() {
                        assert(r[i][k] == init[init.len() - 1][k]);
                    }
                }
            }
        }
    }
}

proof fn lemma_admin_list_holds_every_piece(pieces: Seq<Seq<char>>, j: int)
    requires
        0 <= j < pieces.len(),
        crate::text::trim_spec(pieces[j]).len() > 0,
    ensures
        admin_list_of(pieces).contains(normalized_email(pieces[j])),
    decreases pieces.len(),
{
    let init = admin_list_of(pieces.drop_last());
    if j == pieces.len() - 1 {
        assert(admin_list_of(pieces).last() == normalized_email(pieces[j]));
    } else {
        assert(pieces.drop_last()[j] == pieces[j]);
        lemma_admin_list_holds_every_piece(pieces.drop_last(), j);
        let k = choose|k: int| 0 <= k < init.len() && init[k] == normalized_email(pieces[j]);
        if crate::text::trim_spec(pieces.last()).len() > 0 {
            assert(admin_list_of(pieces)[k] == init[k]);
        }
    }
}

/// Every email of the build-time admin list grants AdminFree locally, not
/// only the first: if some comma-separated piece of the list, trimmed and
/// lower-cased, is the user's normalized email, the activation is an admin
/// one, whatever key was typed.
pub proof fn lemma_every_listed_admin_email_is_honoured(
    admin: AdminConfig,
    raw: Seq<char>,
    j: int,
    email: Seq<char>,
    key: Seq<char>,
)
    requires
        admin.admin_emails.deep_view() == Some(raw),
        0 <= j < split_commas_spec(raw).len(),
        crate::text::trim_spec(split_commas_spec(raw)[j]).len() > 0,
        normalized_email(split_commas_spec(raw)[j]) == normalized_email(email),
    ensures
        is_admin_activation(admin, normalized_email(email), key),
{
    lemma_admin_list_holds_every_piece(split_commas_spec(raw), j);
    assert(admin_email_list(admin.admin_emails.deep_view()) == admin_list_of(
        split_commas_spec(raw),
    ));
}

proof fn lemma_char_order_is_code_point_order(c: char, d: char)
    ensures
        (c <= d) == ((c as u32) <= (d as u32)),
{
}

/// A nanoid token character, by code point: '0'-'9', 'A'-'Z', 'a'-'z', '_'
/// and '-'.
pub open spec fn nanoid_code_point(u: u32) -> bool {
    (48 <= u <= 57) || (65 <= u <= 90) || (97 <= u <= 122) || u == 95 || u == 45
}

proof fn lemma_nanoid_char(c: char)
    ensures
        nanoid_code_point(c as u32) <==> crate::license::session_id_char(c),
{
    lemma_char_order_is_code_point_order('0', c);
    lemma_char_order_is_code_point_order(c, '9');
    lemma_char_order_is_code_point_order('A', c);
    lemma_char_order_is_code_point_order(c, 'Z');
    lemma_char_order_is_code_point_order('a', c);
    lemma_char_order_is_code_point_order(c, 'z');
    assert('0' as u32 == 48 && '9' as u32 == 57 && 'A' as u32 == 65 && 'Z' as u32 == 90);
    assert('a' as u32 == 97 && 'z' as u32 == 122 && '_' as u32 == 95 && '-' as u32 == 45);
    if c as u32 == 95 {
        lemma_char_order_is_code_point_order(c, '_');
        lemma_char_order_is_code_point_order('_', c);
    }
    if c as u32 == 45 {
        lemma_char_order_is_code_point_order(c, '-');
        lemma_char_order_is_code_point_order('-', c);
    }
}

/// The session identifiers accepted are exactly the non-empty nanoid
/// tokens: made of ASCII letters (boundaries 'A', 'Z', 'a', 'z' included),
/// digits, '_' and '-', and nothing else.
pub proof fn lemma_session_ids_are_nanoid_tokens(s: Seq<char>)
    ensures
        valid_session_id(s) <==> (s.len() > 0 && forall|i: int|
            0 <= i < s.len() ==> nanoid_code_point((#[trigger] s[i]) as u32)),
{
    if s.len() > 0 {
        if valid_session_id(s) {
            assert forall|i: int| 0 <= i < s.len() implies nanoid_code_point(
                (#[trigger] s[i]) as u32,
            ) by {
                lemma_nanoid_char(s[i]);
            }
        }
        if forall|i: int| 0 <= i < s.len() ==> nanoid_code_point((#[trigger] s[i]) as u32) {
            assert forall|i: int| 0 <= i < s.len() implies crate::license::session_id_char(
                #[trigger] s[i],
            ) by {
                lemma_nanoid_char(s[i]);
            }
        }
    }
}

/// The quota window follows the calendar: a window whose start reads as
/// the current year and month is kept with its usage; a missing window, one
/// that cannot be read, or one from another month is started afresh now,
/// with nothing used.
pub proof fn lemma_quota_window_rolls_over_monthly(s: StateView, now: NowView)
    ensures
        (s.quota_window_started_at matches Some(w) && parsed_rfc3339(w) matches Some(p) && p.year
            == now.year && p.month == now.month) ==> after_reset(s, now) == s,
        !(s.quota_window_started_at matches Some(w) && parsed_rfc3339(w) matches Some(p) && p.year
            == now.year && p.month == now.month) ==> (after_reset(s, now).monthly_chars_used == 0
            && after_reset(s, now).quota_window_started_at == Some(now.rfc3339) && after_reset(
            s,
            now,
        ).tier == s.tier && after_reset(s, now).expires_at == s.expires_at && after_reset(
            s,
            now,
        ).device_id == s.device_id),
{
}

/// AdminFree is never refused and its use is never counted; nor is that of
/// a Premium license without expiry.
pub proof fn lemma_unlimited_tiers_are_not_counted(s: StateView, now: NowView, count: u64)
    requires
        s.tier == SubscriptionTier::AdminFree || (s.tier == SubscriptionTier::Premium
            && s.expires_at is None),
    ensures
        consume_accepted(s, now, count),
        after_consume(s, now, count).monthly_chars_used == usage_this_month(s, now),
{
}

/// An expired Premium license counts as Free: its expiry cannot be read, or
/// lies before the instant of the status.
pub proof fn lemma_expired_premium_reports_free(st: SubscriptionStatus, s: StateView, t: Timestamp)
    requires
        is_status_of(st, s, t),
        s.tier == SubscriptionTier::Premium,
        s.expires_at matches Some(e) && (parsed_rfc3339(e) matches Some(p) ==> (p.instant.secs
            < t.secs || (p.instant.secs == t.secs && p.instant.nanos < t.nanos))),
    ensures
        st.tier == SubscriptionTier::Free,
        !st.is_unlimited,
{
}

/// Without a master key and without an admin list, no activation is an
/// admin one; with a non-empty master key, typing it is.
pub proof fn lemma_admin_paths_need_configuration(
    admin: AdminConfig,
    email: Seq<char>,
    key: Seq<char>,
)
    ensures
        (admin.master_key is None && admin.admin_emails is None) ==> !is_admin_activation(
            admin,
            email,
            key,
        ),
        (admin.master_key.deep_view() matches Some(k) && k.len() > 0 && key == k)
            ==> is_admin_activation(admin, email, key),
        admin.master_key.deep_view() == Some(Seq::<char>::empty()) && admin.admin_emails is None
            ==> !is_admin_activation(admin, email, key),
{
    if admin.admin_emails is None {
        lemma_split_commas_inverts_join(Seq::<char>::empty());
        assert(split_commas_spec(Seq::<char>::empty()) =~= seq![Seq::<char>::empty()]) by {
            reveal_with_fuel(split_commas_spec, 1);
        }
        let pieces = seq![Seq::<char>::empty()];
        lemma_admin_list_only_normalized_pieces(pieces);
    }
}

proof fn lemma_admin_list_only_normalized_pieces(pieces: Seq<Seq<char>>)
    ensures
        forall|e: Seq<char>|
            #[trigger] admin_list_of(pieces).contains(e) ==> exists|j: int|
                0 <= j < pieces.len() && crate::text::trim_spec(pieces[j]).len() > 0
                    && normalized_email(pieces[j]) == e,
    decreases pieces.len(),
{
    if pieces.len() > 0 {
        lemma_admin_list_only_normalized_pieces(pieces.drop_last());
        let init = admin_list_of(pieces.drop_last());
        assert forall|e: Seq<char>| #[trigger] admin_list_of(pieces).contains(e) implies exists|
            j: int,
        | 0 <= j < pieces.len() && crate::text::trim_spec(pieces[j]).len() > 0 && normalized_email(
            pieces[j],
        ) == e by {
            let k = choose|k: int| 0 <= k < admin_list_of(pieces).len() && admin_list_of(pieces)[k]
                == e;
            if k < init.len() {
                assert(init[k] == e);
                assert(init.contains(e));
                let j = choose|j: int|
                    0 <= j < pieces.drop_last().len() && crate::text::trim_spec(
                        pieces.drop_last()[j],
                    ).len() > 0 && normalized_email(pieces.drop_last()[j]) == e;
                assert(pieces[j] == pieces.drop_last()[j]);
            } else {
                assert(normalized_email(pieces[pieces.len() - 1]) == e);
            }
        }
    }
}

/// Only the configured admin emails are honoured: an activation that is an
/// admin one either typed the non-empty master key, or its email is, once
/// trimmed and lower-cased, some comma-separated piece of the list.
pub proof fn lemma_admin_activation_needs_a_listed_email_or_the_key(
    admin: AdminConfig,
    email: Seq<char>,
    key: Seq<char>,
)
    requires
        is_admin_activation(admin, email, key),
    ensures
        (admin.master_key.deep_view() matches Some(k) && k.len() > 0 && key == k) || (
        admin.admin_emails.deep_view() matches Some(raw) && exists|j: int|
            0 <= j < split_commas_spec(raw).len() && crate::text::trim_spec(
                #[trigger] split_commas_spec(raw)[j],
            ).len() > 0 && normalized_email(split_commas_spec(raw)[j]) == email),
{
    let raw = match admin.admin_emails.deep_view() {
        Some(r) => r,
        None => Seq::<char>::empty(),
    };
    lemma_admin_list_only_normalized_pieces(split_commas_spec(raw));
    if admin.admin_emails is None {
        assert(split_commas_spec(Seq::<char>::empty()) =~= seq![Seq::<char>::empty()]);
        lemma_admin_list_only_normalized_pieces(seq![Seq::<char>::empty()]);
    }
}

/// The cancel binding cancels on a press and is never forwarded; a
/// transcribe binding is forwarded on press and release alike when the
/// coordinator is ready, and is never turned into a cancel.
pub proof fn lemma_shortcut_routing(
    binding_id: Seq<char>,
    is_pressed: bool,
    is_transcribe: bool,
    ready: bool,
)
    ensures
        binding_id == "cancel"@ ==> action_for(binding_id, is_pressed, is_transcribe, ready) == (
        if is_pressed {
            ShortcutAction::CancelOperation
        } else {
            ShortcutAction::Ignore
        }),
        binding_id != "cancel"@ && is_transcribe ==> action_for(
            binding_id,
            is_pressed,
            is_transcribe,
            ready,
        ) == (if ready {
            ShortcutAction::ForwardToCoordinator
        } else {
            ShortcutAction::WarnCoordinatorMissing
        }),
        binding_id != "cancel"@ && !is_transcribe ==> action_for(
            binding_id,
            is_pressed,
            is_transcribe,
            ready,
        ) == ShortcutAction::Ignore,
{
}

} // verus!
