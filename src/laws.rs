use vstd::prelude::*;
use crate::ledger::{
    spec_create_match, spec_create_profile, spec_initialize, spec_subscribe_initial,
    spec_subscribe_monthly, CreateMatch, CreateProfile, Initialize, LedgerView, SubscribeInitial,
    SubscribeMonthly,
};
use crate::records::{
    fits_i64, ErrorCode, Interest, SubscriptionType, UserKey, INITIAL_PERIOD_SECS, MAX_INTERESTS,
    MAX_USERNAME_CHARS, MONTHLY_PERIOD_SECS,
};

verus! {

/// One operation on a ledger, with the time it runs at and, for the
/// subscriptions, whether its payment went through.
pub enum Operation {
    Initialize(Initialize),
    CreateProfile(CreateProfile, String, Vec<Interest>, i64),
    SubscribeInitial(SubscribeInitial, SubscriptionType, i64, bool),
    SubscribeMonthly(SubscribeMonthly, i64, bool),
    CreateMatch(CreateMatch, i64),
}

/// The ledger after `op`.
pub open spec fn spec_step(v: LedgerView, op: Operation) -> LedgerView {
    match op {
        Operation::Initialize(ctx) => spec_initialize(v, ctx).0,
        Operation::CreateProfile(ctx, name, interests, now) => spec_create_profile(
            v,
            ctx,
            name,
            interests,
            now,
        ).0,
        Operation::SubscribeInitial(ctx, tier, now, paid) => spec_subscribe_initial(
            v,
            ctx,
            tier,
            now,
            paid,
        ).0,
        Operation::SubscribeMonthly(ctx, now, paid) => spec_subscribe_monthly(v, ctx, now, paid).0,
        Operation::CreateMatch(ctx, now) => spec_create_match(v, ctx, now).0,
    }
}

/// Whether `op` is a profile creation that succeeds on `v`.
pub open spec fn spec_creates_profile(v: LedgerView, op: Operation) -> bool {
    match op {
        Operation::CreateProfile(ctx, name, interests, now) => spec_create_profile(
            v,
            ctx,
            name,
            interests,
            now,
        ).1 is Ok,
        _ => false,
    }
}

/// The ledger after running `ops` in order from `v`.
pub open spec fn spec_run(v: LedgerView, ops: Seq<Operation>) -> LedgerView
    decreases ops.len(),
{
    if ops.len() == 0 {
        v
    } else {
        spec_step(spec_run(v, ops.drop_last()), ops.last())
    }
}

/// How many of `ops`, run in order from `v`, are successful profile creations.
pub open spec fn spec_created_count(v: LedgerView, ops: Seq<Operation>) -> nat
    decreases ops.len(),
{
    if ops.len() == 0 {
        0
    } else {
        let before = spec_run(v, ops.drop_last());
        spec_created_count(v, ops.drop_last()) + if spec_creates_profile(before, ops.last()) {
            1nat
        } else {
            0nat
        }
    }
}

/// Every operation keeps a ledger well formed, and adds a profile exactly
/// when it is a successful profile creation.
pub proof fn lemma_step_wf(v: LedgerView, op: Operation)
    requires
        v.wf(),
    ensures
        spec_step(v, op).wf(),
        spec_step(v, op).profiles.len() == v.profiles.len() + if spec_creates_profile(v, op) {
            1int
        } else {
            0int
        },
{
    match op {
        Operation::CreateProfile(ctx, name, interests, now) => {
            let w = spec_step(v, op);
            if spec_creates_profile(v, op) {
                assert forall|j: int| 0 <= j < v.profiles.len() implies v.profiles[j].authority
                    != ctx.authority by {
                    if v.profiles[j].authority == ctx.authority {
                        assert(v.has_profile(ctx.authority));
                    }
                }
                assert forall|a: int, b: int| 0 <= a < b < w.profiles.len() implies w.profiles[a].authority
                    != w.profiles[b].authority by {
                    if b < v.profiles.len() {
                        assert(v.profiles[a].authority != v.profiles[b].authority);
                    }
                }
            }
        },
        Operation::SubscribeInitial(ctx, _, _, _) => {
            lemma_update_keeps_wf(v, spec_step(v, op), ctx.authority);
        },
        Operation::SubscribeMonthly(ctx, _, _) => {
            lemma_update_keeps_wf(v, spec_step(v, op), ctx.authority);
        },
        Operation::CreateMatch(ctx, now) => {
            let w = spec_step(v, op);
            if !v.has_match(ctx.user1, ctx.user2) {
                assert forall|a: int, b: int| 0 <= a < b < w.matches.len() implies !(
                #[trigger] w.matches[a].user1 == #[trigger] w.matches[b].user1 && w.matches[a].user2
                    == w.matches[b].user2) by {
                    if b < v.matches.len() {
                        assert(!(v.matches[a].user1 == v.matches[b].user1 && v.matches[a].user2
                            == v.matches[b].user2));
                    } else {
                        if w.matches[a].user1 == w.matches[b].user1 && w.matches[a].user2
                            == w.matches[b].user2 {
                            assert(v.matches[a] == w.matches[a]);
                            assert(v.has_match(ctx.user1, ctx.user2));
                        }
                    }
                }
            }
        },
        Operation::Initialize(_) => {},
    }
}

/// A subscription changes at most the subscriber's own profile, and keeps
/// its owner.
proof fn lemma_update_keeps_wf(v: LedgerView, w: LedgerView, owner: UserKey)
    requires
        v.wf(),
        w == v || (v.has_profile(owner) && w.config == v.config && w.matches == v.matches
            && w.profiles.len() == v.profiles.len() && w.profiles[v.profile_pos(owner)].authority
            == owner && forall|j: int|
            0 <= j < v.profiles.len() && j != v.profile_pos(owner) ==> w.profiles[j]
                == v.profiles[j]),
    ensures
        w.wf(),
        w.profiles.len() == v.profiles.len(),
{
    if w != v {
        let i = v.profile_pos(owner);
        assert forall|a: int, b: int| 0 <= a < b < w.profiles.len() implies w.profiles[a].authority
            != w.profiles[b].authority by {
            assert(v.profiles[a].authority != v.profiles[b].authority);
        }
    }
}

/// Running operations keeps a ledger well formed and adds one profile per
/// successful profile creation.
pub proof fn lemma_run_wf(v: LedgerView, ops: Seq<Operation>)
    requires
        v.wf(),
    ensures
        spec_run(v, ops).wf(),
        spec_run(v, ops).profiles.len() == v.profiles.len() + spec_created_count(v, ops),
    decreases ops.len(),
{
    if ops.len() > 0 {
        lemma_run_wf(v, ops.drop_last());
        lemma_step_wf(spec_run(v, ops.drop_last()), ops.last());
    }
}

/// From a fresh deployment, the user counter equals the number of
/// successful profile creations, whatever else ran in between.
pub proof fn law_total_users_counts_profiles(ops: Seq<Operation>)
    ensures
        spec_run(LedgerView::empty(), ops).total_users() == spec_created_count(
            LedgerView::empty(),
            ops,
        ),
{
    lemma_run_wf(LedgerView::empty(), ops);
}

/// No operation decreases the user counter, successful or not.
pub proof fn law_total_users_never_decreases(v: LedgerView, op: Operation)
    requires
        v.wf(),
    ensures
        spec_step(v, op).total_users() >= v.total_users(),
{
    lemma_step_wf(v, op);
}

/// A username longer than the limit is refused with `UsernameTooLong`, and
/// nothing changes.
pub proof fn law_long_username_refused(
    v: LedgerView,
    ctx: CreateProfile,
    username: String,
    interests: Vec<Interest>,
    now: i64,
)
    requires
        username@.len() > MAX_USERNAME_CHARS,
    ensures
        spec_create_profile(v, ctx, username, interests, now) == (v, Err::<(), ErrorCode>(
            ErrorCode::UsernameTooLong,
        )),
{
}

/// A username within the limit is accepted: with an interest list within
/// its limit, the profile is created wherever the configuration exists, the
/// owner has no profile yet and the counter has room.
pub proof fn law_short_username_accepted(
    v: LedgerView,
    ctx: CreateProfile,
    username: String,
    interests: Vec<Interest>,
    now: i64,
)
    requires
        username@.len() <= MAX_USERNAME_CHARS,
        interests@.len() <= MAX_INTERESTS,
        v.config is Some,
        !v.has_profile(ctx.authority),
        v.config->Some_0.total_users < u32::MAX,
    ensures
        spec_create_profile(v, ctx, username, interests, now).1 is Ok,
        spec_create_profile(v, ctx, username, interests, now).0.total_users() == v.total_users() + 1,
{
}

/// More interests than the limit are refused with `TooManyInterests`
/// (a username over its own limit is reported first), and nothing changes.
pub proof fn law_too_many_interests_refused(
    v: LedgerView,
    ctx: CreateProfile,
    username: String,
    interests: Vec<Interest>,
    now: i64,
)
    requires
        username@.len() <= MAX_USERNAME_CHARS,
        interests@.len() > MAX_INTERESTS,
    ensures
        spec_create_profile(v, ctx, username, interests, now) == (v, Err::<(), ErrorCode>(
            ErrorCode::TooManyInterests,
        )),
{
}

/// Once the user counter has reached the early-bird capacity, every
/// early-bird subscription of a non-premium profile is refused with
/// `EarlyBirdLimitReached`, and nothing changes.
pub proof fn law_early_bird_full(v: LedgerView, ctx: SubscribeInitial, now: i64, paid: bool)
    requires
        v.config is Some,
        v.has_profile(ctx.authority),
        !v.profiles[v.profile_pos(ctx.authority)].is_premium,
        v.config->Some_0.total_users >= v.config->Some_0.early_bird_limit,
    ensures
        spec_subscribe_initial(v, ctx, SubscriptionType::EarlyBird, now, paid) == (v, Err::<
            u64,
            ErrorCode,
        >(ErrorCode::EarlyBirdLimitReached)),
{
}

/// Below the early-bird capacity, a paid early-bird subscription of a
/// non-premium profile succeeds and charges the early-bird price.
pub proof fn law_early_bird_open(v: LedgerView, ctx: SubscribeInitial, now: i64)
    requires
        v.config is Some,
        v.has_profile(ctx.authority),
        !v.profiles[v.profile_pos(ctx.authority)].is_premium,
        v.config->Some_0.total_users < v.config->Some_0.early_bird_limit,
        fits_i64(now + INITIAL_PERIOD_SECS),
    ensures
        spec_subscribe_initial(v, ctx, SubscriptionType::EarlyBird, now, true).1 == Ok::<
            u64,
            ErrorCode,
        >(v.config->Some_0.early_bird_price),
{
}

/// An initial subscription of a premium profile is refused with
/// `AlreadyPremium` whatever its expiry, the tier and the payment, and
/// nothing changes.
pub proof fn law_already_premium_refused(
    v: LedgerView,
    ctx: SubscribeInitial,
    tier: SubscriptionType,
    now: i64,
    paid: bool,
)
    requires
        v.config is Some,
        v.has_profile(ctx.authority),
        v.profiles[v.profile_pos(ctx.authority)].is_premium,
    ensures
        spec_subscribe_initial(v, ctx, tier, now, paid) == (v, Err::<u64, ErrorCode>(
            ErrorCode::AlreadyPremium,
        )),
{
}

/// A paid monthly renewal restarts a lapsed window at `now` and extends a
/// running one from its end, by 2,592,000 seconds either way, and marks
/// the profile premium.
pub proof fn law_monthly_renewal(v: LedgerView, ctx: SubscribeMonthly, now: i64)
    requires
        v.config is Some,
        v.has_profile(ctx.authority),
        fits_i64(v.profiles[v.profile_pos(ctx.authority)].premium_until + MONTHLY_PERIOD_SECS),
        fits_i64(now + MONTHLY_PERIOD_SECS),
    ensures
        ({
            let i = v.profile_pos(ctx.authority);
            let t = v.profiles[i].premium_until;
            let (w, r) = spec_subscribe_monthly(v, ctx, now, true);
            &&& r is Ok
            &&& w.profiles[i].is_premium
            &&& t < now ==> w.profiles[i].premium_until == now + 2_592_000
            &&& t >= now ==> w.profiles[i].premium_until == t + 2_592_000
        }),
{
}

/// A successful early-bird subscription at `t0` marks the profile premium
/// until `t0` plus 15,552,000 seconds.
pub proof fn law_early_bird_period(v: LedgerView, ctx: SubscribeInitial, t0: i64)
    requires
        v.config is Some,
        v.has_profile(ctx.authority),
        spec_subscribe_initial(v, ctx, SubscriptionType::EarlyBird, t0, true).1 is Ok,
    ensures
        ({
            let i = v.profile_pos(ctx.authority);
            let w = spec_subscribe_initial(v, ctx, SubscriptionType::EarlyBird, t0, true).0;
            &&& w.profiles[i].is_premium
            &&& w.profiles[i].premium_until == t0 + 15_552_000
        }),
{
}

/// Matching `a` with `b` and then `b` with `a` makes two distinct records:
/// the pair is ordered, and neither call finds the other's record.
pub proof fn law_match_order_matters(v: LedgerView, a: UserKey, b: UserKey, bump1: u8, bump2: u8, now: i64)
    requires
        a != b,
        !v.has_match(a, b),
        !v.has_match(b, a),
    ensures
        ({
            let (w1, r1) = spec_create_match(v, CreateMatch { user1: a, user2: b, match_bump: bump1 }, now);
            let (w2, r2) = spec_create_match(w1, CreateMatch { user1: b, user2: a, match_bump: bump2 }, now);
            &&& r1 is Ok
            &&& r2 is Ok
            &&& w2.matches.len() == v.matches.len() + 2
            &&& w2.matches[v.matches.len() as int].user1 == a
            &&& w2.matches[v.matches.len() as int].user2 == b
            &&& w2.matches[v.matches.len() as int + 1].user1 == b
            &&& w2.matches[v.matches.len() as int + 1].user2 == a
            &&& w2.matches[v.matches.len() as int] != w2.matches[v.matches.len() as int + 1]
        }),
{
    let (w1, r1) = spec_create_match(v, CreateMatch { user1: a, user2: b, match_bump: bump1 }, now);
    if w1.has_match(b, a) {
        let j = choose|j: int| 0 <= j < w1.matches.len() && (#[trigger] w1.matches[j]).user1 == b
            && w1.matches[j].user2 == a;
        if j < v.matches.len() {
            assert(v.matches[j] == w1.matches[j]);
        }
    }
}

/// A subscription whose payment did not go through changes nothing: not the
/// premium flag, not the expiry, not the user counter.
pub proof fn law_failed_payment_changes_nothing(
    v: LedgerView,
    initial: SubscribeInitial,
    monthly: SubscribeMonthly,
    tier: SubscriptionType,
    now: i64,
)
    ensures
        spec_subscribe_initial(v, initial, tier, now, false).0 == v,
        spec_subscribe_initial(v, initial, tier, now, false).1 is Err,
        spec_subscribe_monthly(v, monthly, now, false).0 == v,
        spec_subscribe_monthly(v, monthly, now, false).1 is Err,
{
}

} // verus!
