use vstd::prelude::*;
use crate::records::{
    check_profile_input, fits_i64, initial_price, spec_default_config, spec_initial_price,
    spec_profile_input_error, spec_renewed_until, Config, ErrorCode, Interest, Match, Profile,
    SubscriptionType, UserKey, INITIAL_PERIOD_SECS,
};

verus! {

/// Accounts of `initialize`: the deploying signer and the configuration
/// record's disambiguation byte.
#[derive(Clone, Copy, Debug)]
pub struct Initialize {
    pub authority: UserKey,
    pub config_bump: u8,
}

/// Accounts of `create_profile`: the new user, who signs, and the byte of
/// the profile address derived from that user.
#[derive(Clone, Copy, Debug)]
pub struct CreateProfile {
    pub authority: UserKey,
    pub profile_bump: u8,
}

/// Accounts of `subscribe_initial`: the profile owner, who signs and pays.
#[derive(Clone, Copy, Debug)]
pub struct SubscribeInitial {
    pub authority: UserKey,
}

/// Accounts of `subscribe_monthly`: the profile owner, who signs and pays.
#[derive(Clone, Copy, Debug)]
pub struct SubscribeMonthly {
    pub authority: UserKey,
}

/// Accounts of `create_match`: the signer `user1`, the unchecked
/// counterpart `user2`, and the byte of the address derived from the pair.
#[derive(Clone, Copy, Debug)]
pub struct CreateMatch {
    pub user1: UserKey,
    pub user2: UserKey,
    pub match_bump: u8,
}

/// Every record of one deployment, addressed by key: the configuration
/// singleton, one profile per owner, one match per ordered pair of users.
pub struct Ledger {
    config: Option<Config>,
    profiles: Vec<Profile>,
    matches: Vec<Match>,
}

/// The mathematical state of a `Ledger`.
pub struct LedgerView {
    pub config: Option<Config>,
    pub profiles: Seq<Profile>,
    pub matches: Seq<Match>,
}

impl View for Ledger {
    type V = LedgerView;

    closed spec fn view(&self) -> LedgerView {
        LedgerView { config: self.config, profiles: self.profiles@, matches: self.matches@ }
    }
}

impl LedgerView {
    /// A deployment before `initialize`: no record at all.
    pub open spec fn empty() -> LedgerView {
        LedgerView { config: None, profiles: Seq::empty(), matches: Seq::empty() }
    }

    pub open spec fn has_profile(self, owner: UserKey) -> bool {
        exists|i: int| 0 <= i < self.profiles.len() && #[trigger] self.profiles[i].authority == owner
    }

    /// Position of `owner`'s profile, where it has one.
    pub open spec fn profile_pos(self, owner: UserKey) -> int {
        choose|i: int| 0 <= i < self.profiles.len() && #[trigger] self.profiles[i].authority == owner
    }

    pub open spec fn has_match(self, user1: UserKey, user2: UserKey) -> bool {
        exists|i: int|
            0 <= i < self.matches.len() && (#[trigger] self.matches[i]).user1 == user1
                && self.matches[i].user2 == user2
    }

    /// Derived addresses are unique, and the user counter counts the
    /// profiles, which exist only once the configuration does.
    pub open spec fn wf(self) -> bool {
        &&& forall|i: int, j: int|
            0 <= i < j < self.profiles.len() ==> #[trigger] self.profiles[i].authority
                != #[trigger] self.profiles[j].authority
        &&& forall|i: int, j: int|
            0 <= i < j < self.matches.len() ==> !(#[trigger] self.matches[i].user1
                == #[trigger] self.matches[j].user1 && self.matches[i].user2
                == self.matches[j].user2)
        &&& match self.config {
            Some(c) => c.total_users == self.profiles.len(),
            None => self.profiles.len() == 0,
        }
    }

    pub open spec fn total_users(self) -> nat {
        match self.config {
            Some(c) => c.total_users as nat,
            None => 0,
        }
    }
}

/// `initialize`: creates the configuration unless it exists.
pub open spec fn spec_initialize(v: LedgerView, ctx: Initialize) -> (LedgerView, Result<(), ErrorCode>) {
    if v.config is Some {
        (v, Err(ErrorCode::AccountAlreadyExists))
    } else {
        (LedgerView { config: Some(spec_default_config(ctx.authority, ctx.config_bump)), ..v }, Ok(()))
    }
}

/// `create_profile`: input checks, then the records, then the counter.
pub open spec fn spec_create_profile(
    v: LedgerView,
    ctx: CreateProfile,
    username: String,
    interests: Vec<Interest>,
    now: i64,
) -> (LedgerView, Result<(), ErrorCode>) {
    if let Some(e) = spec_profile_input_error(username@, interests@) {
        (v, Err(e))
    } else if v.config is None {
        (v, Err(ErrorCode::AccountNotFound))
    } else if v.has_profile(ctx.authority) {
        (v, Err(ErrorCode::AccountAlreadyExists))
    } else if v.config->Some_0.total_users == u32::MAX {
        (v, Err(ErrorCode::ArithmeticOverflow))
    } else {
        let c = v.config->Some_0;
        let p = Profile {
            authority: ctx.authority,
            username,
            interests,
            is_premium: false,
            premium_until: 0,
            created_at: now,
            bump: ctx.profile_bump,
        };
        (
            LedgerView {
                config: Some(Config { total_users: (c.total_users + 1) as u32, ..c }),
                profiles: v.profiles.push(p),
                ..v
            },
            Ok(()),
        )
    }
}

/// `subscribe_initial`: the records, the tier's rules, the payment of the
/// tier's price (`paid` is whether it went through), then activation.
/// On success the result is the price paid.
pub open spec fn spec_subscribe_initial(
    v: LedgerView,
    ctx: SubscribeInitial,
    tier: SubscriptionType,
    now: i64,
    paid: bool,
) -> (LedgerView, Result<u64, ErrorCode>) {
    if v.config is None || !v.has_profile(ctx.authority) {
        (v, Err(ErrorCode::AccountNotFound))
    } else {
        let i = v.profile_pos(ctx.authority);
        let p = v.profiles[i];
        match spec_initial_price(p.is_premium, v.config->Some_0, tier) {
            Err(e) => (v, Err(e)),
            Ok(price) => if !paid {
                (v, Err(ErrorCode::TransferFailed))
            } else if !fits_i64(now + INITIAL_PERIOD_SECS) {
                (v, Err(ErrorCode::ArithmeticOverflow))
            } else {
                let q = Profile {
                    is_premium: true,
                    premium_until: (now + INITIAL_PERIOD_SECS) as i64,
                    ..p
                };
                (LedgerView { profiles: v.profiles.update(i, q), ..v }, Ok(price))
            },
        }
    }
}

/// `subscribe_monthly`: the records, the payment of the monthly price
/// (`paid` is whether it went through), then renewal. On success the
/// result is the price paid.
pub open spec fn spec_subscribe_monthly(
    v: LedgerView,
    ctx: SubscribeMonthly,
    now: i64,
    paid: bool,
) -> (LedgerView, Result<u64, ErrorCode>) {
    if v.config is None || !v.has_profile(ctx.authority) {
        (v, Err(ErrorCode::AccountNotFound))
    } else if !paid {
        (v, Err(ErrorCode::TransferFailed))
    } else {
        let i = v.profile_pos(ctx.authority);
        let p = v.profiles[i];
        let until = spec_renewed_until(p.premium_until as int, now as int);
        if !fits_i64(until) {
            (v, Err(ErrorCode::ArithmeticOverflow))
        } else {
            let q = Profile { is_premium: true, premium_until: until as i64, ..p };
            (LedgerView { profiles: v.profiles.update(i, q), ..v }, Ok(v.config->Some_0.monthly_price))
        }
    }
}

/// `create_match`: a new record for the ordered pair, unless it exists.
pub open spec fn spec_create_match(v: LedgerView, ctx: CreateMatch, now: i64) -> (LedgerView, Result<(), ErrorCode>) {
    if v.has_match(ctx.user1, ctx.user2) {
        (v, Err(ErrorCode::AccountAlreadyExists))
    } else {
        let m = Match {
            user1: ctx.user1,
            user2: ctx.user2,
            created_at: now,
            is_active: true,
            bump: ctx.match_bump,
        };
        (LedgerView { matches: v.matches.push(m), ..v }, Ok(()))
    }
}

/// In a well-formed ledger the profile found at `i` for `owner` is the one
/// `profile_pos` names.
pub proof fn lemma_profile_pos(v: LedgerView, owner: UserKey, i: int)
    requires
        v.wf(),
        0 <= i < v.profiles.len(),
        v.profiles[i].authority == owner,
    ensures
        v.has_profile(owner),
        v.profile_pos(owner) == i,
{
    assert(v.has_profile(owner));
    let j = v.profile_pos(owner);
    if j < i {
        assert(v.profiles[j].authority != v.profiles[i].authority);
    } else if i < j {
        assert(v.profiles[i].authority != v.profiles[j].authority);
    }
}

/// Replacing the profile at `i` by one with the same owner keeps the
/// ledger well formed.
proof fn lemma_profile_updated(v0: LedgerView, v1: LedgerView, i: int)
    requires
        v0.wf(),
        0 <= i < v0.profiles.len(),
        v1.config == v0.config,
        v1.matches == v0.matches,
        v1.profiles.len() == v0.profiles.len(),
        v1.profiles[i].authority == v0.profiles[i].authority,
        forall|j: int| 0 <= j < v0.profiles.len() && j != i ==> v1.profiles[j] == v0.profiles[j],
    ensures
        v1.wf(),
        v1.profiles =~= v0.profiles.update(i, v1.profiles[i]),
{
    assert forall|a: int, b: int| 0 <= a < b < v1.profiles.len() implies v1.profiles[a].authority
        != v1.profiles[b].authority by {
        assert(v0.profiles[a].authority != v0.profiles[b].authority);
    }
}

impl Ledger {
    /// A deployment with no record yet.
    pub fn new() -> (r: Ledger)
        ensures
            r@ == LedgerView::empty(),
            r@.wf(),
    {
        Ledger { config: None, profiles: Vec::new(), matches: Vec::new() }
    }

    /// The configuration record, once it exists.
    pub fn config(&self) -> (r: Option<Config>)
        ensures
            r == self@.config,
    {
        self.config
    }

    /// Every profile, in order of creation.
    pub fn profiles(&self) -> (r: &Vec<Profile>)
        ensures
            r@ == self@.profiles,
    {
        &self.profiles
    }

    /// Every match, in order of creation.
    pub fn matches(&self) -> (r: &Vec<Match>)
        ensures
            r@ == self@.matches,
    {
        &self.matches
    }

    /// Position of `owner`'s profile, if it has one.
    pub fn find_profile(&self, owner: &UserKey) -> (r: Option<usize>)
        ensures
            match r {
                Some(i) => i < self@.profiles.len() && self@.profiles[i as int].authority == *owner,
                None => !self@.has_profile(*owner),
            },
    {
        let mut i: usize = 0;
        while i < self.profiles.len()
            invariant
                0 <= i <= self.profiles@.len(),
                forall|j: int| 0 <= j < i ==> self.profiles@[j].authority != *owner,
            decreases self.profiles@.len() - i,
        {
            if self.profiles[i].authority == *owner {
                return Some(i);
            }
            i = i + 1;
        }
        None
    }

    /// Whether a match of the ordered pair `(user1, user2)` exists.
    pub fn contains_match(&self, user1: &UserKey, user2: &UserKey) -> (r: bool)
        ensures
            r == self@.has_match(*user1, *user2),
    {
        let mut i: usize = 0;
        while i < self.matches.len()
            invariant
                0 <= i <= self.matches@.len(),
                forall|j: int|
                    0 <= j < i ==> !(self.matches@[j].user1 == *user1 && self.matches@[j].user2
                        == *user2),
            decreases self.matches@.len() - i,
        {
            let same_first = self.matches[i].user1 == *user1;
            let same_second = self.matches[i].user2 == *user2;
            if same_first && same_second {
                assert(self@.matches[i as int] == self.matches@[i as int]);
                assert(self@.has_match(*user1, *user2));
                return true;
            }
            i = i + 1;
        }
        false
    }
}

/// Creates the configuration record with the default tiers, `ctx.authority`
/// as its authority; fails where it exists already.
pub fn initialize(ledger: &mut Ledger, ctx: &Initialize) -> (r: Result<(), ErrorCode>)
    requires
        old(ledger)@.wf(),
    ensures
        final(ledger)@.wf(),
        (final(ledger)@, r) == spec_initialize(old(ledger)@, *ctx),
{
    if ledger.config.is_some() {
        return Err(ErrorCode::AccountAlreadyExists);
    }
    ledger.config = Some(Config::initialize(ctx.authority, ctx.config_bump));
    assert(ledger@.matches == old(ledger)@.matches);
    Ok(())
}

/// Registers the profile of `ctx.authority` at `now` and counts one more
/// user; the two happen together or not at all.
pub fn create_profile(
    ledger: &mut Ledger,
    ctx: &CreateProfile,
    username: String,
    interests: Vec<Interest>,
    now: i64,
) -> (r: Result<(), ErrorCode>)
    requires
        old(ledger)@.wf(),
    ensures
        final(ledger)@.wf(),
        (final(ledger)@, r) == spec_create_profile(old(ledger)@, *ctx, username, interests, now),
{
    match check_profile_input(&username, &interests) {
        Ok(()) => {},
        Err(e) => return Err(e),
    }
    let mut config = match ledger.config {
        Some(c) => c,
        None => return Err(ErrorCode::AccountNotFound),
    };
    if ledger.find_profile(&ctx.authority).is_some() {
        return Err(ErrorCode::AccountAlreadyExists);
    }
    match config.register_user() {
        Ok(()) => {},
        Err(e) => return Err(e),
    }
    ledger.config = Some(config);
    let ghost v0 = ledger@;
    ledger.profiles.push(Profile::new(ctx.authority, username, interests, now, ctx.profile_bump));
    proof {
        assert forall|j: int| 0 <= j < v0.profiles.len() implies v0.profiles[j].authority
            != ctx.authority by {
            if v0.profiles[j].authority == ctx.authority {
                assert(v0.has_profile(ctx.authority));
            }
        }
        assert(ledger@.profiles =~= v0.profiles.push(ledger@.profiles.last()));
    }
    Ok(())
}

/// Activates premium for the owner of `ctx` in `tier` at `now`, where the
/// profile is not premium yet and the tier has room. `paid` is whether the
/// transfer of the tier's price to the configuration account went through;
/// on success the result is that price.
pub fn subscribe_initial(
    ledger: &mut Ledger,
    ctx: &SubscribeInitial,
    tier: SubscriptionType,
    now: i64,
    paid: bool,
) -> (r: Result<u64, ErrorCode>)
    requires
        old(ledger)@.wf(),
    ensures
        final(ledger)@.wf(),
        (final(ledger)@, r) == spec_subscribe_initial(old(ledger)@, *ctx, tier, now, paid),
{
    let config = match ledger.config {
        Some(c) => c,
        None => return Err(ErrorCode::AccountNotFound),
    };
    let i = match ledger.find_profile(&ctx.authority) {
        Some(i) => i,
        None => return Err(ErrorCode::AccountNotFound),
    };
    proof {
        lemma_profile_pos(ledger@, ctx.authority, i as int);
    }
    let price = match initial_price(&ledger.profiles[i], &config, tier) {
        Ok(p) => p,
        Err(e) => return Err(e),
    };
    if !paid {
        return Err(ErrorCode::TransferFailed);
    }
    let ghost v0 = ledger@;
    let res = ledger.profiles[i].activate_initial(now);
    proof {
        lemma_profile_updated(v0, ledger@, i as int);
        if res is Err {
            assert(ledger@.profiles =~= v0.profiles);
        }
    }
    match res {
        Ok(()) => Ok(price),
        Err(e) => Err(e),
    }
}

/// Renews premium by one month for the owner of `ctx` at `now`. `paid` is
/// whether the transfer of the monthly price to the configuration account
/// went through; on success the result is that price.
pub fn subscribe_monthly(ledger: &mut Ledger, ctx: &SubscribeMonthly, now: i64, paid: bool) -> (r: Result<
    u64,
    ErrorCode,
>)
    requires
        old(ledger)@.wf(),
    ensures
        final(ledger)@.wf(),
        (final(ledger)@, r) == spec_subscribe_monthly(old(ledger)@, *ctx, now, paid),
{
    let config = match ledger.config {
        Some(c) => c,
        None => return Err(ErrorCode::AccountNotFound),
    };
    let i = match ledger.find_profile(&ctx.authority) {
        Some(i) => i,
        None => return Err(ErrorCode::AccountNotFound),
    };
    proof {
        lemma_profile_pos(ledger@, ctx.authority, i as int);
    }
    if !paid {
        return Err(ErrorCode::TransferFailed);
    }
    let ghost v0 = ledger@;
    let res = ledger.profiles[i].renew_monthly(now);
    proof {
        lemma_profile_updated(v0, ledger@, i as int);
        if res is Err {
            assert(ledger@.profiles =~= v0.profiles);
        }
    }
    match res {
        Ok(()) => Ok(config.monthly_price),
        Err(e) => Err(e),
    }
}

/// Records a match of the ordered pair `(ctx.user1, ctx.user2)` at `now`;
/// fails where that exact pair has one. `(a, b)` and `(b, a)` are
/// different pairs.
pub fn create_match(ledger: &mut Ledger, ctx: &CreateMatch, now: i64) -> (r: Result<(), ErrorCode>)
    requires
        old(ledger)@.wf(),
    ensures
        final(ledger)@.wf(),
        (final(ledger)@, r) == spec_create_match(old(ledger)@, *ctx, now),
{
    if ledger.contains_match(&ctx.user1, &ctx.user2) {
        return Err(ErrorCode::AccountAlreadyExists);
    }
    let ghost v0 = ledger@;
    ledger.matches.push(Match::new(ctx.user1, ctx.user2, now, ctx.match_bump));
    proof {
        assert forall|j: int| 0 <= j < v0.matches.len() implies !(v0.matches[j].user1 == ctx.user1
            && v0.matches[j].user2 == ctx.user2) by {
            if v0.matches[j].user1 == ctx.user1 && v0.matches[j].user2 == ctx.user2 {
                assert(v0.has_match(ctx.user1, ctx.user2));
            }
        }
        assert(ledger@.matches =~= v0.matches.push(ledger@.matches.last()));
    }
    Ok(())
}

} // verus!
