use vstd::prelude::*;

verus! {

/// Identity of a user or signer: the 32 bytes of its public key.
#[derive(Clone, Copy, Debug)]
pub struct UserKey {
    pub bytes: [u8; 32],
}

impl PartialEq for UserKey {
    fn eq(&self, other: &UserKey) -> (r: bool) {
        let mut i: usize = 0;
        while i < 32
            invariant
                0 <= i <= 32,
                forall|j: int| 0 <= j < i ==> self.bytes[j] == other.bytes[j],
            decreases 32 - i,
        {
            if self.bytes[i] != other.bytes[i] {
                return false;
            }
            i = i + 1;
        }
        assert(self.bytes =~= other.bytes);
        true
    }
}

impl vstd::std_specs::cmp::PartialEqSpecImpl for UserKey {
    open spec fn obeys_eq_spec() -> bool {
        true
    }

    open spec fn eq_spec(&self, other: &UserKey) -> bool {
        *self == *other
    }
}

impl Eq for UserKey {
}

/// Interest tags a profile may list.
#[derive(Clone, Copy, Debug, PartialEq, Eq, Structural)]
pub enum Interest {
    Friends,
    Love,
    Sex,
    Crypto,
    Passion,
}

/// The two initial subscription pricing and capacity classes.
#[derive(Clone, Copy, Debug, PartialEq, Eq, Structural)]
pub enum SubscriptionType {
    EarlyBird,
    Regular,
}

/// Every way an operation can abort; an abort leaves all state unchanged.
#[derive(Clone, Copy, Debug, PartialEq, Eq, Structural)]
pub enum ErrorCode {
    UsernameTooLong,
    TooManyInterests,
    AlreadyPremium,
    EarlyBirdLimitReached,
    RegularLimitReached,
    /// A record already exists at the derived address being created.
    AccountAlreadyExists,
    /// No record exists at the derived address being accessed.
    AccountNotFound,
    /// The value transfer that pays for a subscription did not go through.
    TransferFailed,
    /// A counter or a timestamp would leave the range of its type.
    ArithmeticOverflow,
}


/// Largest number of characters a username may hold.
pub const MAX_USERNAME_CHARS: usize = 32;

/// Largest number of interest tags a profile may hold.
pub const MAX_INTERESTS: usize = 5;

/// Capacity of the early-bird tier, in registered users.
pub const DEFAULT_EARLY_BIRD_LIMIT: u32 = 2000;

/// Capacity of the regular tier, in registered users.
pub const DEFAULT_REGULAR_LIMIT: u32 = 5000;

/// Early-bird price, in the smallest currency unit (0.1 of the native coin).
pub const DEFAULT_EARLY_BIRD_PRICE: u64 = 100_000_000;

/// Regular price, in the smallest currency unit (0.2 of the native coin).
pub const DEFAULT_REGULAR_PRICE: u64 = 200_000_000;

/// Monthly renewal price, in the smallest currency unit (0.05 of the native coin).
pub const DEFAULT_MONTHLY_PRICE: u64 = 50_000_000;

/// Length of an initial subscription: six 30-day months, in seconds.
pub const INITIAL_PERIOD_SECS: i64 = 6 * 30 * 24 * 60 * 60;

/// Length of a monthly renewal: 30 days, in seconds.
pub const MONTHLY_PERIOD_SECS: i64 = 30 * 24 * 60 * 60;

/// The singleton configuration record: tier prices and capacities, and the
/// running count of registered users. The record's own account also
/// collects every subscription payment.
#[derive(Clone, Copy, Debug)]
pub struct Config {
    pub authority: UserKey,
    pub total_users: u32,
    pub early_bird_limit: u32,
    pub regular_limit: u32,
    pub early_bird_price: u64,
    pub regular_price: u64,
    pub monthly_price: u64,
    pub bump: u8,
}

/// One user's profile record. `is_premium` means that premium was activated
/// at some point; `premium_until` is the authoritative expiry.
#[derive(Clone, Debug)]
pub struct Profile {
    pub authority: UserKey,
    pub username: String,
    pub interests: Vec<Interest>,
    pub is_premium: bool,
    pub premium_until: i64,
    pub created_at: i64,
    pub bump: u8,
}

/// A match record for the ordered pair `(user1, user2)`.
#[derive(Clone, Copy, Debug)]
pub struct Match {
    pub user1: UserKey,
    pub user2: UserKey,
    pub created_at: i64,
    pub is_active: bool,
    pub bump: u8,
}

/// The configuration that `initialize` creates for `authority`.
pub open spec fn spec_default_config(authority: UserKey, bump: u8) -> Config {
    Config {
        authority,
        total_users: 0,
        early_bird_limit: DEFAULT_EARLY_BIRD_LIMIT,
        regular_limit: DEFAULT_REGULAR_LIMIT,
        early_bird_price: DEFAULT_EARLY_BIRD_PRICE,
        regular_price: DEFAULT_REGULAR_PRICE,
        monthly_price: DEFAULT_MONTHLY_PRICE,
        bump,
    }
}

/// Why profile input is rejected, if it is: the username is checked first.
pub open spec fn spec_profile_input_error(username: Seq<char>, interests: Seq<Interest>) -> Option<ErrorCode> {
    if username.len() > MAX_USERNAME_CHARS {
        Some(ErrorCode::UsernameTooLong)
    } else if interests.len() > MAX_INTERESTS {
        Some(ErrorCode::TooManyInterests)
    } else {
        None
    }
}

/// What an initial subscription to `tier` costs, or why it is refused.
pub open spec fn spec_initial_price(
    is_premium: bool,
    config: Config,
    tier: SubscriptionType,
) -> Result<u64, ErrorCode> {
    if is_premium {
        Err(ErrorCode::AlreadyPremium)
    } else {
        match tier {
            SubscriptionType::EarlyBird => if config.total_users < config.early_bird_limit {
                Ok(config.early_bird_price)
            } else {
                Err(ErrorCode::EarlyBirdLimitReached)
            },
            SubscriptionType::Regular => if config.total_users < config.regular_limit {
                Ok(config.regular_price)
            } else {
                Err(ErrorCode::RegularLimitReached)
            },
        }
    }
}

/// The expiry after a monthly renewal at `now`: a lapsed window restarts at
/// `now`, a running one is extended from its end.
pub open spec fn spec_renewed_until(premium_until: int, now: int) -> int {
    if premium_until < now {
        now + MONTHLY_PERIOD_SECS
    } else {
        premium_until + MONTHLY_PERIOD_SECS
    }
}

/// Whether `x` fits in an `i64`.
pub open spec fn fits_i64(x: int) -> bool {
    i64::MIN <= x <= i64::MAX
}

impl Config {
    /// The configuration of a fresh deployment: `authority` as deployer,
    /// no users yet, and the default tier capacities and prices.
    pub fn initialize(authority: UserKey, bump: u8) -> (r: Config)
        ensures
            r == spec_default_config(authority, bump),
    {
        Config {
            authority,
            total_users: 0,
            early_bird_limit: DEFAULT_EARLY_BIRD_LIMIT,
            regular_limit: DEFAULT_REGULAR_LIMIT,
            early_bird_price: DEFAULT_EARLY_BIRD_PRICE,
            regular_price: DEFAULT_REGULAR_PRICE,
            monthly_price: DEFAULT_MONTHLY_PRICE,
            bump,
        }
    }

    /// Counts one more registered user; fails, changing nothing, where the
    /// counter is at its maximum.
    pub fn register_user(&mut self) -> (r: Result<(), ErrorCode>)
        ensures
            old(self).total_users == u32::MAX ==> r == Err::<(), ErrorCode>(ErrorCode::ArithmeticOverflow)
                && *final(self) == *old(self),
            old(self).total_users < u32::MAX ==> r is Ok && *final(self) == (Config {
                total_users: (old(self).total_users + 1) as u32,
                ..*old(self)
            }),
    {
        if self.total_users == u32::MAX {
            return Err(ErrorCode::ArithmeticOverflow);
        }
        self.total_users = self.total_users + 1;
        Ok(())
    }
}

/// Checks a username and an interest list for a new profile.
pub fn check_profile_input(username: &String, interests: &Vec<Interest>) -> (r: Result<(), ErrorCode>)
    ensures
        r == match spec_profile_input_error(username@, interests@) {
            Some(e) => Err(e),
            None => Ok(()),
        },
{
    if username.as_str().unicode_len() > MAX_USERNAME_CHARS {
        return Err(ErrorCode::UsernameTooLong);
    }
    if interests.len() > MAX_INTERESTS {
        return Err(ErrorCode::TooManyInterests);
    }
    Ok(())
}

/// What an initial subscription of `profile` to `tier` costs under
/// `config`, or why it is refused.
pub fn initial_price(profile: &Profile, config: &Config, tier: SubscriptionType) -> (r: Result<u64, ErrorCode>)
    ensures
        r == spec_initial_price(profile.is_premium, *config, tier),
{
    if profile.is_premium {
        return Err(ErrorCode::AlreadyPremium);
    }
    match tier {
        SubscriptionType::EarlyBird => {
            if config.total_users < config.early_bird_limit {
                Ok(config.early_bird_price)
            } else {
                Err(ErrorCode::EarlyBirdLimitReached)
            }
        },
        SubscriptionType::Regular => {
            if config.total_users < config.regular_limit {
                Ok(config.regular_price)
            } else {
                Err(ErrorCode::RegularLimitReached)
            }
        },
    }
}

impl Profile {
    /// A fresh, non-premium profile created at `now`.
    pub fn new(authority: UserKey, username: String, interests: Vec<Interest>, now: i64, bump: u8) -> (r: Profile)
        ensures
            r == (Profile {
                authority,
                username,
                interests,
                is_premium: false,
                premium_until: 0,
                created_at: now,
                bump,
            }),
    {
        Profile { authority, username, interests, is_premium: false, premium_until: 0, created_at: now, bump }
    }

    /// Activates premium for the initial period starting at `now`; fails,
    /// changing nothing, where the expiry would not fit in an `i64`.
    pub fn activate_initial(&mut self, now: i64) -> (r: Result<(), ErrorCode>)
        ensures
            !fits_i64(now + INITIAL_PERIOD_SECS) ==> r == Err::<(), ErrorCode>(ErrorCode::ArithmeticOverflow)
                && *final(self) == *old(self),
            fits_i64(now + INITIAL_PERIOD_SECS) ==> r is Ok && *final(self) == (Profile {
                is_premium: true,
                premium_until: (now + INITIAL_PERIOD_SECS) as i64,
                ..*old(self)
            }),
    {
        if now > i64::MAX - INITIAL_PERIOD_SECS {
            return Err(ErrorCode::ArithmeticOverflow);
        }
        self.is_premium = true;
        self.premium_until = now + INITIAL_PERIOD_SECS;
        Ok(())
    }

    /// Renews premium by one month at `now`; fails, changing nothing, where
    /// the new expiry would not fit in an `i64`.
    pub fn renew_monthly(&mut self, now: i64) -> (r: Result<(), ErrorCode>)
        ensures
            !fits_i64(spec_renewed_until(old(self).premium_until as int, now as int))
                ==> r == Err::<(), ErrorCode>(ErrorCode::ArithmeticOverflow) && *final(self) == *old(self),
            fits_i64(spec_renewed_until(old(self).premium_until as int, now as int)) ==> r is Ok
                && *final(self) == (Profile {
                is_premium: true,
                premium_until: spec_renewed_until(old(self).premium_until as int, now as int) as i64,
                ..*old(self)
            }),
    {
        let base = if self.premium_until < now {
            now
        } else {
            self.premium_until
        };
        if base > i64::MAX - MONTHLY_PERIOD_SECS {
            return Err(ErrorCode::ArithmeticOverflow);
        }
        self.premium_until = base + MONTHLY_PERIOD_SECS;
        self.is_premium = true;
        Ok(())
    }
}

impl Match {
    /// An active match of the ordered pair `(user1, user2)` created at `now`.
    pub fn new(user1: UserKey, user2: UserKey, now: i64, bump: u8) -> (r: Match)
        ensures
            r == (Match { user1, user2, created_at: now, is_active: true, bump }),
    {
        Match { user1, user2, created_at: now, is_active: true, bump }
    }
}

} // verus!
