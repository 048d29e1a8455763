use frenschain::{
    check_profile_input, create_match, create_profile, initial_price, initialize,
    subscribe_initial, subscribe_monthly, Config, CreateMatch, CreateProfile, ErrorCode,
    Initialize, Interest, Ledger, Profile, SubscribeInitial, SubscribeMonthly, SubscriptionType,
    UserKey,
};

fn key(b: u8) -> UserKey {
    UserKey { bytes: [b; 32] }
}

fn deployed() -> Ledger {
    let mut ledger = Ledger::new();
    let ctx = Initialize { authority: key(0), config_bump: 254 };
    assert_eq!(initialize(&mut ledger, &ctx), Ok(()));
    ledger
}

fn register(ledger: &mut Ledger, b: u8, now: i64) -> Result<(), ErrorCode> {
    let ctx = CreateProfile { authority: key(b), profile_bump: 250 };
    create_profile(ledger, &ctx, format!("user{}", b), vec![Interest::Friends], now)
}

fn profile_of(ledger: &Ledger, b: u8) -> &Profile {
    let i = ledger.find_profile(&key(b)).unwrap();
    &ledger.profiles()[i]
}

fn total_users(ledger: &Ledger) -> u32 {
    ledger.config().unwrap().total_users
}

#[test]
fn initialize_sets_defaults() {
    let ledger = deployed();
    let c = ledger.config().unwrap();
    assert!(c.authority == key(0));
    assert_eq!(c.total_users, 0);
    assert_eq!(c.early_bird_limit, 2000);
    assert_eq!(c.regular_limit, 5000);
    assert_eq!(c.early_bird_price, 100_000_000);
    assert_eq!(c.regular_price, 200_000_000);
    assert_eq!(c.monthly_price, 50_000_000);
    assert_eq!(c.bump, 254);
}

#[test]
fn initialize_twice_fails() {
    let mut ledger = deployed();
    let ctx = Initialize { authority: key(9), config_bump: 1 };
    assert_eq!(initialize(&mut ledger, &ctx), Err(ErrorCode::AccountAlreadyExists));
    assert!(ledger.config().unwrap().authority == key(0));
    assert_eq!(ledger.config().unwrap().bump, 254);
}

#[test]
fn create_profile_sets_fields() {
    let mut ledger = deployed();
    let ctx = CreateProfile { authority: key(1), profile_bump: 7 };
    let interests = vec![Interest::Love, Interest::Crypto, Interest::Love];
    assert_eq!(create_profile(&mut ledger, &ctx, "alice".to_string(), interests, 1_700_000_000), Ok(()));
    let p = profile_of(&ledger, 1);
    assert_eq!(p.username, "alice");
    assert_eq!(p.interests, vec![Interest::Love, Interest::Crypto, Interest::Love]);
    assert!(!p.is_premium);
    assert_eq!(p.premium_until, 0);
    assert_eq!(p.created_at, 1_700_000_000);
    assert_eq!(p.bump, 7);
    assert_eq!(total_users(&ledger), 1);
}

#[test]
fn username_of_33_chars_is_too_long() {
    let mut ledger = deployed();
    let ctx = CreateProfile { authority: key(1), profile_bump: 1 };
    let name = "a".repeat(33);
    assert_eq!(create_profile(&mut ledger, &ctx, name, vec![], 0), Err(ErrorCode::UsernameTooLong));
    assert_eq!(total_users(&ledger), 0);
    assert!(ledger.profiles().is_empty());
}

#[test]
fn username_of_32_chars_is_accepted() {
    let mut ledger = deployed();
    let ctx = CreateProfile { authority: key(1), profile_bump: 1 };
    let name = "b".repeat(32);
    assert_eq!(create_profile(&mut ledger, &ctx, name, vec![], 0), Ok(()));
    assert_eq!(total_users(&ledger), 1);
}

#[test]
fn empty_username_is_accepted() {
    let mut ledger = deployed();
    let ctx = CreateProfile { authority: key(1), profile_bump: 1 };
    assert_eq!(create_profile(&mut ledger, &ctx, String::new(), vec![], 0), Ok(()));
}

#[test]
fn username_length_counts_characters() {
    // 32 two-byte characters: 64 bytes, but 32 characters.
    let name = "é".repeat(32);
    assert_eq!(check_profile_input(&name, &vec![]), Ok(()));
    let longer = "é".repeat(33);
    assert_eq!(check_profile_input(&longer, &vec![]), Err(ErrorCode::UsernameTooLong));
}

#[test]
fn six_interests_are_too_many() {
    let mut ledger = deployed();
    let ctx = CreateProfile { authority: key(1), profile_bump: 1 };
    let interests = vec![
        Interest::Friends,
        Interest::Love,
        Interest::Sex,
        Interest::Crypto,
        Interest::Passion,
        Interest::Friends,
    ];
    assert_eq!(create_profile(&mut ledger, &ctx, "bob".to_string(), interests, 0), Err(ErrorCode::TooManyInterests));
    assert_eq!(total_users(&ledger), 0);
}

#[test]
fn five_duplicate_interests_are_accepted() {
    let mut ledger = deployed();
    let ctx = CreateProfile { authority: key(1), profile_bump: 1 };
    let interests = vec![Interest::Sex; 5];
    assert_eq!(create_profile(&mut ledger, &ctx, "bob".to_string(), interests, 0), Ok(()));
    assert_eq!(profile_of(&ledger, 1).interests.len(), 5);
}

#[test]
fn long_username_is_reported_before_interests() {
    let name = "c".repeat(40);
    let interests = vec![Interest::Love; 6];
    assert_eq!(check_profile_input(&name, &interests), Err(ErrorCode::UsernameTooLong));
}

#[test]
fn create_profile_before_initialize_fails() {
    let mut ledger = Ledger::new();
    assert_eq!(register(&mut ledger, 1, 0), Err(ErrorCode::AccountNotFound));
    assert!(ledger.profiles().is_empty());
}

#[test]
fn create_profile_twice_fails() {
    let mut ledger = deployed();
    assert_eq!(register(&mut ledger, 1, 0), Ok(()));
    assert_eq!(register(&mut ledger, 1, 5), Err(ErrorCode::AccountAlreadyExists));
    assert_eq!(total_users(&ledger), 1);
    assert_eq!(profile_of(&ledger, 1).created_at, 0);
}

#[test]
fn total_users_counts_successful_creations() {
    let mut ledger = deployed();
    let mut last: u32 = 0;
    for b in 1..=10u8 {
        assert_eq!(register(&mut ledger, b, b as i64), Ok(()));
        let _ = register(&mut ledger, b, 0);
        let t = total_users(&ledger);
        assert!(t >= last);
        last = t;
    }
    assert_eq!(total_users(&ledger), 10);
    assert_eq!(ledger.profiles().len(), 10);
}

#[test]
fn counter_at_maximum_overflows() {
    let mut c = Config::initialize(key(0), 1);
    c.total_users = u32::MAX;
    assert_eq!(c.register_user(), Err(ErrorCode::ArithmeticOverflow));
    assert_eq!(c.total_users, u32::MAX);
    c.total_users = 41;
    assert_eq!(c.register_user(), Ok(()));
    assert_eq!(c.total_users, 42);
}

#[test]
fn early_bird_subscription_sets_six_months() {
    let mut ledger = deployed();
    register(&mut ledger, 1, 0).unwrap();
    let ctx = SubscribeInitial { authority: key(1) };
    let t0: i64 = 1_700_000_000;
    assert_eq!(subscribe_initial(&mut ledger, &ctx, SubscriptionType::EarlyBird, t0, true), Ok(100_000_000));
    let p = profile_of(&ledger, 1);
    assert!(p.is_premium);
    assert_eq!(p.premium_until, t0 + 15_552_000);
}

#[test]
fn regular_subscription_charges_regular_price() {
    let mut ledger = deployed();
    register(&mut ledger, 1, 0).unwrap();
    let ctx = SubscribeInitial { authority: key(1) };
    assert_eq!(subscribe_initial(&mut ledger, &ctx, SubscriptionType::Regular, 10, true), Ok(200_000_000));
    assert_eq!(profile_of(&ledger, 1).premium_until, 10 + 15_552_000);
}

#[test]
fn early_bird_at_limit_fails() {
    let mut ledger = deployed();
    register(&mut ledger, 1, 0).unwrap();
    let mut c = ledger.config().unwrap();
    c.total_users = c.early_bird_limit;
    let p = profile_of(&ledger, 1).clone();
    assert_eq!(initial_price(&p, &c, SubscriptionType::EarlyBird), Err(ErrorCode::EarlyBirdLimitReached));
    c.total_users = c.early_bird_limit - 1;
    assert_eq!(initial_price(&p, &c, SubscriptionType::EarlyBird), Ok(100_000_000));
}

fn wide_key(n: u16) -> UserKey {
    let mut bytes = [0u8; 32];
    bytes[0] = (n >> 8) as u8;
    bytes[1] = (n & 0xff) as u8;
    bytes[31] = 0xaa;
    UserKey { bytes }
}

fn register_wide(ledger: &mut Ledger, n: u16) {
    let ctx = CreateProfile { authority: wide_key(n), profile_bump: 1 };
    assert_eq!(create_profile(ledger, &ctx, format!("u{}", n), vec![], 0), Ok(()));
}

#[test]
fn early_bird_capacity_through_ledger() {
    let mut ledger = deployed();
    for n in 0..1999u16 {
        register_wide(&mut ledger, n);
    }
    assert_eq!(total_users(&ledger), 1999);
    let ctx = SubscribeInitial { authority: wide_key(0) };
    assert_eq!(subscribe_initial(&mut ledger, &ctx, SubscriptionType::EarlyBird, 5, true), Ok(100_000_000));

    register_wide(&mut ledger, 1999);
    assert_eq!(total_users(&ledger), 2000);
    let ctx = SubscribeInitial { authority: wide_key(1) };
    assert_eq!(
        subscribe_initial(&mut ledger, &ctx, SubscriptionType::EarlyBird, 5, true),
        Err(ErrorCode::EarlyBirdLimitReached)
    );
    let i = ledger.find_profile(&wide_key(1)).unwrap();
    assert!(!ledger.profiles()[i].is_premium);
    assert_eq!(ledger.profiles()[i].premium_until, 0);
    // The regular tier still has room.
    assert_eq!(subscribe_initial(&mut ledger, &ctx, SubscriptionType::Regular, 5, true), Ok(200_000_000));
}

#[test]
fn regular_at_limit_fails() {
    let mut c = Config::initialize(key(0), 1);
    c.total_users = 5000;
    let p = Profile::new(key(1), "x".to_string(), vec![], 0, 1);
    assert_eq!(initial_price(&p, &c, SubscriptionType::Regular), Err(ErrorCode::RegularLimitReached));
    assert_eq!(initial_price(&p, &c, SubscriptionType::EarlyBird), Err(ErrorCode::EarlyBirdLimitReached));
    c.total_users = 4999;
    assert_eq!(initial_price(&p, &c, SubscriptionType::Regular), Ok(200_000_000));
}

#[test]
fn already_premium_fails_whatever_the_expiry() {
    let mut ledger = deployed();
    register(&mut ledger, 1, 0).unwrap();
    let ctx = SubscribeInitial { authority: key(1) };
    subscribe_initial(&mut ledger, &ctx, SubscriptionType::EarlyBird, 100, true).unwrap();
    let before = profile_of(&ledger, 1).premium_until;
    // Long after expiry the flag still stands.
    assert_eq!(
        subscribe_initial(&mut ledger, &ctx, SubscriptionType::Regular, before + 1_000_000, true),
        Err(ErrorCode::AlreadyPremium)
    );
    assert_eq!(
        subscribe_initial(&mut ledger, &ctx, SubscriptionType::EarlyBird, 0, false),
        Err(ErrorCode::AlreadyPremium)
    );
    assert_eq!(profile_of(&ledger, 1).premium_until, before);
}

#[test]
fn monthly_after_lapse_restarts_at_now() {
    let mut ledger = deployed();
    register(&mut ledger, 1, 0).unwrap();
    let ctx = SubscribeMonthly { authority: key(1) };
    // premium_until is 0, which lies before now.
    assert_eq!(subscribe_monthly(&mut ledger, &ctx, 1_000, true), Ok(50_000_000));
    let p = profile_of(&ledger, 1);
    assert_eq!(p.premium_until, 1_000 + 2_592_000);
    assert!(p.is_premium);
}

#[test]
fn monthly_within_window_extends_it() {
    let mut ledger = deployed();
    register(&mut ledger, 1, 0).unwrap();
    let ctx = SubscribeMonthly { authority: key(1) };
    subscribe_monthly(&mut ledger, &ctx, 1_000, true).unwrap();
    let t = profile_of(&ledger, 1).premium_until;
    assert_eq!(subscribe_monthly(&mut ledger, &ctx, 2_000, true), Ok(50_000_000));
    assert_eq!(profile_of(&ledger, 1).premium_until, t + 2_592_000);
    // Exactly at the expiry the window still counts as running.
    let t2 = profile_of(&ledger, 1).premium_until;
    subscribe_monthly(&mut ledger, &ctx, t2, true).unwrap();
    assert_eq!(profile_of(&ledger, 1).premium_until, t2 + 2_592_000);
}

#[test]
fn monthly_after_initial_extends_it() {
    let mut ledger = deployed();
    register(&mut ledger, 1, 0).unwrap();
    subscribe_initial(&mut ledger, &SubscribeInitial { authority: key(1) }, SubscriptionType::EarlyBird, 50, true)
        .unwrap();
    subscribe_monthly(&mut ledger, &SubscribeMonthly { authority: key(1) }, 60, true).unwrap();
    assert_eq!(profile_of(&ledger, 1).premium_until, 50 + 15_552_000 + 2_592_000);
}

#[test]
fn renewal_overflow_changes_nothing() {
    let mut p = Profile::new(key(1), "x".to_string(), vec![], 0, 1);
    p.premium_until = i64::MAX - 10;
    assert_eq!(p.renew_monthly(0), Err(ErrorCode::ArithmeticOverflow));
    assert_eq!(p.premium_until, i64::MAX - 10);
    assert!(!p.is_premium);
    assert_eq!(p.activate_initial(i64::MAX), Err(ErrorCode::ArithmeticOverflow));
    assert_eq!(p.premium_until, i64::MAX - 10);
}

#[test]
fn failed_transfer_changes_nothing() {
    let mut ledger = deployed();
    register(&mut ledger, 1, 0).unwrap();
    let init = SubscribeInitial { authority: key(1) };
    let monthly = SubscribeMonthly { authority: key(1) };
    assert_eq!(
        subscribe_initial(&mut ledger, &init, SubscriptionType::EarlyBird, 100, false),
        Err(ErrorCode::TransferFailed)
    );
    assert_eq!(subscribe_monthly(&mut ledger, &monthly, 100, false), Err(ErrorCode::TransferFailed));
    let p = profile_of(&ledger, 1);
    assert!(!p.is_premium);
    assert_eq!(p.premium_until, 0);
    assert_eq!(total_users(&ledger), 1);
}

#[test]
fn subscription_without_profile_fails() {
    let mut ledger = deployed();
    assert_eq!(
        subscribe_initial(&mut ledger, &SubscribeInitial { authority: key(3) }, SubscriptionType::Regular, 0, true),
        Err(ErrorCode::AccountNotFound)
    );
    assert_eq!(
        subscribe_monthly(&mut ledger, &SubscribeMonthly { authority: key(3) }, 0, true),
        Err(ErrorCode::AccountNotFound)
    );
}

#[test]
fn match_order_gives_two_records() {
    let mut ledger = Ledger::new();
    let ab = CreateMatch { user1: key(1), user2: key(2), match_bump: 3 };
    let ba = CreateMatch { user1: key(2), user2: key(1), match_bump: 4 };
    assert_eq!(create_match(&mut ledger, &ab, 10), Ok(()));
    assert_eq!(create_match(&mut ledger, &ba, 20), Ok(()));
    assert_eq!(ledger.matches().len(), 2);
    let m0 = ledger.matches()[0];
    let m1 = ledger.matches()[1];
    assert!(m0.user1 == key(1) && m0.user2 == key(2));
    assert!(m1.user1 == key(2) && m1.user2 == key(1));
    assert_eq!(m0.created_at, 10);
    assert_eq!(m1.created_at, 20);
    assert!(m0.is_active && m1.is_active);
    assert_eq!(m0.bump, 3);
    assert!(ledger.contains_match(&key(1), &key(2)));
    assert!(ledger.contains_match(&key(2), &key(1)));
    assert!(!ledger.contains_match(&key(1), &key(1)));
}

#[test]
fn same_ordered_match_twice_fails() {
    let mut ledger = Ledger::new();
    let ab = CreateMatch { user1: key(1), user2: key(2), match_bump: 3 };
    assert_eq!(create_match(&mut ledger, &ab, 10), Ok(()));
    assert_eq!(create_match(&mut ledger, &ab, 11), Err(ErrorCode::AccountAlreadyExists));
    assert_eq!(ledger.matches().len(), 1);
    assert_eq!(ledger.matches()[0].created_at, 10);
}

#[test]
fn user_keys_compare_by_every_byte() {
    let a = key(5);
    let mut b = key(5);
    assert!(a == b);
    b.bytes[31] = 6;
    assert!(a != b);
    b.bytes[31] = 5;
    b.bytes[0] = 0;
    assert!(a != b);
}
