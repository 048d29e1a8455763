//! Account state machine of a social/dating application: a global
//! configuration with a user counter, per-user profiles with a premium
//! subscription lifecycle, and ordered-pair match records.
//!
//! `records` holds the record types and the rules on a single record,
//! `ledger` the key-addressed store of every record with the five
//! operations as atomic transitions, and `laws` what holds across them.
//! The host's clock and its value transfer stay outside: each operation
//! takes the current time, and a subscription takes whether its payment
//! went through.

pub mod laws;
pub mod ledger;
pub mod records;

pub use ledger::{
    create_match, create_profile, initialize, subscribe_initial, subscribe_monthly, CreateMatch,
    CreateProfile, Initialize, Ledger, LedgerView, SubscribeInitial, SubscribeMonthly,
};
pub use records::{
    check_profile_input, initial_price, Config, ErrorCode, Interest, Match, Profile,
    SubscriptionType, UserKey,
};
