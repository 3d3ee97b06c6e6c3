//! The fixed parameters of the pool. Token amounts are in base units of a
//! token with six decimals.

use vstd::prelude::*;

verus! {

/// Least principal of the Gold tier: 10 million tokens.
pub const GOLD_MIN: u64 = 10_000_000_000_000;

/// Largest whole-token principal of the Gold tier.
pub const GOLD_MAX: u64 = 99_999_999_000_000;

/// Yearly yield of the Gold tier, in basis points.
pub const GOLD_APY_BPS: u16 = 50;

/// Least principal of the Titanium tier: 100 million tokens.
pub const TITANIUM_MIN: u64 = 100_000_000_000_000;

/// Largest whole-token principal of the Titanium tier.
pub const TITANIUM_MAX: u64 = 999_999_999_000_000;

/// Yearly yield of the Titanium tier, in basis points.
pub const TITANIUM_APY_BPS: u16 = 75;

/// Least principal of the Infinite tier: 1 billion tokens.
pub const INFINITE_MIN: u64 = 1_000_000_000_000_000;

/// Yearly yield of the Infinite tier, in basis points.
pub const INFINITE_APY_BPS: u16 = 100;

/// Length of the year over which a yearly yield accrues, in seconds.
pub const SECONDS_PER_YEAR: u64 = 31_536_000;

/// Basis points in one whole.
pub const BASIS_POINTS: u64 = 10_000;

/// Seconds in one day.
pub const SECONDS_PER_DAY: i64 = 86_400;

/// Time for which every deposit locks the whole position: seven days.
pub const STAKE_LOCK_DURATION: i64 = 604_800;

/// Delay between proposing a new authority and accepting it: 48 hours.
pub const ADMIN_TIMELOCK_DURATION: i64 = 172_800;

/// A withdrawal within this many whole days of the last deposit pays the full penalty.
pub const FULL_PENALTY_DAYS: i64 = 30;

/// A withdrawal within this many whole days of the last deposit pays the reduced penalty.
pub const REDUCED_PENALTY_DAYS: i64 = 90;

/// The full withdrawal penalty, in basis points.
pub const FULL_PENALTY_BPS: u64 = 200;

/// The reduced withdrawal penalty, in basis points.
pub const REDUCED_PENALTY_BPS: u64 = 100;

} // verus!
