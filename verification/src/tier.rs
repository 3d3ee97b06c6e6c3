//! The tier of a principal and the yield that the tier earns.

use crate::error::StakingError;
use crate::params::{
    GOLD_APY_BPS, GOLD_MIN, INFINITE_APY_BPS, INFINITE_MIN, TITANIUM_APY_BPS, TITANIUM_MIN,
};
use vstd::prelude::*;

verus! {

/// The tier of a principal: 0 below the Gold minimum, 1 (Gold) from there up to
/// the Titanium minimum, 2 (Titanium) from there up to the Infinite minimum,
/// and 3 (Infinite) from there on.
pub open spec fn tier_of(amount: u64) -> u8 {
    if amount >= INFINITE_MIN {
        3
    } else if amount >= TITANIUM_MIN {
        2
    } else if amount >= GOLD_MIN {
        1
    } else {
        0
    }
}

/// The yearly yield of a principal's tier in basis points; none below the Gold
/// minimum.
pub open spec fn rate_of(amount: u64) -> Option<u16> {
    if amount >= INFINITE_MIN {
        Some(INFINITE_APY_BPS)
    } else if amount >= TITANIUM_MIN {
        Some(TITANIUM_APY_BPS)
    } else if amount >= GOLD_MIN {
        Some(GOLD_APY_BPS)
    } else {
        None
    }
}

/// A principal has a yield exactly when it has a tier, and no yield is above
/// one percent.
pub proof fn lemma_rate_follows_tier(amount: u64)
    ensures
        rate_of(amount) is Some <==> tier_of(amount) != 0,
        rate_of(amount) is Some <==> amount >= GOLD_MIN,
        rate_of(amount) matches Some(bps) ==> 0 < bps <= 100,
{
}

/// A larger principal has no lower tier and no lower yield.
pub proof fn lemma_tier_monotonic(amount: u64, more: u64)
    requires
        amount <= more,
    ensures
        tier_of(amount) <= tier_of(more),
        rate_of(amount) matches Some(bps) ==> rate_of(more) matches Some(higher) && bps <= higher,
{
}

/// Classifies a principal.
pub fn get_tier(amount: u64) -> (r: Result<u8, StakingError>)
    ensures
        r == Ok::<u8, StakingError>(tier_of(amount)),
{
    if amount >= INFINITE_MIN {
        Ok(3)
    } else if amount >= TITANIUM_MIN {
        Ok(2)
    } else if amount >= GOLD_MIN {
        Ok(1)
    } else {
        Ok(0)
    }
}

/// Looks up the yearly yield of a principal, in basis points. Below the Gold
/// minimum there is none, and the lookup fails.
pub fn get_tier_apy(amount: u64) -> (r: Result<u16, StakingError>)
    ensures
        r == match rate_of(amount) {
            Some(bps) => Ok::<u16, StakingError>(bps),
            None => Err::<u16, StakingError>(StakingError::AmountTooLow),
        },
{
    if amount >= INFINITE_MIN {
        Ok(INFINITE_APY_BPS)
    } else if amount >= TITANIUM_MIN {
        Ok(TITANIUM_APY_BPS)
    } else if amount >= GOLD_MIN {
        Ok(GOLD_APY_BPS)
    } else {
        Err(StakingError::AmountTooLow)
    }
}

} // verus!
