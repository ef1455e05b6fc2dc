use crate::error::PoolError;
use vstd::prelude::*;

verus! {

/// Denominator of every fee numerator.
pub const FEE_DENOMINATOR: u64 = 1_000_000_000;

/// Largest fee of a version-0 pool, in basis points (50%).
pub const MAX_FEE_BPS_V0: u64 = 5000;

/// Largest fee numerator of a version-0 pool (50%).
pub const MAX_FEE_NUMERATOR_V0: u64 = 500_000_000;

/// Largest fee of a version-1 pool, in basis points (99%).
pub const MAX_FEE_BPS_V1: u64 = 9900;

/// Largest fee numerator of a version-1 pool (99%).
pub const MAX_FEE_NUMERATOR_V1: u64 = 990_000_000;

/// One hundred percent in basis points.
pub const MAX_BASIS_POINT: u64 = 10_000;

/// Smallest fee, in basis points (0.01%).
pub const MIN_FEE_BPS: u64 = 1;

/// Smallest fee numerator (0.01%).
pub const MIN_FEE_NUMERATOR: u64 = 100_000;

/// The layout version that new pools are created with.
pub const CURRENT_POOL_VERSION: u8 = 1;

/// Fixed-point one in Q64.64.
pub const ONE_Q64: u128 = 0x1_0000_0000_0000_0000;

/// Fractional bits of a Q64.64 number.
pub const SCALE_OFFSET: u32 = 64;

/// The fee cap of a pool version, or the error for an unknown version.
pub open spec fn max_fee_numerator_of(pool_version: u8) -> Result<u64, PoolError> {
    if pool_version == 0 {
        Ok(MAX_FEE_NUMERATOR_V0)
    } else if pool_version == 1 {
        Ok(MAX_FEE_NUMERATOR_V1)
    } else {
        Err(PoolError::InvalidPoolVersion)
    }
}

/// The fee cap in basis points of a pool version, or the error for an unknown version.
pub open spec fn max_fee_bps_of(pool_version: u8) -> Result<u64, PoolError> {
    if pool_version == 0 {
        Ok(MAX_FEE_BPS_V0)
    } else if pool_version == 1 {
        Ok(MAX_FEE_BPS_V1)
    } else {
        Err(PoolError::InvalidPoolVersion)
    }
}

pub fn get_max_fee_numerator(pool_version: u8) -> (r: Result<u64, PoolError>)
    ensures
        r == max_fee_numerator_of(pool_version),
{
    match pool_version {
        0 => Ok(MAX_FEE_NUMERATOR_V0),
        1 => Ok(MAX_FEE_NUMERATOR_V1),
        _ => Err(PoolError::InvalidPoolVersion),
    }
}

pub fn get_max_fee_bps(pool_version: u8) -> (r: Result<u64, PoolError>)
    ensures
        r == max_fee_bps_of(pool_version),
{
    match pool_version {
        0 => Ok(MAX_FEE_BPS_V0),
        1 => Ok(MAX_FEE_BPS_V1),
        _ => Err(PoolError::InvalidPoolVersion),
    }
}

/// A fee fraction is proper when its denominator is positive and exceeds the numerator.
pub fn validate_fee_fraction(numerator: u64, denominator: u64) -> (r: Result<(), PoolError>)
    ensures
        r is Ok <==> (denominator != 0 && numerator < denominator),
        r matches Err(e) ==> e == PoolError::InvalidFee,
{
    if denominator == 0 || numerator >= denominator {
        Err(PoolError::InvalidFee)
    } else {
        Ok(())
    }
}

} // verus!
