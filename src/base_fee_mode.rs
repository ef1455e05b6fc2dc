use vstd::prelude::*;

verus! {

/// Which fee schedule a record holds, as stored in its one-byte tag.
#[derive(Clone, Copy, Debug, PartialEq, Eq, Structural)]
pub enum BaseFeeMode {
    /// `fee = cliff_fee_numerator - period * reduction_factor`, periods counted in time.
    FeeTimeSchedulerLinear,
    /// `fee = cliff_fee_numerator * (1 - reduction_factor / 10_000) ^ period`, periods counted in time.
    FeeTimeSchedulerExponential,
    /// A surcharge that grows with the trade size, for a short window after activation.
    RateLimiter,
    /// Linear decay, periods counted in price growth.
    FeeMarketCapSchedulerLinear,
    /// Exponential decay, periods counted in price growth.
    FeeMarketCapSchedulerExponential,
}

/// The mode that a tag byte names, if any.
pub open spec fn base_fee_mode_from_byte(b: u8) -> Option<BaseFeeMode> {
    if b == 0 {
        Some(BaseFeeMode::FeeTimeSchedulerLinear)
    } else if b == 1 {
        Some(BaseFeeMode::FeeTimeSchedulerExponential)
    } else if b == 2 {
        Some(BaseFeeMode::RateLimiter)
    } else if b == 3 {
        Some(BaseFeeMode::FeeMarketCapSchedulerLinear)
    } else if b == 4 {
        Some(BaseFeeMode::FeeMarketCapSchedulerExponential)
    } else {
        None
    }
}

impl BaseFeeMode {
    /// The tag byte of the mode.
    pub open spec fn spec_to_u8(self) -> u8 {
        match self {
            BaseFeeMode::FeeTimeSchedulerLinear => 0,
            BaseFeeMode::FeeTimeSchedulerExponential => 1,
            BaseFeeMode::RateLimiter => 2,
            BaseFeeMode::FeeMarketCapSchedulerLinear => 3,
            BaseFeeMode::FeeMarketCapSchedulerExponential => 4,
        }
    }

    pub open spec fn is_time_scheduler(self) -> bool {
        self is FeeTimeSchedulerLinear || self is FeeTimeSchedulerExponential
    }

    pub open spec fn is_market_cap_scheduler(self) -> bool {
        self is FeeMarketCapSchedulerLinear || self is FeeMarketCapSchedulerExponential
    }

    pub fn to_u8(self) -> (r: u8)
        ensures
            r == self.spec_to_u8(),
            base_fee_mode_from_byte(r) == Some(self),
    {
        match self {
            BaseFeeMode::FeeTimeSchedulerLinear => 0,
            BaseFeeMode::FeeTimeSchedulerExponential => 1,
            BaseFeeMode::RateLimiter => 2,
            BaseFeeMode::FeeMarketCapSchedulerLinear => 3,
            BaseFeeMode::FeeMarketCapSchedulerExponential => 4,
        }
    }

    pub fn try_from_u8(b: u8) -> (r: Option<BaseFeeMode>)
        ensures
            r == base_fee_mode_from_byte(b),
            r matches Some(m) ==> m.spec_to_u8() == b,
    {
        match b {
            0 => Some(BaseFeeMode::FeeTimeSchedulerLinear),
            1 => Some(BaseFeeMode::FeeTimeSchedulerExponential),
            2 => Some(BaseFeeMode::RateLimiter),
            3 => Some(BaseFeeMode::FeeMarketCapSchedulerLinear),
            4 => Some(BaseFeeMode::FeeMarketCapSchedulerExponential),
            _ => None,
        }
    }
}

/// Who receives the fees of a pool.
#[derive(Clone, Copy, Debug, PartialEq, Eq, Structural)]
pub enum CollectFeeMode {
    BothToken,
    OnlyB,
}

/// Whether a pool's logical clock counts slots or seconds.
#[derive(Clone, Copy, Debug, PartialEq, Eq, Structural)]
pub enum ActivationType {
    Slot,
    Timestamp,
}

/// Which of the pool's two tokens is sold.
#[derive(Clone, Copy, Debug, PartialEq, Eq, Structural)]
pub enum TradeDirection {
    AtoB,
    BtoA,
}

} // verus!
