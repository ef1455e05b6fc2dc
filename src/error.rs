use vstd::prelude::*;

verus! {

/// Every failure the fee and swap core can report.
#[derive(Clone, Copy, Debug, PartialEq, Eq, Structural)]
pub enum PoolError {
    MathOverflow,
    TypeCastFailed,
    UndeterminedError,
    InvalidFee,
    InvalidBaseFeeMode,
    InvalidFeeTimeScheduler,
    InvalidFeeMarketCapScheduler,
    ExceedMaxFeeBps,
    InvalidPoolVersion,
    AmountIsZero,
    ExceededSlippage,
    InvalidInput,
    FailToValidateSingleSwapInstruction,
}

} // verus!
