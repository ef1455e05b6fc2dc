use crate::base_fee_mode::{base_fee_mode_from_byte, BaseFeeMode, CollectFeeMode, TradeDirection};
use crate::base_fee_serde::{BaseFeeEnumReader, BaseFeeInfo};
use crate::error::PoolError;
use crate::fee_rate_limiter::PodAlignedFeeRateLimiter;
use vstd::prelude::*;

verus! {

/// How the two amounts of a swap request are read.
#[derive(Clone, Copy, Debug, PartialEq, Eq, Structural)]
pub enum SwapMode {
    /// `amount_0` is sold in full; `amount_1` is the least acceptable output.
    ExactIn,
    /// Up to `amount_0` is sold as liquidity allows; `amount_1` is the least acceptable output.
    PartialFill,
    /// `amount_0` is the output wanted; `amount_1` is the most that may be sold.
    ExactOut,
}

/// The mode that a request byte names, if any.
pub open spec fn swap_mode_from_byte(b: u8) -> Option<SwapMode> {
    if b == 0 {
        Some(SwapMode::ExactIn)
    } else if b == 1 {
        Some(SwapMode::PartialFill)
    } else if b == 2 {
        Some(SwapMode::ExactOut)
    } else {
        None
    }
}

impl SwapMode {
    pub open spec fn spec_to_u8(self) -> u8 {
        match self {
            SwapMode::ExactIn => 0,
            SwapMode::PartialFill => 1,
            SwapMode::ExactOut => 2,
        }
    }

    pub fn to_u8(self) -> (r: u8)
        ensures
            r == self.spec_to_u8(),
            swap_mode_from_byte(r) == Some(self),
    {
        match self {
            SwapMode::ExactIn => 0,
            SwapMode::PartialFill => 1,
            SwapMode::ExactOut => 2,
        }
    }

    pub fn try_from_u8(b: u8) -> (r: Option<SwapMode>)
        ensures
            r == swap_mode_from_byte(b),
    {
        match b {
            0 => Some(SwapMode::ExactIn),
            1 => Some(SwapMode::PartialFill),
            2 => Some(SwapMode::ExactOut),
            _ => None,
        }
    }
}

/// The legacy request: sell `amount_in`, receive at least `minimum_amount_out`.
#[derive(Clone, Copy, Debug, PartialEq, Eq, Structural)]
pub struct SwapParameters {
    pub amount_in: u64,
    pub minimum_amount_out: u64,
}

/// The unified request.
#[derive(Clone, Copy, Debug, PartialEq, Eq, Default, Structural)]
pub struct SwapParameters2 {
    /// The amount sold (exact in, partial fill) or bought (exact out).
    pub amount_0: u64,
    /// The least output (exact in, partial fill) or the most input (exact out).
    pub amount_1: u64,
    /// The tag of a `SwapMode`.
    pub swap_mode: u8,
}

impl SwapParameters {
    /// The legacy request as an exact-input unified request.
    pub fn to_swap_parameters2(&self) -> (r: SwapParameters2)
        ensures
            r == (SwapParameters2 {
                amount_0: self.amount_in,
                amount_1: self.minimum_amount_out,
                swap_mode: SwapMode::ExactIn.spec_to_u8(),
            }),
    {
        SwapParameters2 {
            amount_0: self.amount_in,
            amount_1: self.minimum_amount_out,
            swap_mode: SwapMode::ExactIn.to_u8(),
        }
    }
}

/// Amounts of one swap as the curve and the fee split computed them.
#[derive(Clone, Copy, Debug, PartialEq, Eq, Default, Structural)]
pub struct SwapResult2 {
    pub included_fee_input_amount: u64,
    pub excluded_fee_input_amount: u64,
    pub amount_left: u64,
    pub output_amount: u64,
    pub next_sqrt_price: u128,
    pub trading_fee: u64,
    pub protocol_fee: u64,
    pub partner_fee: u64,
    pub referral_fee: u64,
}

/// A settled swap: the curve's result and the amounts that move, with and without the
/// tokens' transfer fees.
#[derive(Clone, Copy, Debug, PartialEq, Eq, Structural)]
pub struct ProcessSwapResult {
    pub swap_result: SwapResult2,
    pub included_transfer_fee_amount_in: u64,
    pub included_transfer_fee_amount_out: u64,
    pub excluded_transfer_fee_amount_out: u64,
}

/// Where a swap's fees are taken: from the input or the output leg, in token A or token B.
#[derive(Clone, Copy, Debug, PartialEq, Eq, Structural)]
pub struct FeeMode {
    pub fees_on_input: bool,
    pub fees_on_token_a: bool,
    pub has_referral: bool,
}

impl FeeMode {
    /// Fees of a pool collecting in both tokens come out of the output leg; fees of a pool
    /// collecting only in token B come out of whichever leg is token B.
    pub open spec fn spec_fee_mode(collect_fee_mode: CollectFeeMode, trade_direction: TradeDirection, has_referral: bool) -> FeeMode {
        match (collect_fee_mode, trade_direction) {
            (CollectFeeMode::BothToken, TradeDirection::AtoB) => FeeMode { fees_on_input: false, fees_on_token_a: false, has_referral },
            (CollectFeeMode::BothToken, TradeDirection::BtoA) => FeeMode { fees_on_input: false, fees_on_token_a: true, has_referral },
            (CollectFeeMode::OnlyB, TradeDirection::AtoB) => FeeMode { fees_on_input: false, fees_on_token_a: false, has_referral },
            (CollectFeeMode::OnlyB, TradeDirection::BtoA) => FeeMode { fees_on_input: true, fees_on_token_a: false, has_referral },
        }
    }

    pub fn get_fee_mode(collect_fee_mode: CollectFeeMode, trade_direction: TradeDirection, has_referral: bool) -> (r: FeeMode)
        ensures
            r == Self::spec_fee_mode(collect_fee_mode, trade_direction, has_referral),
            r.fees_on_token_a == (r.fees_on_input == (trade_direction is AtoB)),
    {
        let (fees_on_input, fees_on_token_a) = match (collect_fee_mode, trade_direction) {
            (CollectFeeMode::BothToken, TradeDirection::AtoB) => (false, false),
            (CollectFeeMode::BothToken, TradeDirection::BtoA) => (false, true),
            (CollectFeeMode::OnlyB, TradeDirection::AtoB) => (false, false),
            (CollectFeeMode::OnlyB, TradeDirection::BtoA) => (true, false),
        };
        FeeMode { fees_on_input, fees_on_token_a, has_referral }
    }
}

/// Direction of a swap: `AtoB` exactly when the input account holds the pool's first token.
pub fn get_trade_direction(input_token_mint: &[u8; 32], token_a_mint: &[u8; 32]) -> (r: TradeDirection)
    ensures
        r == (if input_token_mint@ == token_a_mint@ { TradeDirection::AtoB } else { TradeDirection::BtoA }),
{
    let mut i: usize = 0;
    while i < 32
        invariant
            0 <= i <= 32,
            forall|j: int| 0 <= j < i ==> input_token_mint@[j] == token_a_mint@[j],
        decreases 32 - i,
    {
        if input_token_mint[i] != token_a_mint[i] {
            return TradeDirection::BtoA;
        }
        i = i + 1;
    }
    assert(input_token_mint@ =~= token_a_mint@);
    TradeDirection::AtoB
}

/// The request checks made before any pricing: a known mode, then a non-zero first amount.
pub fn validate_swap_parameters(params: &SwapParameters2) -> (r: Result<SwapMode, PoolError>)
    ensures
        r == (match swap_mode_from_byte(params.swap_mode) {
            None => Err(PoolError::InvalidInput),
            Some(mode) => if params.amount_0 == 0 {
                Err(PoolError::AmountIsZero)
            } else {
                Ok(mode)
            },
        }),
{
    let swap_mode = match SwapMode::try_from_u8(params.swap_mode) {
        Some(mode) => mode,
        None => return Err(PoolError::InvalidInput),
    };
    if params.amount_0 == 0 {
        return Err(PoolError::AmountIsZero);
    }
    Ok(swap_mode)
}

impl BaseFeeInfo {
    /// The rate limiter that the record holds, when its tag names one.
    pub fn to_fee_rate_limiter(&self) -> (r: Option<PodAlignedFeeRateLimiter>)
        ensures
            r is Some <==> base_fee_mode_from_byte(self.data@[8]) == Some(BaseFeeMode::RateLimiter),
            r matches Some(l) ==> l == PodAlignedFeeRateLimiter::spec_from_bytes(self.data@),
    {
        match self.get_base_fee_mode() {
            Ok(BaseFeeMode::RateLimiter) => Some(PodAlignedFeeRateLimiter::from_bytes(&self.data)),
            _ => None,
        }
    }
}

/// Whether the swap must pass the single-swap guard: the pool's schedule is a rate limiter
/// and its surcharge window applies to this trade.
pub fn is_single_swap_guard_required(
    base_fee: &BaseFeeInfo,
    current_point: u64,
    activation_point: u64,
    trade_direction: TradeDirection,
) -> (r: bool)
    ensures
        r == (base_fee_mode_from_byte(base_fee.data@[8]) == Some(BaseFeeMode::RateLimiter)
            && PodAlignedFeeRateLimiter::spec_from_bytes(base_fee.data@).spec_is_applied(
            current_point,
            activation_point,
            trade_direction,
        )),
{
    match base_fee.to_fee_rate_limiter() {
        Some(rate_limiter) => match rate_limiter.is_rate_limiter_applied(current_point, activation_point, trade_direction) {
            Ok(applied) => applied,
            Err(_) => false,
        },
        None => false,
    }
}

/// Fixed-input settlement. `excluded_transfer_fee_amount_in` is `amount_in` net of the input
/// token's transfer fee, `swap_result` the curve's result for that net input, and
/// `excluded_transfer_fee_amount_out` its output net of the output token's transfer fee.
/// A zero net input fails first; a net output below `minimum_amount_out` fails with the
/// slippage error; nothing is changed in either case.
pub fn process_swap_exact_in(
    amount_in: u64,
    minimum_amount_out: u64,
    excluded_transfer_fee_amount_in: u64,
    swap_result: SwapResult2,
    excluded_transfer_fee_amount_out: u64,
) -> (r: Result<ProcessSwapResult, PoolError>)
    ensures
        excluded_transfer_fee_amount_in == 0 ==> r == Err::<ProcessSwapResult, PoolError>(PoolError::AmountIsZero),
        excluded_transfer_fee_amount_in > 0 && excluded_transfer_fee_amount_out < minimum_amount_out
            ==> r == Err::<ProcessSwapResult, PoolError>(PoolError::ExceededSlippage),
        excluded_transfer_fee_amount_in > 0 && excluded_transfer_fee_amount_out >= minimum_amount_out ==> r
            == Ok::<ProcessSwapResult, PoolError>(ProcessSwapResult {
            swap_result,
            included_transfer_fee_amount_in: amount_in,
            included_transfer_fee_amount_out: swap_result.output_amount,
            excluded_transfer_fee_amount_out,
        }),
        r matches Ok(settled) ==> settled.excluded_transfer_fee_amount_out >= minimum_amount_out,
{
    if excluded_transfer_fee_amount_in == 0 {
        return Err(PoolError::AmountIsZero);
    }
    if excluded_transfer_fee_amount_out < minimum_amount_out {
        return Err(PoolError::ExceededSlippage);
    }
    Ok(ProcessSwapResult {
        swap_result,
        included_transfer_fee_amount_in: amount_in,
        included_transfer_fee_amount_out: swap_result.output_amount,
        excluded_transfer_fee_amount_out,
    })
}

/// Fixed-output settlement. `included_transfer_fee_amount_out` is the wanted `amount_out`
/// grossed up by the output token's transfer fee, `swap_result` the curve's result for that
/// gross output, and `included_transfer_fee_amount_in` the input it needs grossed up by the
/// input token's transfer fee. A zero gross output fails first; an input above
/// `maximum_amount_in` fails with the slippage error.
pub fn process_swap_exact_out(
    amount_out: u64,
    maximum_amount_in: u64,
    included_transfer_fee_amount_out: u64,
    swap_result: SwapResult2,
    included_transfer_fee_amount_in: u64,
) -> (r: Result<ProcessSwapResult, PoolError>)
    ensures
        included_transfer_fee_amount_out == 0 ==> r == Err::<ProcessSwapResult, PoolError>(PoolError::AmountIsZero),
        included_transfer_fee_amount_out > 0 && included_transfer_fee_amount_in > maximum_amount_in
            ==> r == Err::<ProcessSwapResult, PoolError>(PoolError::ExceededSlippage),
        included_transfer_fee_amount_out > 0 && included_transfer_fee_amount_in <= maximum_amount_in ==> r
            == Ok::<ProcessSwapResult, PoolError>(ProcessSwapResult {
            swap_result,
            included_transfer_fee_amount_in,
            included_transfer_fee_amount_out,
            excluded_transfer_fee_amount_out: amount_out,
        }),
        r matches Ok(settled) ==> settled.included_transfer_fee_amount_in <= maximum_amount_in,
{
    if included_transfer_fee_amount_out == 0 {
        return Err(PoolError::AmountIsZero);
    }
    if included_transfer_fee_amount_in > maximum_amount_in {
        return Err(PoolError::ExceededSlippage);
    }
    Ok(ProcessSwapResult {
        swap_result,
        included_transfer_fee_amount_in,
        included_transfer_fee_amount_out,
        excluded_transfer_fee_amount_out: amount_out,
    })
}

/// Partial-fill settlement. `excluded_transfer_fee_amount_in` is `amount_in` net of the input
/// token's transfer fee, `swap_result` the curve's result for as much of it as the pool can
/// fill, `included_transfer_fee_amount_in` the filled input grossed up by the input token's
/// transfer fee, and `excluded_transfer_fee_amount_out` the output net of the output token's
/// transfer fee. A zero net input fails first; a net output below `minimum_amount_out` fails
/// with the slippage error.
pub fn process_swap_partial_fill(
    minimum_amount_out: u64,
    excluded_transfer_fee_amount_in: u64,
    swap_result: SwapResult2,
    included_transfer_fee_amount_in: u64,
    excluded_transfer_fee_amount_out: u64,
) -> (r: Result<ProcessSwapResult, PoolError>)
    ensures
        excluded_transfer_fee_amount_in == 0 ==> r == Err::<ProcessSwapResult, PoolError>(PoolError::AmountIsZero),
        excluded_transfer_fee_amount_in > 0 && excluded_transfer_fee_amount_out < minimum_amount_out
            ==> r == Err::<ProcessSwapResult, PoolError>(PoolError::ExceededSlippage),
        excluded_transfer_fee_amount_in > 0 && excluded_transfer_fee_amount_out >= minimum_amount_out ==> r
            == Ok::<ProcessSwapResult, PoolError>(ProcessSwapResult {
            swap_result,
            included_transfer_fee_amount_in,
            included_transfer_fee_amount_out: swap_result.output_amount,
            excluded_transfer_fee_amount_out,
        }),
        r matches Ok(settled) ==> settled.excluded_transfer_fee_amount_out >= minimum_amount_out,
{
    if excluded_transfer_fee_amount_in == 0 {
        return Err(PoolError::AmountIsZero);
    }
    if excluded_transfer_fee_amount_out < minimum_amount_out {
        return Err(PoolError::ExceededSlippage);
    }
    Ok(ProcessSwapResult {
        swap_result,
        included_transfer_fee_amount_in,
        included_transfer_fee_amount_out: swap_result.output_amount,
        excluded_transfer_fee_amount_out,
    })
}

} // verus!
