use cp_amm::base_fee_mode::{ActivationType, BaseFeeMode, CollectFeeMode, TradeDirection};
use cp_amm::base_fee_serde::{BaseFeeHandler, BaseFeeHandlerBuilder, BaseFeeInfo, BaseFeeParameters};
use cp_amm::constants::{get_max_fee_bps, get_max_fee_numerator, validate_fee_fraction};
use cp_amm::error::PoolError;
use cp_amm::fee_market_cap_scheduler::{BorshFeeMarketCapScheduler, PodAlignedFeeMarketCapScheduler};
use cp_amm::fee_math::{get_fee_in_period, pow};
use cp_amm::fee_rate_limiter::PodAlignedFeeRateLimiter;
use cp_amm::fee_time_scheduler::PodAlignedFeeTimeScheduler;
use cp_amm::base_fee_serde::BorshBaseFeeSerde;

fn time_scheduler(mode: BaseFeeMode, cliff: u64, periods: u16, frequency: u64, reduction: u64) -> PodAlignedFeeTimeScheduler {
    PodAlignedFeeTimeScheduler {
        cliff_fee_numerator: cliff,
        base_fee_mode: mode.to_u8(),
        padding: [0; 5],
        number_of_period: periods,
        period_frequency: frequency,
        reduction_factor: reduction,
    }
}

fn market_cap_scheduler(mode: BaseFeeMode) -> PodAlignedFeeMarketCapScheduler {
    PodAlignedFeeMarketCapScheduler {
        cliff_fee_numerator: 1_000_000,
        base_fee_mode: mode.to_u8(),
        padding: [0; 5],
        number_of_period: 20,
        sqrt_price_step_bps: 300,
        scheduler_expiration_duration: 800,
        reduction_factor: 271,
    }
}

#[test]
fn linear_time_scheduler_example() {
    let s = time_scheduler(BaseFeeMode::FeeTimeSchedulerLinear, 1_000_000, 20, 300, 417);
    let a = 1_000u64;
    assert_eq!(s.get_base_fee_numerator(a + 300, a), Ok(999_583));
    assert_eq!(s.get_base_fee_numerator(a + 6300, a), Ok(991_660));
    assert_eq!(s.get_base_fee_numerator(a, a), Ok(1_000_000));
    assert_eq!(s.get_base_fee_numerator(a + 299, a), Ok(1_000_000));
}

#[test]
fn time_scheduler_before_activation_uses_last_period() {
    let s = time_scheduler(BaseFeeMode::FeeTimeSchedulerLinear, 1_000_000, 20, 300, 417);
    assert_eq!(s.get_base_fee_numerator(10, 1_000), Ok(991_660));
}

#[test]
fn time_scheduler_without_frequency_keeps_cliff_fee() {
    let s = time_scheduler(BaseFeeMode::FeeTimeSchedulerLinear, 1_000_000, 0, 0, 0);
    assert_eq!(s.get_base_fee_numerator(5_000_000, 0), Ok(1_000_000));
    assert_eq!(s.get_base_fee_numerator(0, 5_000_000), Ok(1_000_000));
}

#[test]
fn time_scheduler_fee_is_non_increasing_and_clamped() {
    for mode in [BaseFeeMode::FeeTimeSchedulerLinear, BaseFeeMode::FeeTimeSchedulerExponential] {
        let s = time_scheduler(mode, 1_000_000, 20, 300, 271);
        let mut previous = u64::MAX;
        for period in 0u64..40 {
            let fee = s.get_base_fee_numerator_by_period(period).unwrap();
            assert!(fee <= previous);
            previous = fee;
        }
        assert_eq!(s.get_base_fee_numerator_by_period(35), s.get_base_fee_numerator_by_period(20));
        assert_eq!(s.get_base_fee_numerator_by_period(u64::MAX), s.get_min_base_fee_numerator());
    }
}

#[test]
fn exponential_time_scheduler_values() {
    let s = time_scheduler(BaseFeeMode::FeeTimeSchedulerExponential, 1_000_000, 20, 300, 271);
    assert_eq!(s.get_base_fee_numerator(300, 0), Ok(972_900));
    assert_eq!(s.get_min_base_fee_numerator(), Ok(577_250));
    let s = time_scheduler(BaseFeeMode::FeeTimeSchedulerExponential, 500_000_000, 120, 60, 417);
    assert_eq!(s.get_min_base_fee_numerator(), Ok(3_014_037));
}

#[test]
fn fee_in_period_edges() {
    assert_eq!(get_fee_in_period(1_000_000, 0, 7), Ok(1_000_000));
    assert_eq!(get_fee_in_period(1_000_000, 271, 0), Ok(1_000_000));
    assert_eq!(get_fee_in_period(1_000_000, 10_000, 1), Err(PoolError::MathOverflow));
    assert_eq!(get_fee_in_period(1_000_000, 10_001, 1), Err(PoolError::MathOverflow));
    assert_eq!(pow(1u128 << 63, 1), Some(1u128 << 63));
    assert_eq!(pow(1u128 << 63, 2), Some(1u128 << 62));
    assert_eq!(pow(1u128 << 63, 0), Some(1u128 << 64));
    assert_eq!(pow(0, 3), None);
}

#[test]
fn linear_underflow_is_an_error() {
    let s = time_scheduler(BaseFeeMode::FeeTimeSchedulerLinear, 1_000, 20, 300, 417);
    assert_eq!(s.get_base_fee_numerator(300, 0), Ok(583));
    assert_eq!(s.get_base_fee_numerator(900, 0), Err(PoolError::MathOverflow));
    assert_eq!(s.get_base_fee_numerator(0, 0), Ok(1_000));
}

#[test]
fn scheduler_with_foreign_mode_tag() {
    let s = time_scheduler(BaseFeeMode::RateLimiter, 1_000_000, 20, 300, 417);
    assert_eq!(s.get_base_fee_numerator(300, 0), Err(PoolError::UndeterminedError));
    let mut s = s;
    s.base_fee_mode = 17;
    assert_eq!(s.get_base_fee_numerator(300, 0), Err(PoolError::TypeCastFailed));
}

#[test]
fn time_scheduler_validation() {
    let ok = time_scheduler(BaseFeeMode::FeeTimeSchedulerLinear, 1_000_000, 20, 300, 417);
    assert_eq!(ok.validate(CollectFeeMode::BothToken, ActivationType::Slot), Ok(()));
    let disabled = time_scheduler(BaseFeeMode::FeeTimeSchedulerLinear, 1_000_000, 0, 0, 0);
    assert_eq!(disabled.validate(CollectFeeMode::OnlyB, ActivationType::Timestamp), Ok(()));
    let partial = time_scheduler(BaseFeeMode::FeeTimeSchedulerLinear, 1_000_000, 20, 0, 417);
    assert_eq!(partial.validate(CollectFeeMode::BothToken, ActivationType::Slot), Err(PoolError::InvalidFeeTimeScheduler));
    let too_low = time_scheduler(BaseFeeMode::FeeTimeSchedulerLinear, 1_000_000, 20, 300, 46_000);
    assert_eq!(too_low.validate(CollectFeeMode::BothToken, ActivationType::Slot), Err(PoolError::ExceedMaxFeeBps));
    let too_high = time_scheduler(BaseFeeMode::FeeTimeSchedulerLinear, 995_000_000, 20, 300, 417);
    assert_eq!(too_high.validate(CollectFeeMode::BothToken, ActivationType::Slot), Err(PoolError::ExceedMaxFeeBps));
    let improper = time_scheduler(BaseFeeMode::FeeTimeSchedulerLinear, 1_000_000_000, 20, 300, 417);
    assert_eq!(improper.validate(CollectFeeMode::BothToken, ActivationType::Slot), Err(PoolError::InvalidFee));
}

#[test]
fn time_scheduler_is_static_after_last_period() {
    let s = time_scheduler(BaseFeeMode::FeeTimeSchedulerLinear, 1_000_000, 20, 300, 417);
    assert_eq!(s.validate_base_fee_is_static(100 + 6000, 100), Ok(false));
    assert_eq!(s.validate_base_fee_is_static(100 + 6001, 100), Ok(true));
}

#[test]
fn market_cap_scheduler_without_price_movement_keeps_cliff_fee() {
    let s = market_cap_scheduler(BaseFeeMode::FeeMarketCapSchedulerLinear);
    let price = 1u128 << 64;
    assert_eq!(s.get_base_fee_numerator(150, 100, price, price), Ok(1_000_000));
    assert_eq!(s.get_base_fee_numerator(150, 100, price, price - 1), Ok(1_000_000));
}

#[test]
fn market_cap_scheduler_counts_price_steps() {
    let s = market_cap_scheduler(BaseFeeMode::FeeMarketCapSchedulerLinear);
    let init = 1u128 << 64;
    let current = init * 107 / 100;
    assert_eq!(s.get_base_fee_numerator(150, 100, init, current), Ok(999_458));
    assert_eq!(s.get_base_fee_numerator(150, 100, init, init * 3), Ok(1_000_000 - 271 * 20));
    assert_eq!(s.get_base_fee_numerator(150, 100, 1, u128::MAX), Ok(1_000_000 - 271 * 20));
}

#[test]
fn market_cap_scheduler_outside_window_uses_last_period() {
    let s = market_cap_scheduler(BaseFeeMode::FeeMarketCapSchedulerLinear);
    let price = 1u128 << 64;
    assert_eq!(s.get_base_fee_numerator(50, 100, price, price), Ok(1_000_000 - 271 * 20));
    assert_eq!(s.get_base_fee_numerator(901, 100, price, price), Ok(1_000_000 - 271 * 20));
    assert_eq!(s.get_base_fee_numerator(900, 100, price, price), Ok(1_000_000));
}

#[test]
fn market_cap_scheduler_errors() {
    let s = market_cap_scheduler(BaseFeeMode::FeeMarketCapSchedulerLinear);
    assert_eq!(s.get_base_fee_numerator(u64::MAX, u64::MAX - 10, 1, 2), Err(PoolError::MathOverflow));
    assert_eq!(s.get_base_fee_numerator(150, 100, 0, 2), Err(PoolError::MathOverflow));
    let mut zero_step = s;
    zero_step.sqrt_price_step_bps = 0;
    assert_eq!(zero_step.get_base_fee_numerator(150, 100, 1, 2), Err(PoolError::MathOverflow));
    assert_eq!(zero_step.validate(CollectFeeMode::BothToken, ActivationType::Slot), Err(PoolError::InvalidFeeMarketCapScheduler));
    assert_eq!(s.validate(CollectFeeMode::BothToken, ActivationType::Slot), Ok(()));
    assert_eq!(s.validate_base_fee_is_static(900, 100), Ok(false));
    assert_eq!(s.validate_base_fee_is_static(901, 100), Ok(true));
}

#[test]
fn handler_dispatches_on_the_mode_tag() {
    let wire = BorshFeeMarketCapScheduler {
        cliff_fee_numerator: 1_000_000,
        number_of_period: 20,
        sqrt_price_step_bps: 300,
        scheduler_expiration_duration: 800,
        reduction_factor: 271,
        base_fee_mode: BaseFeeMode::FeeMarketCapSchedulerExponential.to_u8(),
        padding: [0; 3],
    };
    let params = BaseFeeParameters { data: wire.to_bytes() };
    let handler = params.get_base_fee_handler().unwrap();
    assert!(matches!(handler, BaseFeeHandler::MarketCapScheduler(_)));
    let price = 1u128 << 64;
    assert_eq!(
        handler.get_base_fee_numerator_from_included_fee_amount(150, 100, TradeDirection::AtoB, 10, price, price),
        Ok(1_000_000)
    );
    assert_eq!(
        handler.get_base_fee_numerator_from_excluded_fee_amount(2_000, 100, TradeDirection::BtoA, 10, price, price),
        Ok(577_250)
    );
    assert_eq!(handler.get_min_base_fee_numerator(), Ok(577_250));
    assert_eq!(handler.validate(CollectFeeMode::BothToken, ActivationType::Slot), Ok(()));

    let info = BaseFeeInfo { data: wire.to_pod_aligned_bytes().unwrap() };
    assert_eq!(info.get_base_fee_handler(), Ok(handler));
    let mut bad = info;
    bad.data[8] = 5;
    assert_eq!(bad.get_base_fee_handler(), Err(PoolError::InvalidBaseFeeMode));
}

#[test]
fn rate_limiter_window() {
    let limiter = PodAlignedFeeRateLimiter {
        cliff_fee_numerator: 1_000_000,
        base_fee_mode: BaseFeeMode::RateLimiter.to_u8(),
        padding: [0; 5],
        fee_increment_bps: 20,
        max_limiter_duration: 300,
        max_fee_bps: 4000,
        reference_amount: 5_000_000_000,
    };
    assert_eq!(limiter.is_rate_limiter_applied(100, 100, TradeDirection::BtoA), Ok(true));
    assert_eq!(limiter.is_rate_limiter_applied(400, 100, TradeDirection::BtoA), Ok(true));
    assert_eq!(limiter.is_rate_limiter_applied(401, 100, TradeDirection::BtoA), Ok(false));
    assert_eq!(limiter.is_rate_limiter_applied(99, 100, TradeDirection::BtoA), Ok(false));
    assert_eq!(limiter.is_rate_limiter_applied(200, 100, TradeDirection::AtoB), Ok(false));
    let zero = PodAlignedFeeRateLimiter { base_fee_mode: 2, ..Default::default() };
    assert!(zero.is_zero_rate_limiter());
    assert_eq!(zero.is_rate_limiter_applied(100, 100, TradeDirection::BtoA), Ok(false));
}

#[test]
fn fee_caps_by_pool_version() {
    assert_eq!(get_max_fee_numerator(0), Ok(500_000_000));
    assert_eq!(get_max_fee_numerator(1), Ok(990_000_000));
    assert_eq!(get_max_fee_numerator(2), Err(PoolError::InvalidPoolVersion));
    assert_eq!(get_max_fee_bps(0), Ok(5000));
    assert_eq!(get_max_fee_bps(1), Ok(9900));
    assert_eq!(get_max_fee_bps(3), Err(PoolError::InvalidPoolVersion));
    assert_eq!(validate_fee_fraction(1, 0), Err(PoolError::InvalidFee));
    assert_eq!(validate_fee_fraction(5, 5), Err(PoolError::InvalidFee));
    assert_eq!(validate_fee_fraction(4, 5), Ok(()));
}
