use cp_amm::base_fee_mode::{BaseFeeMode, CollectFeeMode, TradeDirection};
use cp_amm::base_fee_serde::BaseFeeInfo;
use cp_amm::error::PoolError;
use cp_amm::fee_rate_limiter::PodAlignedFeeRateLimiter;
use cp_amm::single_swap_guard::{validate_single_swap_instruction, IntrospectedInstruction};
use cp_amm::swap::{
    get_trade_direction, is_single_swap_guard_required, process_swap_exact_out,
    process_swap_partial_fill, FeeMode, process_swap_exact_in,
    validate_swap_parameters, SwapMode, SwapParameters, SwapParameters2, SwapResult2,
};

const PROGRAM: [u8; 32] = [7; 32];
const OTHER_PROGRAM: [u8; 32] = [9; 32];
const POOL: [u8; 32] = [1; 32];
const OTHER_POOL: [u8; 32] = [2; 32];
const SWAP_TAG: [u8; 8] = [248, 198, 158, 145, 225, 117, 135, 200];
const SWAP2_TAG: [u8; 8] = [65, 75, 63, 76, 235, 91, 91, 136];

fn swap_ix(tag: [u8; 8], pool: [u8; 32]) -> IntrospectedInstruction {
    let mut data = tag.to_vec();
    data.extend_from_slice(&[0u8; 17]);
    IntrospectedInstruction { program_id: PROGRAM, accounts: vec![[3; 32], pool, [4; 32]], data }
}

fn swap_result(output_amount: u64) -> SwapResult2 {
    SwapResult2 { output_amount, excluded_fee_input_amount: 1000, included_fee_input_amount: 1000, ..Default::default() }
}

#[test]
fn exact_in_meets_minimum_output() {
    let r = process_swap_exact_in(1000, 900, 990, swap_result(950), 940).unwrap();
    assert_eq!(r.included_transfer_fee_amount_in, 1000);
    assert_eq!(r.included_transfer_fee_amount_out, 950);
    assert_eq!(r.excluded_transfer_fee_amount_out, 940);
    assert_eq!(r.swap_result, swap_result(950));
    assert!(process_swap_exact_in(1000, 940, 990, swap_result(950), 940).is_ok());
}

#[test]
fn exact_in_below_minimum_output_is_slippage() {
    assert_eq!(process_swap_exact_in(1000, 941, 990, swap_result(950), 940), Err(PoolError::ExceededSlippage));
}

#[test]
fn exact_in_zero_net_input_is_rejected() {
    assert_eq!(process_swap_exact_in(1, 0, 0, swap_result(0), 0), Err(PoolError::AmountIsZero));
}

#[test]
fn swap_parameters_checks() {
    let legacy = SwapParameters { amount_in: 500, minimum_amount_out: 450 };
    let unified = legacy.to_swap_parameters2();
    assert_eq!(unified, SwapParameters2 { amount_0: 500, amount_1: 450, swap_mode: 0 });
    assert_eq!(validate_swap_parameters(&unified), Ok(SwapMode::ExactIn));
    let exact_out = SwapParameters2 { amount_0: 5, amount_1: 10, swap_mode: 2 };
    assert_eq!(validate_swap_parameters(&exact_out), Ok(SwapMode::ExactOut));
    let bad_mode = SwapParameters2 { amount_0: 0, amount_1: 10, swap_mode: 3 };
    assert_eq!(validate_swap_parameters(&bad_mode), Err(PoolError::InvalidInput));
    let zero = SwapParameters2 { amount_0: 0, amount_1: 10, swap_mode: 1 };
    assert_eq!(validate_swap_parameters(&zero), Err(PoolError::AmountIsZero));
    assert_eq!(SwapMode::try_from_u8(1), Some(SwapMode::PartialFill));
}

#[test]
fn trade_direction_follows_input_mint() {
    let a = [5u8; 32];
    let mut b = [5u8; 32];
    b[31] = 6;
    assert_eq!(get_trade_direction(&a, &a), TradeDirection::AtoB);
    assert_eq!(get_trade_direction(&b, &a), TradeDirection::BtoA);
}

#[test]
fn guard_required_only_inside_rate_limiter_window() {
    let limiter = PodAlignedFeeRateLimiter {
        cliff_fee_numerator: 1_000_000,
        base_fee_mode: BaseFeeMode::RateLimiter.to_u8(),
        padding: [0; 5],
        fee_increment_bps: 20,
        max_limiter_duration: 300,
        max_fee_bps: 4000,
        reference_amount: 5_000_000_000,
    };
    let info = BaseFeeInfo { data: limiter.to_bytes() };
    assert!(is_single_swap_guard_required(&info, 150, 100, TradeDirection::BtoA));
    assert!(!is_single_swap_guard_required(&info, 150, 100, TradeDirection::AtoB));
    assert!(!is_single_swap_guard_required(&info, 401, 100, TradeDirection::BtoA));
    let mut scheduler = info;
    scheduler.data[8] = BaseFeeMode::FeeTimeSchedulerLinear.to_u8();
    assert!(!is_single_swap_guard_required(&scheduler, 150, 100, TradeDirection::BtoA));
    assert!(info.to_fee_rate_limiter().is_some());
    assert!(scheduler.to_fee_rate_limiter().is_none());
}

#[test]
fn two_swaps_on_one_pool_fail_and_one_succeeds() {
    let earlier = vec![swap_ix(SWAP_TAG, POOL)];
    assert_eq!(
        validate_single_swap_instruction(&PROGRAM, &POOL, &PROGRAM, 1, &vec![], &earlier),
        Err(PoolError::FailToValidateSingleSwapInstruction)
    );
    assert_eq!(validate_single_swap_instruction(&PROGRAM, &POOL, &PROGRAM, 1, &vec![], &vec![]), Ok(()));
    let earlier2 = vec![swap_ix(SWAP2_TAG, POOL)];
    assert!(validate_single_swap_instruction(&PROGRAM, &POOL, &PROGRAM, 1, &vec![], &earlier2).is_err());
}

#[test]
fn swaps_on_other_pools_are_allowed() {
    let earlier = vec![swap_ix(SWAP_TAG, OTHER_POOL), swap_ix(SWAP2_TAG, OTHER_POOL)];
    assert_eq!(validate_single_swap_instruction(&PROGRAM, &POOL, &PROGRAM, 1, &vec![], &earlier), Ok(()));
    let mut not_a_swap = swap_ix(SWAP_TAG, POOL);
    not_a_swap.data[0] = 0;
    assert_eq!(validate_single_swap_instruction(&PROGRAM, &POOL, &PROGRAM, 1, &vec![], &vec![not_a_swap]), Ok(()));
}

#[test]
fn other_program_naming_the_pool_is_rejected() {
    let foreign = IntrospectedInstruction { program_id: OTHER_PROGRAM, accounts: vec![[3; 32], [4; 32], POOL], data: vec![] };
    assert_eq!(
        validate_single_swap_instruction(&PROGRAM, &POOL, &PROGRAM, 1, &vec![], &vec![foreign]),
        Err(PoolError::FailToValidateSingleSwapInstruction)
    );
    let harmless = IntrospectedInstruction { program_id: OTHER_PROGRAM, accounts: vec![[3; 32]], data: vec![1, 2] };
    assert_eq!(validate_single_swap_instruction(&PROGRAM, &POOL, &PROGRAM, 1, &vec![], &vec![harmless]), Ok(()));
}

#[test]
fn swap_through_another_program() {
    assert_eq!(
        validate_single_swap_instruction(&PROGRAM, &POOL, &OTHER_PROGRAM, 3, &vec![], &vec![]),
        Err(PoolError::FailToValidateSingleSwapInstruction)
    );
    assert_eq!(validate_single_swap_instruction(&PROGRAM, &POOL, &OTHER_PROGRAM, 2, &vec![], &vec![]), Ok(()));
    let sibling = vec![swap_ix(SWAP_TAG, POOL)];
    assert_eq!(
        validate_single_swap_instruction(&PROGRAM, &POOL, &OTHER_PROGRAM, 2, &sibling, &vec![]),
        Err(PoolError::FailToValidateSingleSwapInstruction)
    );
    assert_eq!(validate_single_swap_instruction(&PROGRAM, &POOL, &PROGRAM, 3, &sibling, &vec![]), Ok(()));
}

#[test]
fn fee_mode_by_collection_policy() {
    let m = FeeMode::get_fee_mode(CollectFeeMode::BothToken, TradeDirection::AtoB, false);
    assert_eq!(m, FeeMode { fees_on_input: false, fees_on_token_a: false, has_referral: false });
    let m = FeeMode::get_fee_mode(CollectFeeMode::BothToken, TradeDirection::BtoA, true);
    assert_eq!(m, FeeMode { fees_on_input: false, fees_on_token_a: true, has_referral: true });
    let m = FeeMode::get_fee_mode(CollectFeeMode::OnlyB, TradeDirection::AtoB, false);
    assert_eq!(m, FeeMode { fees_on_input: false, fees_on_token_a: false, has_referral: false });
    let m = FeeMode::get_fee_mode(CollectFeeMode::OnlyB, TradeDirection::BtoA, false);
    assert_eq!(m, FeeMode { fees_on_input: true, fees_on_token_a: false, has_referral: false });
}

#[test]
fn exact_out_respects_maximum_input() {
    let r = process_swap_exact_out(500, 600, 505, swap_result(505), 590).unwrap();
    assert_eq!(r.included_transfer_fee_amount_in, 590);
    assert_eq!(r.included_transfer_fee_amount_out, 505);
    assert_eq!(r.excluded_transfer_fee_amount_out, 500);
    assert_eq!(process_swap_exact_out(500, 589, 505, swap_result(505), 590), Err(PoolError::ExceededSlippage));
    assert_eq!(process_swap_exact_out(0, 589, 0, swap_result(0), 0), Err(PoolError::AmountIsZero));
}

#[test]
fn partial_fill_respects_minimum_output() {
    let r = process_swap_partial_fill(400, 990, swap_result(450), 800, 445).unwrap();
    assert_eq!(r.included_transfer_fee_amount_in, 800);
    assert_eq!(r.included_transfer_fee_amount_out, 450);
    assert_eq!(r.excluded_transfer_fee_amount_out, 445);
    assert_eq!(process_swap_partial_fill(446, 990, swap_result(450), 800, 445), Err(PoolError::ExceededSlippage));
    assert_eq!(process_swap_partial_fill(0, 0, swap_result(0), 0, 0), Err(PoolError::AmountIsZero));
}
