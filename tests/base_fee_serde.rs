use cp_amm::base_fee_mode::BaseFeeMode;
use cp_amm::base_fee_serde::{
    base_fee_info_to_base_fee_parameters, base_fee_parameters_to_base_fee_info, BaseFeeEnumReader,
    BaseFeeInfo, BaseFeeParameters, BorshBaseFeeSerde, PodAlignedBaseFeeSerde,
    UpdateCliffFeeNumerator,
};
use cp_amm::error::PoolError;
use cp_amm::fee_market_cap_scheduler::{BorshFeeMarketCapScheduler, PodAlignedFeeMarketCapScheduler};
use cp_amm::fee_rate_limiter::{BorshFeeRateLimiter, PodAlignedFeeRateLimiter};
use cp_amm::fee_time_scheduler::{BorshFeeTimeScheduler, PodAlignedFeeTimeScheduler};

#[test]
fn test_base_fee_serde_rate_limiter() {
    let fee = BorshFeeRateLimiter {
        cliff_fee_numerator: 1_000_000,
        fee_increment_bps: 20,
        max_limiter_duration: 300,
        max_fee_bps: 4000,
        reference_amount: 5_000_000_000,
        base_fee_mode: BaseFeeMode::RateLimiter.to_u8(),
        ..Default::default()
    };

    // convert to base fee params
    let mut base_fee_params = BaseFeeParameters::default();
    let bytes = fee.to_bytes();
    base_fee_params.data.copy_from_slice(&bytes);

    let deserialized = BorshFeeRateLimiter::from_bytes(&base_fee_params.data);
    assert_eq!(fee, deserialized);

    // convert to base fee struct
    let base_fee_info_struct = base_fee_parameters_to_base_fee_info(&base_fee_params);
    assert!(base_fee_info_struct.is_ok());

    let base_fee_info_struct = base_fee_info_struct.unwrap();

    let deserialized = PodAlignedFeeRateLimiter::from_bytes(&base_fee_info_struct.data);
    assert_eq!(fee.base_fee_mode, deserialized.base_fee_mode);
    assert_eq!(fee.cliff_fee_numerator, deserialized.cliff_fee_numerator);
    assert_eq!(fee.fee_increment_bps, deserialized.fee_increment_bps);
    assert_eq!(fee.max_limiter_duration, deserialized.max_limiter_duration);
    assert_eq!(fee.max_fee_bps, deserialized.max_fee_bps);
    assert_eq!(fee.reference_amount, deserialized.reference_amount);

    // convert back to base fee params
    let reverse_base_fee_params = base_fee_info_to_base_fee_parameters(&base_fee_info_struct);
    assert!(reverse_base_fee_params.is_ok());

    let reverse_base_fee_params = reverse_base_fee_params.unwrap();
    assert_eq!(base_fee_params.data, reverse_base_fee_params.data);
}

#[test]
fn test_base_fee_serde_time_scheduler() {
    let fee = BorshFeeTimeScheduler {
        cliff_fee_numerator: 1_000_000,
        number_of_period: 20,
        period_frequency: 300,
        reduction_factor: 271,
        base_fee_mode: BaseFeeMode::FeeTimeSchedulerExponential.to_u8(),
        ..Default::default()
    };

    // convert to base fee params
    let mut base_fee_params = BaseFeeParameters::default();
    let bytes = fee.to_bytes();
    base_fee_params.data.copy_from_slice(&bytes);

    let deserialized = BorshFeeTimeScheduler::from_bytes(&base_fee_params.data);
    assert_eq!(fee, deserialized);

    // convert to base fee struct
    let base_fee_info_struct = base_fee_parameters_to_base_fee_info(&base_fee_params);
    assert!(base_fee_info_struct.is_ok());

    let base_fee_info_struct = base_fee_info_struct.unwrap();

    let deserialized = PodAlignedFeeTimeScheduler::from_bytes(&base_fee_info_struct.data);
    assert_eq!(fee.base_fee_mode, deserialized.base_fee_mode);
    assert_eq!(fee.cliff_fee_numerator, deserialized.cliff_fee_numerator);
    assert_eq!(fee.number_of_period, deserialized.number_of_period);
    assert_eq!(fee.period_frequency, deserialized.period_frequency);
    assert_eq!(fee.reduction_factor, deserialized.reduction_factor);

    // convert back to base fee params
    let reverse_base_fee_params = base_fee_info_to_base_fee_parameters(&base_fee_info_struct);
    assert!(reverse_base_fee_params.is_ok());

    let reverse_base_fee_params = reverse_base_fee_params.unwrap();
    assert_eq!(base_fee_params.data, reverse_base_fee_params.data);
}

#[test]
fn test_base_fee_serde_market_cap_scheduler() {
    let fee = BorshFeeMarketCapScheduler {
        cliff_fee_numerator: 1_000_000,
        number_of_period: 20,
        sqrt_price_step_bps: 300,
        reduction_factor: 271,
        scheduler_expiration_duration: 800,
        base_fee_mode: BaseFeeMode::FeeMarketCapSchedulerExponential.to_u8(),
        ..Default::default()
    };

    // convert to base fee params
    let mut base_fee_params = BaseFeeParameters::default();
    let bytes = fee.to_bytes();
    base_fee_params.data.copy_from_slice(&bytes);

    let deserialized = BorshFeeMarketCapScheduler::from_bytes(&base_fee_params.data);
    assert_eq!(fee, deserialized);

    // convert to base fee struct
    let base_fee_info_struct = base_fee_parameters_to_base_fee_info(&base_fee_params);
    assert!(base_fee_info_struct.is_ok());

    let base_fee_info_struct = base_fee_info_struct.unwrap();

    let deserialized = PodAlignedFeeMarketCapScheduler::from_bytes(&base_fee_info_struct.data);
    assert_eq!(fee.base_fee_mode, deserialized.base_fee_mode);
    assert_eq!(fee.cliff_fee_numerator, deserialized.cliff_fee_numerator);
    assert_eq!(fee.number_of_period, deserialized.number_of_period);
    assert_eq!(fee.reduction_factor, deserialized.reduction_factor);
    assert_eq!(fee.sqrt_price_step_bps, deserialized.sqrt_price_step_bps);

    // convert back to base fee params
    let reverse_base_fee_params = base_fee_info_to_base_fee_parameters(&base_fee_info_struct);
    assert!(reverse_base_fee_params.is_ok());

    let reverse_base_fee_params = reverse_base_fee_params.unwrap();
    assert_eq!(base_fee_params.data, reverse_base_fee_params.data);
}

#[test]
fn test_base_fee_params_base_fee_mode_offset_valid() {
    let borsh_fee_params_0 = BorshFeeMarketCapScheduler {
        base_fee_mode: BaseFeeMode::FeeMarketCapSchedulerExponential.to_u8(),
        ..Default::default()
    };

    let mut base_fee_params_0 = BaseFeeParameters::default();
    base_fee_params_0.data.copy_from_slice(&borsh_fee_params_0.to_bytes());

    let base_fee_mode_0: u8 = base_fee_params_0.get_base_fee_mode().unwrap().to_u8();
    assert_eq!(base_fee_mode_0, borsh_fee_params_0.base_fee_mode);

    let borsh_fee_params_1 = BorshFeeRateLimiter {
        base_fee_mode: BaseFeeMode::RateLimiter.to_u8(),
        ..Default::default()
    };

    let mut base_fee_params_1 = BaseFeeParameters::default();
    base_fee_params_1.data.copy_from_slice(&borsh_fee_params_1.to_bytes());

    let base_fee_mode_1: u8 = base_fee_params_1.get_base_fee_mode().unwrap().to_u8();
    assert_eq!(base_fee_mode_1, borsh_fee_params_1.base_fee_mode);

    let borsh_fee_params_2 = BorshFeeTimeScheduler {
        base_fee_mode: BaseFeeMode::FeeTimeSchedulerLinear.to_u8(),
        ..Default::default()
    };

    let mut base_fee_params_2 = BaseFeeParameters::default();
    base_fee_params_2.data.copy_from_slice(&borsh_fee_params_2.to_bytes());

    let base_fee_mode_2: u8 = base_fee_params_2.get_base_fee_mode().unwrap().to_u8();
    assert_eq!(base_fee_mode_2, borsh_fee_params_2.base_fee_mode);
}

#[test]
fn wire_layout_matches_borsh_encoding() {
    let time = BorshFeeTimeScheduler {
        cliff_fee_numerator: 500_000_000,
        number_of_period: 120,
        period_frequency: 60,
        reduction_factor: 417,
        base_fee_mode: 1,
        padding: [0, 0, 0],
    };
    let expected = borsh::to_vec(&(500_000_000u64, 120u16, 60u64, 417u64, 1u8, [0u8; 3])).unwrap();
    assert_eq!(time.to_bytes().to_vec(), expected);

    let market_cap = BorshFeeMarketCapScheduler {
        cliff_fee_numerator: 1_000_000,
        number_of_period: 20,
        sqrt_price_step_bps: 300,
        scheduler_expiration_duration: 800,
        reduction_factor: 271,
        base_fee_mode: 4,
        padding: [0, 0, 0],
    };
    let expected = borsh::to_vec(&(1_000_000u64, 20u16, 300u32, 800u32, 271u64, 4u8, [0u8; 3])).unwrap();
    assert_eq!(market_cap.to_bytes().to_vec(), expected);

    let rate_limiter = BorshFeeRateLimiter {
        cliff_fee_numerator: 1_000_000,
        fee_increment_bps: 20,
        max_limiter_duration: 300,
        max_fee_bps: 4000,
        reference_amount: 5_000_000_000,
        base_fee_mode: 2,
        padding: [0, 0, 0],
    };
    let expected =
        borsh::to_vec(&(1_000_000u64, 20u16, 300u32, 4000u32, 5_000_000_000u64, 2u8, [0u8; 3])).unwrap();
    assert_eq!(rate_limiter.to_bytes().to_vec(), expected);
}

#[test]
fn runtime_layout_places_fields_at_aligned_offsets() {
    let time = BorshFeeTimeScheduler {
        cliff_fee_numerator: 500_000_000,
        number_of_period: 120,
        period_frequency: 60,
        reduction_factor: 265,
        base_fee_mode: 1,
        padding: [0, 0, 0],
    };
    let runtime = time.to_pod_aligned_bytes().unwrap();
    assert_eq!(&runtime[0..8], &500_000_000u64.to_le_bytes());
    assert_eq!(runtime[8], 1);
    assert_eq!(&runtime[9..14], &[0u8; 5]);
    assert_eq!(&runtime[14..16], &120u16.to_le_bytes());
    assert_eq!(&runtime[16..24], &60u64.to_le_bytes());
    assert_eq!(&runtime[24..32], &265u64.to_le_bytes());

    let info = BaseFeeInfo { data: runtime };
    assert_eq!(info.get_base_fee_mode(), Ok(BaseFeeMode::FeeTimeSchedulerExponential));
    let pod = PodAlignedFeeTimeScheduler::from_bytes(&info.data);
    assert_eq!(pod.to_borsh_bytes().unwrap(), time.to_bytes());
}

#[test]
fn unknown_mode_tag_is_rejected() {
    let mut params = BaseFeeParameters::default();
    params.data[26] = 5;
    assert_eq!(params.get_base_fee_mode(), Err(PoolError::InvalidBaseFeeMode));
    assert_eq!(base_fee_parameters_to_base_fee_info(&params), Err(PoolError::InvalidBaseFeeMode));

    let mut info = BaseFeeInfo::default();
    info.data[8] = 200;
    assert_eq!(info.get_base_fee_mode(), Err(PoolError::InvalidBaseFeeMode));
    assert_eq!(base_fee_info_to_base_fee_parameters(&info), Err(PoolError::InvalidBaseFeeMode));
}

#[test]
fn wire_round_trip_zeroes_padding() {
    let mut params = BaseFeeParameters::default();
    params.data[0] = 7;
    params.data[26] = 0;
    params.data[28] = 9;
    let info = base_fee_parameters_to_base_fee_info(&params).unwrap();
    let back = base_fee_info_to_base_fee_parameters(&info).unwrap();
    assert_eq!(back.data[28], 0);
    assert_eq!(back.data[0], 7);
    assert_ne!(back, params);
}

#[test]
fn runtime_round_trip_reproduces_bytes() {
    for mode in 0u8..5 {
        let mut info = BaseFeeInfo::default();
        for i in 0..32 {
            info.data[i] = (i as u8).wrapping_mul(37).wrapping_add(11);
        }
        info.data[8] = mode;
        for i in 9..14 {
            info.data[i] = 0;
        }
        let params = base_fee_info_to_base_fee_parameters(&info).unwrap();
        assert_eq!(params.data[26], mode);
        let back = base_fee_parameters_to_base_fee_info(&params).unwrap();
        assert_eq!(back, info);
    }
}

#[test]
fn update_cliff_fee_numerator_rewrites_only_the_first_field() {
    let fee = BorshFeeMarketCapScheduler {
        cliff_fee_numerator: 1_000_000,
        number_of_period: 20,
        sqrt_price_step_bps: 300,
        scheduler_expiration_duration: 800,
        reduction_factor: 271,
        base_fee_mode: 3,
        padding: [0, 0, 0],
    };
    let mut info = BaseFeeInfo { data: fee.to_pod_aligned_bytes().unwrap() };
    let before = info;
    assert_eq!(info.update_cliff_fee_numerator(2_500_000), Ok(()));
    assert_eq!(&info.data[0..8], &2_500_000u64.to_le_bytes());
    assert_eq!(&info.data[8..32], &before.data[8..32]);

    let mut bad = BaseFeeInfo::default();
    bad.data[8] = 9;
    let bad_before = bad;
    assert_eq!(bad.update_cliff_fee_numerator(5), Err(PoolError::InvalidBaseFeeMode));
    assert_eq!(bad, bad_before);
}
