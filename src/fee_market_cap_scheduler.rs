use crate::base_fee_mode::{ActivationType, BaseFeeMode, CollectFeeMode};
use crate::constants::{
    get_max_fee_numerator, max_fee_numerator_of, validate_fee_fraction, CURRENT_POOL_VERSION,
    FEE_DENOMINATOR, MAX_BASIS_POINT, MIN_FEE_NUMERATOR,
};
use crate::base_fee_serde::{BorshBaseFeeSerde, PodAlignedBaseFeeSerde};
use crate::error::PoolError;
use crate::fee_math::get_fee_in_period;
use crate::fee_time_scheduler::decayed_fee;
use crate::le_bytes::{lemma_le_round_trips, push_u16, push_u32, push_u64, read_u16_at, read_u32_at, read_u64_at, to_array30, to_array32};
use crate::safe_math::SafeMath;
use crate::u256::{u256_checked_div, u256_checked_mul, U256Limbs};
use vstd::bytes::*;
use vstd::prelude::*;

verus! {

/// Market-cap scheduler in its wire layout (little-endian, packed, 30 bytes, mode tag at byte 26).
#[derive(Clone, Copy, Debug, PartialEq, Eq, Default)]
pub struct BorshFeeMarketCapScheduler {
    pub cliff_fee_numerator: u64,
    pub number_of_period: u16,
    pub sqrt_price_step_bps: u32,
    pub scheduler_expiration_duration: u32,
    pub reduction_factor: u64,
    pub base_fee_mode: u8,
    pub padding: [u8; 3],
}

/// Market-cap scheduler in its runtime layout (32 bytes, mode tag at byte 8).
#[derive(Clone, Copy, Debug, PartialEq, Eq, Default)]
pub struct PodAlignedFeeMarketCapScheduler {
    pub cliff_fee_numerator: u64,
    pub base_fee_mode: u8,
    pub padding: [u8; 5],
    pub number_of_period: u16,
    pub sqrt_price_step_bps: u32,
    pub scheduler_expiration_duration: u32,
    pub reduction_factor: u64,
}

impl BorshFeeMarketCapScheduler {
    /// The 30 wire bytes of the record.
    pub open spec fn spec_bytes(&self) -> Seq<u8> {
        spec_u64_to_le_bytes(self.cliff_fee_numerator) + spec_u16_to_le_bytes(self.number_of_period)
            + spec_u32_to_le_bytes(self.sqrt_price_step_bps) + spec_u32_to_le_bytes(self.scheduler_expiration_duration) + spec_u64_to_le_bytes(self.reduction_factor)
            + seq![self.base_fee_mode] + self.padding@
    }

    /// The runtime record with the same fields and zeroed padding.
    pub open spec fn spec_to_pod(&self) -> PodAlignedFeeMarketCapScheduler {
        PodAlignedFeeMarketCapScheduler {
            cliff_fee_numerator: self.cliff_fee_numerator,
            base_fee_mode: self.base_fee_mode,
            padding: [0u8, 0u8, 0u8, 0u8, 0u8],
            number_of_period: self.number_of_period,
            sqrt_price_step_bps: self.sqrt_price_step_bps,
            scheduler_expiration_duration: self.scheduler_expiration_duration,
            reduction_factor: self.reduction_factor,
        }
    }

    /// The record that 30 wire bytes hold.
    pub open spec fn spec_from_bytes(s: Seq<u8>) -> Self {
        BorshFeeMarketCapScheduler {
            cliff_fee_numerator: spec_u64_from_le_bytes(s.subrange(0, 8)),
            number_of_period: spec_u16_from_le_bytes(s.subrange(8, 10)),
            sqrt_price_step_bps: spec_u32_from_le_bytes(s.subrange(10, 14)),
            scheduler_expiration_duration: spec_u32_from_le_bytes(s.subrange(14, 18)),
            reduction_factor: spec_u64_from_le_bytes(s.subrange(18, 26)),
            base_fee_mode: s[26],
            padding: [s[27], s[28], s[29]],
        }
    }

    /// Decodes any 30 wire bytes.
    pub fn from_bytes(data: &[u8; 30]) -> (r: Self)
        ensures
            r == Self::spec_from_bytes(data@),
            r.spec_bytes() == data@,
    {
        let r = BorshFeeMarketCapScheduler {
            cliff_fee_numerator: read_u64_at(data, 0),
            number_of_period: read_u16_at(data, 8),
            sqrt_price_step_bps: read_u32_at(data, 10),
            scheduler_expiration_duration: read_u32_at(data, 14),
            reduction_factor: read_u64_at(data, 18),
            base_fee_mode: data[26],
            padding: [data[27], data[28], data[29]],
        };
        proof {
            lemma_le_round_trips();
            assert(r.padding@ =~= data@.subrange(27, 30));
            assert(data@ =~= data@.subrange(0, 8) + data@.subrange(8, 10) + data@.subrange(10, 14) + data@.subrange(14, 18)
                + data@.subrange(18, 26) + seq![data@[26]] + data@.subrange(27, 30));
        }
        r
    }

    /// Encodes the record in its wire layout.
    pub fn to_bytes(&self) -> (r: [u8; 30])
        ensures
            r@ == self.spec_bytes(),
    {
        let mut v: Vec<u8> = Vec::new();
        push_u64(&mut v, self.cliff_fee_numerator);
        push_u16(&mut v, self.number_of_period);
        push_u32(&mut v, self.sqrt_price_step_bps);
        push_u32(&mut v, self.scheduler_expiration_duration);
        push_u64(&mut v, self.reduction_factor);
        v.push(self.base_fee_mode);
        v.push(self.padding[0]);
        v.push(self.padding[1]);
        v.push(self.padding[2]);
        proof {
            lemma_le_round_trips();
            assert(v@ =~= self.spec_bytes());
        }
        to_array30(&v)
    }
}

impl BorshBaseFeeSerde for BorshFeeMarketCapScheduler {
    open spec fn spec_pod_bytes(&self) -> Seq<u8> {
        self.spec_to_pod().spec_bytes()
    }

    fn to_pod_aligned_bytes(&self) -> (r: Result<[u8; 32], PoolError>)
        ensures
            r matches Ok(b) && b@ == self.spec_pod_bytes(),
    {
        let pod = PodAlignedFeeMarketCapScheduler {
            cliff_fee_numerator: self.cliff_fee_numerator,
            base_fee_mode: self.base_fee_mode,
            padding: [0u8; 5],
            number_of_period: self.number_of_period,
            sqrt_price_step_bps: self.sqrt_price_step_bps,
            scheduler_expiration_duration: self.scheduler_expiration_duration,
            reduction_factor: self.reduction_factor,
        };
        assert(pod.padding@ =~= self.spec_to_pod().padding@);
        Ok(pod.to_bytes())
    }
}

impl PodAlignedFeeMarketCapScheduler {
    /// The 32 runtime bytes of the record.
    pub open spec fn spec_bytes(&self) -> Seq<u8> {
        spec_u64_to_le_bytes(self.cliff_fee_numerator) + seq![self.base_fee_mode] + self.padding@
            + spec_u16_to_le_bytes(self.number_of_period) + spec_u32_to_le_bytes(self.sqrt_price_step_bps) + spec_u32_to_le_bytes(self.scheduler_expiration_duration)
            + spec_u64_to_le_bytes(self.reduction_factor)
    }

    /// The wire record with the same fields and zeroed padding.
    pub open spec fn spec_to_borsh(&self) -> BorshFeeMarketCapScheduler {
        BorshFeeMarketCapScheduler {
            cliff_fee_numerator: self.cliff_fee_numerator,
            number_of_period: self.number_of_period,
            sqrt_price_step_bps: self.sqrt_price_step_bps,
            scheduler_expiration_duration: self.scheduler_expiration_duration,
            reduction_factor: self.reduction_factor,
            base_fee_mode: self.base_fee_mode,
            padding: [0u8, 0u8, 0u8],
        }
    }

    /// The record that 32 runtime bytes hold.
    pub open spec fn spec_from_bytes(s: Seq<u8>) -> Self {
        PodAlignedFeeMarketCapScheduler {
            cliff_fee_numerator: spec_u64_from_le_bytes(s.subrange(0, 8)),
            base_fee_mode: s[8],
            padding: [s[9], s[10], s[11], s[12], s[13]],
            number_of_period: spec_u16_from_le_bytes(s.subrange(14, 16)),
            sqrt_price_step_bps: spec_u32_from_le_bytes(s.subrange(16, 20)),
            scheduler_expiration_duration: spec_u32_from_le_bytes(s.subrange(20, 24)),
            reduction_factor: spec_u64_from_le_bytes(s.subrange(24, 32)),
        }
    }

    /// Decodes any 32 runtime bytes.
    pub fn from_bytes(data: &[u8; 32]) -> (r: Self)
        ensures
            r == Self::spec_from_bytes(data@),
            r.spec_bytes() == data@,
    {
        let r = PodAlignedFeeMarketCapScheduler {
            cliff_fee_numerator: read_u64_at(data, 0),
            base_fee_mode: data[8],
            padding: [data[9], data[10], data[11], data[12], data[13]],
            number_of_period: read_u16_at(data, 14),
            sqrt_price_step_bps: read_u32_at(data, 16),
            scheduler_expiration_duration: read_u32_at(data, 20),
            reduction_factor: read_u64_at(data, 24),
        };
        proof {
            lemma_le_round_trips();
            assert(r.padding@ =~= data@.subrange(9, 14));
            assert(data@ =~= data@.subrange(0, 8) + seq![data@[8]] + data@.subrange(9, 14)
                + data@.subrange(14, 16) + data@.subrange(16, 20) + data@.subrange(20, 24) + data@.subrange(24, 32));
        }
        r
    }

    /// Encodes the record in its runtime layout.
    pub fn to_bytes(&self) -> (r: [u8; 32])
        ensures
            r@ == self.spec_bytes(),
    {
        let mut v: Vec<u8> = Vec::new();
        push_u64(&mut v, self.cliff_fee_numerator);
        v.push(self.base_fee_mode);
        v.push(self.padding[0]);
        v.push(self.padding[1]);
        v.push(self.padding[2]);
        v.push(self.padding[3]);
        v.push(self.padding[4]);
        push_u16(&mut v, self.number_of_period);
        push_u32(&mut v, self.sqrt_price_step_bps);
        push_u32(&mut v, self.scheduler_expiration_duration);
        push_u64(&mut v, self.reduction_factor);
        proof {
            lemma_le_round_trips();
            assert(v@ =~= self.spec_bytes());
        }
        to_array32(&v)
    }
}

impl PodAlignedBaseFeeSerde for PodAlignedFeeMarketCapScheduler {
    open spec fn spec_borsh_bytes(&self) -> Seq<u8> {
        self.spec_to_borsh().spec_bytes()
    }

    fn to_borsh_bytes(&self) -> (r: Result<[u8; 30], PoolError>)
        ensures
            r matches Ok(b) && b@ == self.spec_borsh_bytes(),
    {
        let borsh = BorshFeeMarketCapScheduler {
            cliff_fee_numerator: self.cliff_fee_numerator,
            number_of_period: self.number_of_period,
            sqrt_price_step_bps: self.sqrt_price_step_bps,
            scheduler_expiration_duration: self.scheduler_expiration_duration,
            reduction_factor: self.reduction_factor,
            base_fee_mode: self.base_fee_mode,
            padding: [0u8; 3],
        };
        assert(borsh.padding@ =~= self.spec_to_borsh().padding@);
        Ok(borsh.to_bytes())
    }
}


impl PodAlignedFeeMarketCapScheduler {
    /// Fee at `period`, the period first clamped to `number_of_period`.
    pub open spec fn spec_fee_by_period(&self, period: nat) -> Result<u64, PoolError> {
        let p = if period <= self.number_of_period { period } else { self.number_of_period as nat };
        decayed_fee(
            self.base_fee_mode,
            BaseFeeMode::FeeMarketCapSchedulerLinear,
            BaseFeeMode::FeeMarketCapSchedulerExponential,
            self.cliff_fee_numerator,
            self.reduction_factor,
            p,
        )
    }

    /// Decay period: `number_of_period` before activation and after expiry; otherwise the
    /// price growth since the initial price in steps of `sqrt_price_step_bps`, clamped to
    /// `number_of_period`, and zero when the price has not risen.
    pub open spec fn spec_period(
        &self,
        current_point: u64,
        activation_point: u64,
        init_sqrt_price: u128,
        current_sqrt_price: u128,
    ) -> Result<nat, PoolError> {
        let expiration = activation_point + self.scheduler_expiration_duration;
        if expiration > u64::MAX {
            Err(PoolError::MathOverflow)
        } else if current_point > expiration || current_point < activation_point {
            Ok(self.number_of_period as nat)
        } else if current_sqrt_price <= init_sqrt_price {
            Ok(0)
        } else if init_sqrt_price == 0 || self.sqrt_price_step_bps == 0 {
            Err(PoolError::MathOverflow)
        } else {
            let passed = ((current_sqrt_price - init_sqrt_price) as nat * MAX_BASIS_POINT as nat
                / init_sqrt_price as nat) / self.sqrt_price_step_bps as nat;
            Ok(if passed <= self.number_of_period { passed } else { self.number_of_period as nat })
        }
    }

    /// Fee numerator at the given time and price.
    pub open spec fn spec_fee(
        &self,
        current_point: u64,
        activation_point: u64,
        init_sqrt_price: u128,
        current_sqrt_price: u128,
    ) -> Result<u64, PoolError> {
        match self.spec_period(current_point, activation_point, init_sqrt_price, current_sqrt_price) {
            Err(e) => Err(e),
            Ok(p) => self.spec_fee_by_period(p),
        }
    }

    /// Fee at the terminal period.
    pub open spec fn spec_min_fee(&self) -> Result<u64, PoolError> {
        self.spec_fee_by_period(self.number_of_period as nat)
    }

    /// The outcome of `validate`.
    pub open spec fn spec_validate(&self) -> Result<(), PoolError> {
        if self.reduction_factor == 0 || self.sqrt_price_step_bps == 0
            || self.scheduler_expiration_duration == 0 || self.number_of_period == 0 {
            Err(PoolError::InvalidFeeMarketCapScheduler)
        } else {
            match self.spec_min_fee() {
                Err(e) => Err(e),
                Ok(min_fee) => if min_fee >= FEE_DENOMINATOR || self.cliff_fee_numerator >= FEE_DENOMINATOR {
                    Err(PoolError::InvalidFee)
                } else if min_fee >= MIN_FEE_NUMERATOR
                    && (max_fee_numerator_of(CURRENT_POOL_VERSION) matches Ok(cap)
                    && self.cliff_fee_numerator <= cap) {
                    Ok(())
                } else {
                    Err(PoolError::ExceedMaxFeeBps)
                },
            }
        }
    }

    pub fn get_base_fee_numerator_by_period(&self, period: u64) -> (r: Result<u64, PoolError>)
        ensures
            r == self.spec_fee_by_period(period as nat),
            r matches Ok(v) ==> v <= self.cliff_fee_numerator,
    {
        let period = if period <= self.number_of_period as u64 { period } else { self.number_of_period as u64 };
        match BaseFeeMode::try_from_u8(self.base_fee_mode) {
            None => Err(PoolError::TypeCastFailed),
            Some(BaseFeeMode::FeeMarketCapSchedulerLinear) => {
                let reduction = self.reduction_factor.safe_mul(period)?;
                self.cliff_fee_numerator.safe_sub(reduction)
            },
            Some(BaseFeeMode::FeeMarketCapSchedulerExponential) => {
                get_fee_in_period(self.cliff_fee_numerator, self.reduction_factor, period as u16)
            },
            Some(_) => Err(PoolError::UndeterminedError),
        }
    }

    /// Price-growth steps since the initial price, clamped to `number_of_period`.
    fn get_passed_period(&self, init_sqrt_price: u128, current_sqrt_price: u128) -> (r: Result<u64, PoolError>)
        requires
            current_sqrt_price > init_sqrt_price,
        ensures
            r is Ok <==> init_sqrt_price != 0 && self.sqrt_price_step_bps != 0,
            r matches Ok(p) ==> {
                let passed = ((current_sqrt_price - init_sqrt_price) as nat * MAX_BASIS_POINT as nat
                    / init_sqrt_price as nat) / self.sqrt_price_step_bps as nat;
                p as nat == if passed <= self.number_of_period { passed } else { self.number_of_period as nat }
            },
            r matches Err(e) ==> e == PoolError::MathOverflow,
    {
        let diff = U256Limbs::from_u128(current_sqrt_price - init_sqrt_price);
        let max_bps = U256Limbs::from_u128(MAX_BASIS_POINT as u128);
        proof {
            let b = crate::u256::limb_base();
            assert(diff.value() < b * b);
            assert(diff.value() * max_bps.value() < b * b * b * b) by (nonlinear_arith)
                requires diff.value() < b * b, max_bps.value() == 10000, b == 0x1_0000_0000_0000_0000nat;
        }
        let scaled = match u256_checked_mul(diff, max_bps) {
            Some(v) => v,
            None => return Err(PoolError::MathOverflow),
        };
        let per_price = match u256_checked_div(scaled, U256Limbs::from_u128(init_sqrt_price)) {
            Some(v) => v,
            None => return Err(PoolError::MathOverflow),
        };
        let passed = match u256_checked_div(per_price, U256Limbs::from_u128(self.sqrt_price_step_bps as u128)) {
            Some(v) => v,
            None => return Err(PoolError::MathOverflow),
        };
        match passed.to_u64() {
            Some(p) => if p <= self.number_of_period as u64 {
                Ok(p)
            } else {
                Ok(self.number_of_period as u64)
            },
            None => Ok(self.number_of_period as u64),
        }
    }

    pub fn get_base_fee_numerator(
        &self,
        current_point: u64,
        activation_point: u64,
        init_sqrt_price: u128,
        current_sqrt_price: u128,
    ) -> (r: Result<u64, PoolError>)
        ensures
            r == self.spec_fee(current_point, activation_point, init_sqrt_price, current_sqrt_price),
    {
        let expiration = activation_point.safe_add(self.scheduler_expiration_duration as u64)?;
        let period: u64 = if current_point > expiration || current_point < activation_point {
            self.number_of_period as u64
        } else if current_sqrt_price <= init_sqrt_price {
            0
        } else {
            self.get_passed_period(init_sqrt_price, current_sqrt_price)?
        };
        self.get_base_fee_numerator_by_period(period)
    }

    /// Checks that the schedule is consistent and that its fees lie within the protocol bounds.
    pub fn validate(&self, collect_fee_mode: CollectFeeMode, activation_type: ActivationType) -> (r: Result<(), PoolError>)
        ensures
            r == self.spec_validate(),
            r is Ok ==> (self.spec_min_fee() matches Ok(min_fee) && min_fee >= MIN_FEE_NUMERATOR),
            r is Ok ==> (max_fee_numerator_of(CURRENT_POOL_VERSION) matches Ok(cap) && self.cliff_fee_numerator <= cap),
    {
        if self.reduction_factor == 0 || self.sqrt_price_step_bps == 0
            || self.scheduler_expiration_duration == 0 || self.number_of_period == 0 {
            return Err(PoolError::InvalidFeeMarketCapScheduler);
        }
        let min_fee_numerator = self.get_min_base_fee_numerator()?;
        let max_fee_numerator = self.cliff_fee_numerator;
        validate_fee_fraction(min_fee_numerator, FEE_DENOMINATOR)?;
        validate_fee_fraction(max_fee_numerator, FEE_DENOMINATOR)?;
        let cap = get_max_fee_numerator(CURRENT_POOL_VERSION)?;
        if min_fee_numerator >= MIN_FEE_NUMERATOR && max_fee_numerator <= cap {
            Ok(())
        } else {
            Err(PoolError::ExceedMaxFeeBps)
        }
    }

    pub fn get_base_fee_numerator_from_excluded_fee_amount(
        &self,
        current_point: u64,
        activation_point: u64,
        init_sqrt_price: u128,
        current_sqrt_price: u128,
    ) -> (r: Result<u64, PoolError>)
        ensures
            r == self.spec_fee(current_point, activation_point, init_sqrt_price, current_sqrt_price),
    {
        self.get_base_fee_numerator(current_point, activation_point, init_sqrt_price, current_sqrt_price)
    }

    pub fn get_base_fee_numerator_from_included_fee_amount(
        &self,
        current_point: u64,
        activation_point: u64,
        init_sqrt_price: u128,
        current_sqrt_price: u128,
    ) -> (r: Result<u64, PoolError>)
        ensures
            r == self.spec_fee(current_point, activation_point, init_sqrt_price, current_sqrt_price),
    {
        self.get_base_fee_numerator(current_point, activation_point, init_sqrt_price, current_sqrt_price)
    }

    /// Whether the schedule has expired, after which the fee never changes.
    pub fn validate_base_fee_is_static(&self, current_point: u64, activation_point: u64) -> (r: Result<bool, PoolError>)
        ensures
            r == Ok::<bool, PoolError>(current_point as int > activation_point as int
                + self.scheduler_expiration_duration as int),
    {
        let expiration: u128 = (activation_point as u128) + (self.scheduler_expiration_duration as u128);
        Ok((current_point as u128) > expiration)
    }

    pub fn get_min_base_fee_numerator(&self) -> (r: Result<u64, PoolError>)
        ensures
            r == self.spec_min_fee(),
    {
        self.get_base_fee_numerator_by_period(self.number_of_period as u64)
    }
}

impl BorshFeeMarketCapScheduler {
    /// Encoding what any 30 bytes decode to gives those bytes back.
    pub proof fn lemma_decode_encode(s: Seq<u8>)
        requires
            s.len() == 30,
        ensures
            Self::spec_from_bytes(s).spec_bytes() == s,
    {
        lemma_le_round_trips();
        assert(Self::spec_from_bytes(s).padding@ =~= s.subrange(27, 30));
        assert(s =~= s.subrange(0, 8) + s.subrange(8, 10) + s.subrange(10, 14) + s.subrange(14, 18) + s.subrange(18, 26) + seq![s[26]] + s.subrange(27, 30));
    }

    /// Decoding the bytes of a record gives the record back.
    pub proof fn lemma_encode_decode(self)
        ensures
            Self::spec_from_bytes(self.spec_bytes()) == self,
            self.spec_bytes().len() == 30,
    {
        lemma_le_round_trips();
        let b = self.spec_bytes();
        assert(b.subrange(0, 8) =~= spec_u64_to_le_bytes(self.cliff_fee_numerator));
        assert(b.subrange(8, 10) =~= spec_u16_to_le_bytes(self.number_of_period));
        assert(b.subrange(10, 14) =~= spec_u32_to_le_bytes(self.sqrt_price_step_bps));
        assert(b.subrange(14, 18) =~= spec_u32_to_le_bytes(self.scheduler_expiration_duration));
        assert(b.subrange(18, 26) =~= spec_u64_to_le_bytes(self.reduction_factor));
        assert(Self::spec_from_bytes(b).padding =~= self.padding);
    }
}

impl PodAlignedFeeMarketCapScheduler {
    /// Encoding what any 32 bytes decode to gives those bytes back.
    pub proof fn lemma_decode_encode(s: Seq<u8>)
        requires
            s.len() == 32,
        ensures
            Self::spec_from_bytes(s).spec_bytes() == s,
    {
        lemma_le_round_trips();
        assert(Self::spec_from_bytes(s).padding@ =~= s.subrange(9, 14));
        assert(s =~= s.subrange(0, 8) + seq![s[8]] + s.subrange(9, 14) + s.subrange(14, 16) + s.subrange(16, 20) + s.subrange(20, 24) + s.subrange(24, 32));
    }

    /// Decoding the bytes of a record gives the record back.
    pub proof fn lemma_encode_decode(self)
        ensures
            Self::spec_from_bytes(self.spec_bytes()) == self,
            self.spec_bytes().len() == 32,
    {
        lemma_le_round_trips();
        let b = self.spec_bytes();
        assert(b.subrange(0, 8) =~= spec_u64_to_le_bytes(self.cliff_fee_numerator));
        assert(Self::spec_from_bytes(b).padding =~= self.padding);
        assert(b.subrange(14, 16) =~= spec_u16_to_le_bytes(self.number_of_period));
        assert(b.subrange(16, 20) =~= spec_u32_to_le_bytes(self.sqrt_price_step_bps));
        assert(b.subrange(20, 24) =~= spec_u32_to_le_bytes(self.scheduler_expiration_duration));
        assert(b.subrange(24, 32) =~= spec_u64_to_le_bytes(self.reduction_factor));
    }
}

} // verus!
