use crate::base_fee_mode::{base_fee_mode_from_byte, ActivationType, BaseFeeMode, CollectFeeMode};
use crate::constants::{
    get_max_fee_numerator, max_fee_numerator_of, validate_fee_fraction, CURRENT_POOL_VERSION,
    FEE_DENOMINATOR, MIN_FEE_NUMERATOR,
};
use crate::base_fee_serde::{BorshBaseFeeSerde, PodAlignedBaseFeeSerde};
use crate::error::PoolError;
use crate::fee_math::{fee_in_period, get_fee_in_period, lemma_fee_in_period_antitone};
use crate::le_bytes::{lemma_le_round_trips, push_u16, push_u64, read_u16_at, read_u64_at, to_array30, to_array32};
use crate::safe_math::SafeMath;
use vstd::bytes::*;
use vstd::prelude::*;

verus! {

/// Fee of a decaying schedule at a period already clamped to `number_of_period`.
pub open spec fn decayed_fee(mode_byte: u8, linear: BaseFeeMode, exponential: BaseFeeMode, cliff_fee_numerator: u64, reduction_factor: u64, period: nat) -> Result<u64, PoolError> {
    match base_fee_mode_from_byte(mode_byte) {
        None => Err(PoolError::TypeCastFailed),
        Some(m) => if m == linear {
            if reduction_factor * period <= u64::MAX && reduction_factor * period <= cliff_fee_numerator {
                Ok((cliff_fee_numerator - reduction_factor * period) as u64)
            } else {
                Err(PoolError::MathOverflow)
            }
        } else if m == exponential {
            fee_in_period(cliff_fee_numerator, reduction_factor, period)
        } else {
            Err(PoolError::UndeterminedError)
        },
    }
}

/// Time scheduler in its wire layout (little-endian, packed, 30 bytes, mode tag at byte 26).
#[derive(Clone, Copy, Debug, PartialEq, Eq, Default)]
pub struct BorshFeeTimeScheduler {
    pub cliff_fee_numerator: u64,
    pub number_of_period: u16,
    pub period_frequency: u64,
    pub reduction_factor: u64,
    pub base_fee_mode: u8,
    pub padding: [u8; 3],
}

/// Time scheduler in its runtime layout (32 bytes, mode tag at byte 8).
#[derive(Clone, Copy, Debug, PartialEq, Eq, Default)]
pub struct PodAlignedFeeTimeScheduler {
    pub cliff_fee_numerator: u64,
    pub base_fee_mode: u8,
    pub padding: [u8; 5],
    pub number_of_period: u16,
    pub period_frequency: u64,
    pub reduction_factor: u64,
}

impl BorshFeeTimeScheduler {
    /// The 30 wire bytes of the record.
    pub open spec fn spec_bytes(&self) -> Seq<u8> {
        spec_u64_to_le_bytes(self.cliff_fee_numerator) + spec_u16_to_le_bytes(self.number_of_period)
            + spec_u64_to_le_bytes(self.period_frequency) + spec_u64_to_le_bytes(self.reduction_factor)
            + seq![self.base_fee_mode] + self.padding@
    }

    /// The runtime record with the same fields and zeroed padding.
    pub open spec fn spec_to_pod(&self) -> PodAlignedFeeTimeScheduler {
        PodAlignedFeeTimeScheduler {
            cliff_fee_numerator: self.cliff_fee_numerator,
            base_fee_mode: self.base_fee_mode,
            padding: [0u8, 0u8, 0u8, 0u8, 0u8],
            number_of_period: self.number_of_period,
            period_frequency: self.period_frequency,
            reduction_factor: self.reduction_factor,
        }
    }

    /// The record that 30 wire bytes hold.
    pub open spec fn spec_from_bytes(s: Seq<u8>) -> Self {
        BorshFeeTimeScheduler {
            cliff_fee_numerator: spec_u64_from_le_bytes(s.subrange(0, 8)),
            number_of_period: spec_u16_from_le_bytes(s.subrange(8, 10)),
            period_frequency: spec_u64_from_le_bytes(s.subrange(10, 18)),
            reduction_factor: spec_u64_from_le_bytes(s.subrange(18, 26)),
            base_fee_mode: s[26],
            padding: [s[27], s[28], s[29]],
        }
    }

    /// Decodes any 30 wire bytes.
    pub fn from_bytes(data: &[u8; 30]) -> (r: Self)
        ensures
            r == Self::spec_from_bytes(data@),
            r.spec_bytes() == data@,
    {
        let r = BorshFeeTimeScheduler {
            cliff_fee_numerator: read_u64_at(data, 0),
            number_of_period: read_u16_at(data, 8),
            period_frequency: read_u64_at(data, 10),
            reduction_factor: read_u64_at(data, 18),
            base_fee_mode: data[26],
            padding: [data[27], data[28], data[29]],
        };
        proof {
            lemma_le_round_trips();
            assert(r.padding@ =~= data@.subrange(27, 30));
            assert(data@ =~= data@.subrange(0, 8) + data@.subrange(8, 10) + data@.subrange(10, 18)
                + data@.subrange(18, 26) + seq![data@[26]] + data@.subrange(27, 30));
        }
        r
    }

    /// Encodes the record in its wire layout.
    pub fn to_bytes(&self) -> (r: [u8; 30])
        ensures
            r@ == self.spec_bytes(),
    {
        let mut v: Vec<u8> = Vec::new();
        push_u64(&mut v, self.cliff_fee_numerator);
        push_u16(&mut v, self.number_of_period);
        push_u64(&mut v, self.period_frequency);
        push_u64(&mut v, self.reduction_factor);
        v.push(self.base_fee_mode);
        v.push(self.padding[0]);
        v.push(self.padding[1]);
        v.push(self.padding[2]);
        proof {
            lemma_le_round_trips();
            assert(v@ =~= self.spec_bytes());
        }
        to_array30(&v)
    }
}

impl BorshBaseFeeSerde for BorshFeeTimeScheduler {
    open spec fn spec_pod_bytes(&self) -> Seq<u8> {
        self.spec_to_pod().spec_bytes()
    }

    fn to_pod_aligned_bytes(&self) -> (r: Result<[u8; 32], PoolError>)
        ensures
            r matches Ok(b) && b@ == self.spec_pod_bytes(),
    {
        let pod = PodAlignedFeeTimeScheduler {
            cliff_fee_numerator: self.cliff_fee_numerator,
            base_fee_mode: self.base_fee_mode,
            padding: [0u8; 5],
            number_of_period: self.number_of_period,
            period_frequency: self.period_frequency,
            reduction_factor: self.reduction_factor,
        };
        assert(pod.padding@ =~= self.spec_to_pod().padding@);
        Ok(pod.to_bytes())
    }
}

impl PodAlignedFeeTimeScheduler {
    /// The 32 runtime bytes of the record.
    pub open spec fn spec_bytes(&self) -> Seq<u8> {
        spec_u64_to_le_bytes(self.cliff_fee_numerator) + seq![self.base_fee_mode] + self.padding@
            + spec_u16_to_le_bytes(self.number_of_period) + spec_u64_to_le_bytes(self.period_frequency)
            + spec_u64_to_le_bytes(self.reduction_factor)
    }

    /// The wire record with the same fields and zeroed padding.
    pub open spec fn spec_to_borsh(&self) -> BorshFeeTimeScheduler {
        BorshFeeTimeScheduler {
            cliff_fee_numerator: self.cliff_fee_numerator,
            number_of_period: self.number_of_period,
            period_frequency: self.period_frequency,
            reduction_factor: self.reduction_factor,
            base_fee_mode: self.base_fee_mode,
            padding: [0u8, 0u8, 0u8],
        }
    }

    /// The record that 32 runtime bytes hold.
    pub open spec fn spec_from_bytes(s: Seq<u8>) -> Self {
        PodAlignedFeeTimeScheduler {
            cliff_fee_numerator: spec_u64_from_le_bytes(s.subrange(0, 8)),
            base_fee_mode: s[8],
            padding: [s[9], s[10], s[11], s[12], s[13]],
            number_of_period: spec_u16_from_le_bytes(s.subrange(14, 16)),
            period_frequency: spec_u64_from_le_bytes(s.subrange(16, 24)),
            reduction_factor: spec_u64_from_le_bytes(s.subrange(24, 32)),
        }
    }

    /// Decodes any 32 runtime bytes.
    pub fn from_bytes(data: &[u8; 32]) -> (r: Self)
        ensures
            r == Self::spec_from_bytes(data@),
            r.spec_bytes() == data@,
    {
        let r = PodAlignedFeeTimeScheduler {
            cliff_fee_numerator: read_u64_at(data, 0),
            base_fee_mode: data[8],
            padding: [data[9], data[10], data[11], data[12], data[13]],
            number_of_period: read_u16_at(data, 14),
            period_frequency: read_u64_at(data, 16),
            reduction_factor: read_u64_at(data, 24),
        };
        proof {
            lemma_le_round_trips();
            assert(r.padding@ =~= data@.subrange(9, 14));
            assert(data@ =~= data@.subrange(0, 8) + seq![data@[8]] + data@.subrange(9, 14)
                + data@.subrange(14, 16) + data@.subrange(16, 24) + data@.subrange(24, 32));
        }
        r
    }

    /// Encodes the record in its runtime layout.
    pub fn to_bytes(&self) -> (r: [u8; 32])
        ensures
            r@ == self.spec_bytes(),
    {
        let mut v: Vec<u8> = Vec::new();
        push_u64(&mut v, self.cliff_fee_numerator);
        v.push(self.base_fee_mode);
        v.push(self.padding[0]);
        v.push(self.padding[1]);
        v.push(self.padding[2]);
        v.push(self.padding[3]);
        v.push(self.padding[4]);
        push_u16(&mut v, self.number_of_period);
        push_u64(&mut v, self.period_frequency);
        push_u64(&mut v, self.reduction_factor);
        proof {
            lemma_le_round_trips();
            assert(v@ =~= self.spec_bytes());
        }
        to_array32(&v)
    }
}

impl PodAlignedBaseFeeSerde for PodAlignedFeeTimeScheduler {
    open spec fn spec_borsh_bytes(&self) -> Seq<u8> {
        self.spec_to_borsh().spec_bytes()
    }

    fn to_borsh_bytes(&self) -> (r: Result<[u8; 30], PoolError>)
        ensures
            r matches Ok(b) && b@ == self.spec_borsh_bytes(),
    {
        let borsh = BorshFeeTimeScheduler {
            cliff_fee_numerator: self.cliff_fee_numerator,
            number_of_period: self.number_of_period,
            period_frequency: self.period_frequency,
            reduction_factor: self.reduction_factor,
            base_fee_mode: self.base_fee_mode,
            padding: [0u8; 3],
        };
        assert(borsh.padding@ =~= self.spec_to_borsh().padding@);
        Ok(borsh.to_bytes())
    }
}

impl PodAlignedFeeTimeScheduler {
    /// Fee at `period`, the period first clamped to `number_of_period`.
    pub open spec fn spec_fee_by_period(&self, period: nat) -> Result<u64, PoolError> {
        let p = if period <= self.number_of_period { period } else { self.number_of_period as nat };
        decayed_fee(
            self.base_fee_mode,
            BaseFeeMode::FeeTimeSchedulerLinear,
            BaseFeeMode::FeeTimeSchedulerExponential,
            self.cliff_fee_numerator,
            self.reduction_factor,
            p,
        )
    }

    /// Decay period at `current_point`: elapsed periods since activation, clamped to
    /// `number_of_period`; the last period before activation.
    pub open spec fn spec_period(&self, current_point: u64, activation_point: u64) -> nat
        recommends
            self.period_frequency > 0,
    {
        if current_point < activation_point {
            self.number_of_period as nat
        } else {
            let p = ((current_point - activation_point) as nat) / (self.period_frequency as nat);
            if p <= self.number_of_period { p } else { self.number_of_period as nat }
        }
    }

    /// Fee numerator at `current_point`; the cliff fee when the schedule is disabled.
    pub open spec fn spec_fee(&self, current_point: u64, activation_point: u64) -> Result<u64, PoolError> {
        if self.period_frequency == 0 {
            Ok(self.cliff_fee_numerator)
        } else {
            self.spec_fee_by_period(self.spec_period(current_point, activation_point))
        }
    }

    /// Fee at the terminal period.
    pub open spec fn spec_min_fee(&self) -> Result<u64, PoolError> {
        self.spec_fee_by_period(self.number_of_period as nat)
    }

    /// The outcome of `validate`.
    pub open spec fn spec_validate(&self) -> Result<(), PoolError> {
        if (self.period_frequency != 0 || self.number_of_period != 0 || self.reduction_factor != 0)
            && !(self.number_of_period != 0 && self.period_frequency != 0 && self.reduction_factor != 0) {
            Err(PoolError::InvalidFeeTimeScheduler)
        } else {
            match self.spec_min_fee() {
                Err(e) => Err(e),
                Ok(min_fee) => if min_fee >= FEE_DENOMINATOR || self.cliff_fee_numerator >= FEE_DENOMINATOR {
                    Err(PoolError::InvalidFee)
                } else if min_fee >= MIN_FEE_NUMERATOR
                    && (max_fee_numerator_of(CURRENT_POOL_VERSION) matches Ok(cap)
                    && self.cliff_fee_numerator <= cap) {
                    Ok(())
                } else {
                    Err(PoolError::ExceedMaxFeeBps)
                },
            }
        }
    }

    pub fn get_max_base_fee_numerator(&self) -> (r: u64)
        ensures
            r == self.cliff_fee_numerator,
    {
        self.cliff_fee_numerator
    }

    pub fn get_base_fee_numerator_by_period(&self, period: u64) -> (r: Result<u64, PoolError>)
        ensures
            r == self.spec_fee_by_period(period as nat),
            r matches Ok(v) ==> v <= self.cliff_fee_numerator,
    {
        let period = if period <= self.number_of_period as u64 { period } else { self.number_of_period as u64 };
        match BaseFeeMode::try_from_u8(self.base_fee_mode) {
            None => Err(PoolError::TypeCastFailed),
            Some(BaseFeeMode::FeeTimeSchedulerLinear) => {
                let reduction = self.reduction_factor.safe_mul(period)?;
                self.cliff_fee_numerator.safe_sub(reduction)
            },
            Some(BaseFeeMode::FeeTimeSchedulerExponential) => {
                get_fee_in_period(self.cliff_fee_numerator, self.reduction_factor, period as u16)
            },
            Some(_) => Err(PoolError::UndeterminedError),
        }
    }

    pub fn get_base_fee_numerator(&self, current_point: u64, activation_point: u64) -> (r: Result<u64, PoolError>)
        ensures
            r == self.spec_fee(current_point, activation_point),
    {
        if self.period_frequency == 0 {
            return Ok(self.cliff_fee_numerator);
        }
        let period = if current_point < activation_point {
            self.number_of_period as u64
        } else {
            let elapsed = current_point - activation_point;
            let p = elapsed / self.period_frequency;
            if p <= self.number_of_period as u64 { p } else { self.number_of_period as u64 }
        };
        self.get_base_fee_numerator_by_period(period)
    }

    /// Checks that the schedule is consistent and that its fees lie within the protocol bounds.
    pub fn validate(&self, collect_fee_mode: CollectFeeMode, activation_type: ActivationType) -> (r: Result<(), PoolError>)
        ensures
            r == self.spec_validate(),
            r is Ok ==> (self.spec_min_fee() matches Ok(min_fee) && min_fee >= MIN_FEE_NUMERATOR),
            r is Ok ==> (max_fee_numerator_of(CURRENT_POOL_VERSION) matches Ok(cap) && self.cliff_fee_numerator <= cap),
    {
        if self.period_frequency != 0 || self.number_of_period != 0 || self.reduction_factor != 0 {
            if !(self.number_of_period != 0 && self.period_frequency != 0 && self.reduction_factor != 0) {
                return Err(PoolError::InvalidFeeTimeScheduler);
            }
        }
        let min_fee_numerator = self.get_min_base_fee_numerator()?;
        let max_fee_numerator = self.get_max_base_fee_numerator();
        validate_fee_fraction(min_fee_numerator, FEE_DENOMINATOR)?;
        validate_fee_fraction(max_fee_numerator, FEE_DENOMINATOR)?;
        let cap = get_max_fee_numerator(CURRENT_POOL_VERSION)?;
        if min_fee_numerator >= MIN_FEE_NUMERATOR && max_fee_numerator <= cap {
            Ok(())
        } else {
            Err(PoolError::ExceedMaxFeeBps)
        }
    }

    pub fn get_base_fee_numerator_from_included_fee_amount(&self, current_point: u64, activation_point: u64) -> (r: Result<u64, PoolError>)
        ensures
            r == self.spec_fee(current_point, activation_point),
    {
        self.get_base_fee_numerator(current_point, activation_point)
    }

    pub fn get_base_fee_numerator_from_excluded_fee_amount(&self, current_point: u64, activation_point: u64) -> (r: Result<u64, PoolError>)
        ensures
            r == self.spec_fee(current_point, activation_point),
    {
        self.get_base_fee_numerator(current_point, activation_point)
    }

    /// Whether the schedule has passed its last period, after which the fee never changes.
    pub fn validate_base_fee_is_static(&self, current_point: u64, activation_point: u64) -> (r: Result<bool, PoolError>)
        ensures
            r == Ok::<bool, PoolError>(current_point as int > activation_point as int
                + self.number_of_period as int * self.period_frequency as int),
    {
        proof {
            assert(self.number_of_period as int * self.period_frequency as int <= u16::MAX as int * u64::MAX as int) by (nonlinear_arith)
                requires self.number_of_period <= u16::MAX, self.period_frequency <= u64::MAX;
        }
        let span: u128 = (self.number_of_period as u128) * (self.period_frequency as u128);
        let expiration: u128 = (activation_point as u128) + span;
        Ok((current_point as u128) > expiration)
    }

    pub fn get_min_base_fee_numerator(&self) -> (r: Result<u64, PoolError>)
        ensures
            r == self.spec_min_fee(),
    {
        self.get_base_fee_numerator_by_period(self.number_of_period as u64)
    }
}

impl BorshFeeTimeScheduler {
    /// Encoding what any 30 bytes decode to gives those bytes back.
    pub proof fn lemma_decode_encode(s: Seq<u8>)
        requires
            s.len() == 30,
        ensures
            Self::spec_from_bytes(s).spec_bytes() == s,
    {
        lemma_le_round_trips();
        assert(Self::spec_from_bytes(s).padding@ =~= s.subrange(27, 30));
        assert(s =~= s.subrange(0, 8) + s.subrange(8, 10) + s.subrange(10, 18) + s.subrange(18, 26) + seq![s[26]] + s.subrange(27, 30));
    }

    /// Decoding the bytes of a record gives the record back.
    pub proof fn lemma_encode_decode(self)
        ensures
            Self::spec_from_bytes(self.spec_bytes()) == self,
            self.spec_bytes().len() == 30,
    {
        lemma_le_round_trips();
        let b = self.spec_bytes();
        assert(b.subrange(0, 8) =~= spec_u64_to_le_bytes(self.cliff_fee_numerator));
        assert(b.subrange(8, 10) =~= spec_u16_to_le_bytes(self.number_of_period));
        assert(b.subrange(10, 18) =~= spec_u64_to_le_bytes(self.period_frequency));
        assert(b.subrange(18, 26) =~= spec_u64_to_le_bytes(self.reduction_factor));
        assert(Self::spec_from_bytes(b).padding =~= self.padding);
    }
}

impl PodAlignedFeeTimeScheduler {
    /// Encoding what any 32 bytes decode to gives those bytes back.
    pub proof fn lemma_decode_encode(s: Seq<u8>)
        requires
            s.len() == 32,
        ensures
            Self::spec_from_bytes(s).spec_bytes() == s,
    {
        lemma_le_round_trips();
        assert(Self::spec_from_bytes(s).padding@ =~= s.subrange(9, 14));
        assert(s =~= s.subrange(0, 8) + seq![s[8]] + s.subrange(9, 14) + s.subrange(14, 16) + s.subrange(16, 24) + s.subrange(24, 32));
    }

    /// Decoding the bytes of a record gives the record back.
    pub proof fn lemma_encode_decode(self)
        ensures
            Self::spec_from_bytes(self.spec_bytes()) == self,
            self.spec_bytes().len() == 32,
    {
        lemma_le_round_trips();
        let b = self.spec_bytes();
        assert(b.subrange(0, 8) =~= spec_u64_to_le_bytes(self.cliff_fee_numerator));
        assert(Self::spec_from_bytes(b).padding =~= self.padding);
        assert(b.subrange(14, 16) =~= spec_u16_to_le_bytes(self.number_of_period));
        assert(b.subrange(16, 24) =~= spec_u64_to_le_bytes(self.period_frequency));
        assert(b.subrange(24, 32) =~= spec_u64_to_le_bytes(self.reduction_factor));
    }
}

/// With periods enabled, the fee never rises from one period to a later one, under either
/// decay law (a later period that has a fee gives the earlier one a fee too), and the fee at
/// any period at or past `number_of_period` is the fee at `number_of_period`.
pub proof fn lemma_time_scheduler_fee_by_period(scheduler: PodAlignedFeeTimeScheduler, earlier: nat, later: nat)
    requires
        scheduler.period_frequency > 0,
        earlier <= later,
    ensures
        scheduler.spec_fee_by_period(later) matches Ok(f2) ==> (scheduler.spec_fee_by_period(earlier) matches Ok(f1)
            && f1 >= f2),
        later >= scheduler.number_of_period ==> scheduler.spec_fee_by_period(later) == scheduler.spec_fee_by_period(
            scheduler.number_of_period as nat,
        ),
{
    let n = scheduler.number_of_period as nat;
    let clamped_earlier = if earlier <= n { earlier } else { n };
    let clamped_later = if later <= n { later } else { n };
    assert(scheduler.reduction_factor * clamped_earlier <= scheduler.reduction_factor * clamped_later) by (nonlinear_arith)
        requires clamped_earlier <= clamped_later;
    lemma_fee_in_period_antitone(scheduler.cliff_fee_numerator, scheduler.reduction_factor, clamped_earlier, clamped_later);
}

} // verus!
