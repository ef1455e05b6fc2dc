use crate::base_fee_mode::{base_fee_mode_from_byte, ActivationType, BaseFeeMode, CollectFeeMode, TradeDirection};
use crate::error::PoolError;
use crate::fee_market_cap_scheduler::{BorshFeeMarketCapScheduler, PodAlignedFeeMarketCapScheduler};
use crate::fee_rate_limiter::{BorshFeeRateLimiter, PodAlignedFeeRateLimiter};
use crate::fee_time_scheduler::{BorshFeeTimeScheduler, PodAlignedFeeTimeScheduler};
use crate::le_bytes::lemma_le_round_trips;
use vstd::bytes::*;
use vstd::prelude::*;

verus! {

/// Offset of the mode tag in the wire form.
pub const WIRE_MODE_OFFSET: usize = 26;

/// Offset of the mode tag in the runtime form.
pub const RUNTIME_MODE_OFFSET: usize = 8;

/// A fee schedule in its wire form: one of the three wire records, tag at byte 26.
#[derive(Clone, Copy, Debug, PartialEq, Eq, Default)]
pub struct BaseFeeParameters {
    pub data: [u8; 30],
}

/// A fee schedule in its runtime form: one of the three runtime records, tag at byte 8.
#[derive(Clone, Copy, Debug, PartialEq, Eq, Default)]
pub struct BaseFeeInfo {
    pub data: [u8; 32],
}

/// The mode that a tag byte names, or the error for an unknown tag.
pub open spec fn mode_of_tag(tag: u8) -> Result<BaseFeeMode, PoolError> {
    match base_fee_mode_from_byte(tag) {
        Some(m) => Ok(m),
        None => Err(PoolError::InvalidBaseFeeMode),
    }
}

/// Wire bytes to runtime bytes: decode the record that the tag names, re-encode it in the
/// runtime layout with zeroed padding.
pub open spec fn wire_to_runtime(s: Seq<u8>) -> Result<Seq<u8>, PoolError> {
    match mode_of_tag(s[26]) {
        Err(e) => Err(e),
        Ok(m) => if m.is_time_scheduler() {
            Ok(BorshFeeTimeScheduler::spec_from_bytes(s).spec_to_pod().spec_bytes())
        } else if m.is_market_cap_scheduler() {
            Ok(BorshFeeMarketCapScheduler::spec_from_bytes(s).spec_to_pod().spec_bytes())
        } else {
            Ok(BorshFeeRateLimiter::spec_from_bytes(s).spec_to_pod().spec_bytes())
        },
    }
}

/// Runtime bytes to wire bytes: decode the record that the tag names, re-encode it in the
/// wire layout with zeroed padding.
pub open spec fn runtime_to_wire(s: Seq<u8>) -> Result<Seq<u8>, PoolError> {
    match mode_of_tag(s[8]) {
        Err(e) => Err(e),
        Ok(m) => if m.is_time_scheduler() {
            Ok(PodAlignedFeeTimeScheduler::spec_from_bytes(s).spec_to_borsh().spec_bytes())
        } else if m.is_market_cap_scheduler() {
            Ok(PodAlignedFeeMarketCapScheduler::spec_from_bytes(s).spec_to_borsh().spec_bytes())
        } else {
            Ok(PodAlignedFeeRateLimiter::spec_from_bytes(s).spec_to_borsh().spec_bytes())
        },
    }
}

/// A wire record that converts to runtime bytes.
pub trait BorshBaseFeeSerde {
    /// The runtime bytes of the same schedule.
    spec fn spec_pod_bytes(&self) -> Seq<u8>;

    fn to_pod_aligned_bytes(&self) -> (r: Result<[u8; 32], PoolError>)
        ensures
            r matches Ok(b) && b@ == self.spec_pod_bytes(),
    ;
}

/// A runtime record that converts to wire bytes.
pub trait PodAlignedBaseFeeSerde {
    /// The wire bytes of the same schedule.
    spec fn spec_borsh_bytes(&self) -> Seq<u8>;

    fn to_borsh_bytes(&self) -> (r: Result<[u8; 30], PoolError>)
        ensures
            r matches Ok(b) && b@ == self.spec_borsh_bytes(),
    ;
}

/// Reads the mode tag at its fixed offset, without decoding the rest.
pub trait BaseFeeEnumReader {
    /// The byte at the tag offset.
    spec fn spec_mode_byte(&self) -> u8;

    fn get_base_fee_mode(&self) -> (r: Result<BaseFeeMode, PoolError>)
        ensures
            r == mode_of_tag(self.spec_mode_byte()),
    ;
}

impl BaseFeeEnumReader for BaseFeeParameters {
    open spec fn spec_mode_byte(&self) -> u8 {
        self.data@[26]
    }

    fn get_base_fee_mode(&self) -> (r: Result<BaseFeeMode, PoolError>) {
        match BaseFeeMode::try_from_u8(self.data[WIRE_MODE_OFFSET]) {
            Some(m) => Ok(m),
            None => Err(PoolError::InvalidBaseFeeMode),
        }
    }
}

impl BaseFeeEnumReader for BaseFeeInfo {
    open spec fn spec_mode_byte(&self) -> u8 {
        self.data@[8]
    }

    fn get_base_fee_mode(&self) -> (r: Result<BaseFeeMode, PoolError>) {
        match BaseFeeMode::try_from_u8(self.data[RUNTIME_MODE_OFFSET]) {
            Some(m) => Ok(m),
            None => Err(PoolError::InvalidBaseFeeMode),
        }
    }
}

pub fn base_fee_parameters_to_base_fee_info(from: &BaseFeeParameters) -> (r: Result<BaseFeeInfo, PoolError>)
    ensures
        match wire_to_runtime(from.data@) {
            Ok(bytes) => r matches Ok(info) && info.data@ == bytes,
            Err(e) => r == Err::<BaseFeeInfo, PoolError>(e),
        },
{
    let base_fee_mode = from.get_base_fee_mode()?;
    let data = match base_fee_mode {
        BaseFeeMode::FeeTimeSchedulerExponential | BaseFeeMode::FeeTimeSchedulerLinear => {
            BorshFeeTimeScheduler::from_bytes(&from.data).to_pod_aligned_bytes()?
        },
        BaseFeeMode::RateLimiter => {
            BorshFeeRateLimiter::from_bytes(&from.data).to_pod_aligned_bytes()?
        },
        BaseFeeMode::FeeMarketCapSchedulerExponential | BaseFeeMode::FeeMarketCapSchedulerLinear => {
            BorshFeeMarketCapScheduler::from_bytes(&from.data).to_pod_aligned_bytes()?
        },
    };
    Ok(BaseFeeInfo { data })
}

pub fn base_fee_info_to_base_fee_parameters(from: &BaseFeeInfo) -> (r: Result<BaseFeeParameters, PoolError>)
    ensures
        match runtime_to_wire(from.data@) {
            Ok(bytes) => r matches Ok(params) && params.data@ == bytes,
            Err(e) => r == Err::<BaseFeeParameters, PoolError>(e),
        },
{
    let base_fee_mode = from.get_base_fee_mode()?;
    let data = match base_fee_mode {
        BaseFeeMode::FeeTimeSchedulerExponential | BaseFeeMode::FeeTimeSchedulerLinear => {
            PodAlignedFeeTimeScheduler::from_bytes(&from.data).to_borsh_bytes()?
        },
        BaseFeeMode::RateLimiter => {
            PodAlignedFeeRateLimiter::from_bytes(&from.data).to_borsh_bytes()?
        },
        BaseFeeMode::FeeMarketCapSchedulerExponential | BaseFeeMode::FeeMarketCapSchedulerLinear => {
            PodAlignedFeeMarketCapScheduler::from_bytes(&from.data).to_borsh_bytes()?
        },
    };
    Ok(BaseFeeParameters { data })
}

/// The record types that the fee schedule can hold, by mode tag: the one evaluator that the
/// swap pipeline dispatches on.
#[derive(Clone, Copy, Debug, PartialEq, Eq)]
pub enum BaseFeeHandler {
    TimeScheduler(PodAlignedFeeTimeScheduler),
    MarketCapScheduler(PodAlignedFeeMarketCapScheduler),
    RateLimiter(PodAlignedFeeRateLimiter),
}

impl BaseFeeHandler {
    /// The record that runtime bytes hold, chosen by their mode tag.
    pub open spec fn spec_from_runtime(s: Seq<u8>) -> Result<BaseFeeHandler, PoolError> {
        match mode_of_tag(s[8]) {
            Err(e) => Err(e),
            Ok(m) => if m.is_time_scheduler() {
                Ok(BaseFeeHandler::TimeScheduler(PodAlignedFeeTimeScheduler::spec_from_bytes(s)))
            } else if m.is_market_cap_scheduler() {
                Ok(BaseFeeHandler::MarketCapScheduler(PodAlignedFeeMarketCapScheduler::spec_from_bytes(s)))
            } else {
                Ok(BaseFeeHandler::RateLimiter(PodAlignedFeeRateLimiter::spec_from_bytes(s)))
            },
        }
    }

    /// Base fee numerator of a decaying schedule at the given time and price.
    pub open spec fn spec_fee(
        &self,
        current_point: u64,
        activation_point: u64,
        init_sqrt_price: u128,
        current_sqrt_price: u128,
    ) -> Result<u64, PoolError> {
        match self {
            BaseFeeHandler::TimeScheduler(t) => t.spec_fee(current_point, activation_point),
            BaseFeeHandler::MarketCapScheduler(m) => m.spec_fee(current_point, activation_point, init_sqrt_price, current_sqrt_price),
            BaseFeeHandler::RateLimiter(_) => Err(PoolError::UndeterminedError),
        }
    }

    pub open spec fn spec_validate(&self) -> Result<(), PoolError> {
        match self {
            BaseFeeHandler::TimeScheduler(t) => t.spec_validate(),
            BaseFeeHandler::MarketCapScheduler(m) => m.spec_validate(),
            BaseFeeHandler::RateLimiter(_) => Err(PoolError::UndeterminedError),
        }
    }

    pub open spec fn spec_min_fee(&self) -> Result<u64, PoolError> {
        match self {
            BaseFeeHandler::TimeScheduler(t) => t.spec_min_fee(),
            BaseFeeHandler::MarketCapScheduler(m) => m.spec_min_fee(),
            BaseFeeHandler::RateLimiter(_) => Err(PoolError::UndeterminedError),
        }
    }

    /// Point after which a decaying schedule no longer changes.
    pub open spec fn spec_static_after(&self, activation_point: u64) -> int {
        match self {
            BaseFeeHandler::TimeScheduler(t) => activation_point as int + t.number_of_period as int * t.period_frequency as int,
            BaseFeeHandler::MarketCapScheduler(m) => activation_point as int + m.scheduler_expiration_duration as int,
            BaseFeeHandler::RateLimiter(_) => 0,
        }
    }

    pub fn validate(&self, collect_fee_mode: CollectFeeMode, activation_type: ActivationType) -> (r: Result<(), PoolError>)
        requires
            !(self is RateLimiter),
        ensures
            r == self.spec_validate(),
    {
        match self {
            BaseFeeHandler::TimeScheduler(t) => t.validate(collect_fee_mode, activation_type),
            BaseFeeHandler::MarketCapScheduler(m) => m.validate(collect_fee_mode, activation_type),
            BaseFeeHandler::RateLimiter(_) => Err(PoolError::UndeterminedError),
        }
    }

    /// Fee numerator for a trade given the amount with fees included; the decaying
    /// schedules ignore direction and amount.
    pub fn get_base_fee_numerator_from_included_fee_amount(
        &self,
        current_point: u64,
        activation_point: u64,
        trade_direction: TradeDirection,
        included_fee_amount: u64,
        init_sqrt_price: u128,
        current_sqrt_price: u128,
    ) -> (r: Result<u64, PoolError>)
        requires
            !(self is RateLimiter),
        ensures
            r == self.spec_fee(current_point, activation_point, init_sqrt_price, current_sqrt_price),
    {
        match self {
            BaseFeeHandler::TimeScheduler(t) => t.get_base_fee_numerator_from_included_fee_amount(current_point, activation_point),
            BaseFeeHandler::MarketCapScheduler(m) => m.get_base_fee_numerator_from_included_fee_amount(
                current_point,
                activation_point,
                init_sqrt_price,
                current_sqrt_price,
            ),
            BaseFeeHandler::RateLimiter(_) => Err(PoolError::UndeterminedError),
        }
    }

    /// Fee numerator for a trade given the amount with fees excluded; the decaying
    /// schedules ignore direction and amount.
    pub fn get_base_fee_numerator_from_excluded_fee_amount(
        &self,
        current_point: u64,
        activation_point: u64,
        trade_direction: TradeDirection,
        excluded_fee_amount: u64,
        init_sqrt_price: u128,
        current_sqrt_price: u128,
    ) -> (r: Result<u64, PoolError>)
        requires
            !(self is RateLimiter),
        ensures
            r == self.spec_fee(current_point, activation_point, init_sqrt_price, current_sqrt_price),
    {
        match self {
            BaseFeeHandler::TimeScheduler(t) => t.get_base_fee_numerator_from_excluded_fee_amount(current_point, activation_point),
            BaseFeeHandler::MarketCapScheduler(m) => m.get_base_fee_numerator_from_excluded_fee_amount(
                current_point,
                activation_point,
                init_sqrt_price,
                current_sqrt_price,
            ),
            BaseFeeHandler::RateLimiter(_) => Err(PoolError::UndeterminedError),
        }
    }

    /// Whether the fee can no longer change, which permits a direct edit of the cliff fee.
    pub fn validate_base_fee_is_static(&self, current_point: u64, activation_point: u64) -> (r: Result<bool, PoolError>)
        requires
            !(self is RateLimiter),
        ensures
            r == Ok::<bool, PoolError>(current_point as int > self.spec_static_after(activation_point)),
    {
        match self {
            BaseFeeHandler::TimeScheduler(t) => t.validate_base_fee_is_static(current_point, activation_point),
            BaseFeeHandler::MarketCapScheduler(m) => m.validate_base_fee_is_static(current_point, activation_point),
            BaseFeeHandler::RateLimiter(_) => Err(PoolError::UndeterminedError),
        }
    }

    pub fn get_min_base_fee_numerator(&self) -> (r: Result<u64, PoolError>)
        requires
            !(self is RateLimiter),
        ensures
            r == self.spec_min_fee(),
    {
        match self {
            BaseFeeHandler::TimeScheduler(t) => t.get_min_base_fee_numerator(),
            BaseFeeHandler::MarketCapScheduler(m) => m.get_min_base_fee_numerator(),
            BaseFeeHandler::RateLimiter(_) => Err(PoolError::UndeterminedError),
        }
    }
}

/// Builds the evaluator of a fee schedule from its stored form.
pub trait BaseFeeHandlerBuilder {
    /// The evaluator, or the error that stops decoding.
    spec fn spec_handler(&self) -> Result<BaseFeeHandler, PoolError>;

    fn get_base_fee_handler(&self) -> (r: Result<BaseFeeHandler, PoolError>)
        ensures
            r == self.spec_handler(),
    ;
}

impl BaseFeeHandlerBuilder for BaseFeeInfo {
    open spec fn spec_handler(&self) -> Result<BaseFeeHandler, PoolError> {
        BaseFeeHandler::spec_from_runtime(self.data@)
    }

    fn get_base_fee_handler(&self) -> (r: Result<BaseFeeHandler, PoolError>) {
        let base_fee_mode = self.get_base_fee_mode()?;
        match base_fee_mode {
            BaseFeeMode::FeeTimeSchedulerExponential | BaseFeeMode::FeeTimeSchedulerLinear => {
                Ok(BaseFeeHandler::TimeScheduler(PodAlignedFeeTimeScheduler::from_bytes(&self.data)))
            },
            BaseFeeMode::RateLimiter => {
                Ok(BaseFeeHandler::RateLimiter(PodAlignedFeeRateLimiter::from_bytes(&self.data)))
            },
            BaseFeeMode::FeeMarketCapSchedulerExponential | BaseFeeMode::FeeMarketCapSchedulerLinear => {
                Ok(BaseFeeHandler::MarketCapScheduler(PodAlignedFeeMarketCapScheduler::from_bytes(&self.data)))
            },
        }
    }
}

impl BaseFeeHandlerBuilder for BaseFeeParameters {
    open spec fn spec_handler(&self) -> Result<BaseFeeHandler, PoolError> {
        match wire_to_runtime(self.data@) {
            Err(e) => Err(e),
            Ok(runtime) => BaseFeeHandler::spec_from_runtime(runtime),
        }
    }

    fn get_base_fee_handler(&self) -> (r: Result<BaseFeeHandler, PoolError>) {
        let base_fee_info = base_fee_parameters_to_base_fee_info(self)?;
        base_fee_info.get_base_fee_handler()
    }
}

/// The one field-level edit of a stored fee schedule: its cliff fee numerator.
pub trait UpdateCliffFeeNumerator: Sized {
    /// Whether the edit succeeds, or the error that stops it.
    spec fn spec_update_outcome(&self) -> Result<(), PoolError>;

    /// `after` is `self` with the cliff fee numerator replaced and nothing else changed.
    spec fn spec_updated(&self, new_cliff_fee_numerator: u64, after: Self) -> bool;

    fn update_cliff_fee_numerator(&mut self, new_cliff_fee_numerator: u64) -> (r: Result<(), PoolError>)
        ensures
            r == old(self).spec_update_outcome(),
            r is Ok ==> old(self).spec_updated(new_cliff_fee_numerator, *final(self)),
            r is Err ==> *final(self) == *old(self),
    ;
}

impl UpdateCliffFeeNumerator for BaseFeeInfo {
    open spec fn spec_update_outcome(&self) -> Result<(), PoolError> {
        match mode_of_tag(self.data@[8]) {
            Ok(_) => Ok(()),
            Err(e) => Err(e),
        }
    }

    open spec fn spec_updated(&self, new_cliff_fee_numerator: u64, after: Self) -> bool {
        after.data@ == spec_u64_to_le_bytes(new_cliff_fee_numerator) + self.data@.subrange(8, 32)
    }

    fn update_cliff_fee_numerator(&mut self, new_cliff_fee_numerator: u64) -> (r: Result<(), PoolError>) {
        let base_fee_mode = self.get_base_fee_mode()?;
        proof {
            lemma_le_round_trips();
        }
        match base_fee_mode {
            BaseFeeMode::FeeTimeSchedulerExponential | BaseFeeMode::FeeTimeSchedulerLinear => {
                let mut record = PodAlignedFeeTimeScheduler::from_bytes(&self.data);
                record.cliff_fee_numerator = new_cliff_fee_numerator;
                let data = record.to_bytes();
                assert(data@ =~= spec_u64_to_le_bytes(new_cliff_fee_numerator) + self.data@.subrange(8, 32));
                self.data = data;
            },
            BaseFeeMode::RateLimiter => {
                let mut record = PodAlignedFeeRateLimiter::from_bytes(&self.data);
                record.cliff_fee_numerator = new_cliff_fee_numerator;
                let data = record.to_bytes();
                assert(data@ =~= spec_u64_to_le_bytes(new_cliff_fee_numerator) + self.data@.subrange(8, 32));
                self.data = data;
            },
            BaseFeeMode::FeeMarketCapSchedulerExponential | BaseFeeMode::FeeMarketCapSchedulerLinear => {
                let mut record = PodAlignedFeeMarketCapScheduler::from_bytes(&self.data);
                record.cliff_fee_numerator = new_cliff_fee_numerator;
                let data = record.to_bytes();
                assert(data@ =~= spec_u64_to_le_bytes(new_cliff_fee_numerator) + self.data@.subrange(8, 32));
                self.data = data;
            },
        }
        Ok(())
    }
}

/// Wire form to runtime form and back gives back exactly the wire bytes it started from, for every
/// record whose mode tag is known and whose padding bytes are zero.
pub proof fn lemma_wire_runtime_wire_round_trip(params: BaseFeeParameters)
    requires
        mode_of_tag(params.data@[26]) is Ok,
        params.data@[27] == 0,
        params.data@[28] == 0,
        params.data@[29] == 0,
    ensures
        wire_to_runtime(params.data@) matches Ok(runtime)
            && runtime_to_wire(runtime) == Ok::<Seq<u8>, PoolError>(params.data@),
{
    let s = params.data@;
    lemma_le_round_trips();
    let m = base_fee_mode_from_byte(s[26]).unwrap();
    if m.is_time_scheduler() {
        let b = BorshFeeTimeScheduler::spec_from_bytes(s);
        BorshFeeTimeScheduler::lemma_decode_encode(s);
        b.spec_to_pod().lemma_encode_decode();
        assert(b.padding =~= [0u8, 0u8, 0u8]);
        assert(b.spec_to_pod().spec_to_borsh() == b);
    } else if m.is_market_cap_scheduler() {
        let b = BorshFeeMarketCapScheduler::spec_from_bytes(s);
        BorshFeeMarketCapScheduler::lemma_decode_encode(s);
        b.spec_to_pod().lemma_encode_decode();
        assert(b.padding =~= [0u8, 0u8, 0u8]);
        assert(b.spec_to_pod().spec_to_borsh() == b);
    } else {
        let b = BorshFeeRateLimiter::spec_from_bytes(s);
        BorshFeeRateLimiter::lemma_decode_encode(s);
        b.spec_to_pod().lemma_encode_decode();
        assert(b.padding =~= [0u8, 0u8, 0u8]);
        assert(b.spec_to_pod().spec_to_borsh() == b);
    }
}

/// Runtime form to wire form and back gives back exactly the runtime bytes it started from, for every
/// record whose mode tag is known and whose padding bytes are zero.
pub proof fn lemma_runtime_wire_runtime_round_trip(info: BaseFeeInfo)
    requires
        mode_of_tag(info.data@[8]) is Ok,
        forall|i: int| 9 <= i < 14 ==> info.data@[i] == 0,
    ensures
        runtime_to_wire(info.data@) matches Ok(wire)
            && wire_to_runtime(wire) == Ok::<Seq<u8>, PoolError>(info.data@),
{
    let s = info.data@;
    lemma_le_round_trips();
    let m = base_fee_mode_from_byte(s[8]).unwrap();
    if m.is_time_scheduler() {
        let p = PodAlignedFeeTimeScheduler::spec_from_bytes(s);
        PodAlignedFeeTimeScheduler::lemma_decode_encode(s);
        p.spec_to_borsh().lemma_encode_decode();
        assert(p.padding =~= [0u8, 0u8, 0u8, 0u8, 0u8]);
        assert(p.spec_to_borsh().spec_to_pod() == p);
    } else if m.is_market_cap_scheduler() {
        let p = PodAlignedFeeMarketCapScheduler::spec_from_bytes(s);
        PodAlignedFeeMarketCapScheduler::lemma_decode_encode(s);
        p.spec_to_borsh().lemma_encode_decode();
        assert(p.padding =~= [0u8, 0u8, 0u8, 0u8, 0u8]);
        assert(p.spec_to_borsh().spec_to_pod() == p);
    } else {
        let p = PodAlignedFeeRateLimiter::spec_from_bytes(s);
        PodAlignedFeeRateLimiter::lemma_decode_encode(s);
        p.spec_to_borsh().lemma_encode_decode();
        assert(p.padding =~= [0u8, 0u8, 0u8, 0u8, 0u8]);
        assert(p.spec_to_borsh().spec_to_pod() == p);
    }
}

/// In the wire form the tag at byte 26 is the mode of the full decode, whichever of the
/// three records decodes the bytes, and encoding a record puts its mode there.
pub proof fn lemma_wire_mode_tag_is_decoded_mode(
    params: BaseFeeParameters,
    time: BorshFeeTimeScheduler,
    market_cap: BorshFeeMarketCapScheduler,
    rate_limiter: BorshFeeRateLimiter,
)
    ensures
        BorshFeeTimeScheduler::spec_from_bytes(params.data@).base_fee_mode == params.spec_mode_byte(),
        BorshFeeMarketCapScheduler::spec_from_bytes(params.data@).base_fee_mode == params.spec_mode_byte(),
        BorshFeeRateLimiter::spec_from_bytes(params.data@).base_fee_mode == params.spec_mode_byte(),
        time.spec_bytes()[26] == time.base_fee_mode,
        market_cap.spec_bytes()[26] == market_cap.base_fee_mode,
        rate_limiter.spec_bytes()[26] == rate_limiter.base_fee_mode,
{
    lemma_le_round_trips();
}

/// In the runtime form the tag at byte 8 is the mode of the full decode, whichever of the
/// three records decodes the bytes, and encoding a record puts its mode there.
pub proof fn lemma_runtime_mode_tag_is_decoded_mode(
    info: BaseFeeInfo,
    time: PodAlignedFeeTimeScheduler,
    market_cap: PodAlignedFeeMarketCapScheduler,
    rate_limiter: PodAlignedFeeRateLimiter,
)
    ensures
        PodAlignedFeeTimeScheduler::spec_from_bytes(info.data@).base_fee_mode == info.spec_mode_byte(),
        PodAlignedFeeMarketCapScheduler::spec_from_bytes(info.data@).base_fee_mode == info.spec_mode_byte(),
        PodAlignedFeeRateLimiter::spec_from_bytes(info.data@).base_fee_mode == info.spec_mode_byte(),
        time.spec_bytes()[8] == time.base_fee_mode,
        market_cap.spec_bytes()[8] == market_cap.base_fee_mode,
        rate_limiter.spec_bytes()[8] == rate_limiter.base_fee_mode,
{
    lemma_le_round_trips();
}

} // verus!
