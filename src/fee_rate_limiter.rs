use crate::base_fee_mode::TradeDirection;
use crate::base_fee_serde::{BorshBaseFeeSerde, PodAlignedBaseFeeSerde};
use crate::error::PoolError;
use crate::le_bytes::{lemma_le_round_trips, push_u16, push_u32, push_u64, read_u16_at, read_u32_at, read_u64_at, to_array30, to_array32};
use vstd::bytes::*;
use vstd::prelude::*;

verus! {

/// Rate limiter in its wire layout (little-endian, packed, 30 bytes, mode tag at byte 26).
#[derive(Clone, Copy, Debug, PartialEq, Eq, Default)]
pub struct BorshFeeRateLimiter {
    pub cliff_fee_numerator: u64,
    pub fee_increment_bps: u16,
    pub max_limiter_duration: u32,
    pub max_fee_bps: u32,
    pub reference_amount: u64,
    pub base_fee_mode: u8,
    pub padding: [u8; 3],
}

/// Rate limiter in its runtime layout (32 bytes, mode tag at byte 8).
#[derive(Clone, Copy, Debug, PartialEq, Eq, Default)]
pub struct PodAlignedFeeRateLimiter {
    pub cliff_fee_numerator: u64,
    pub base_fee_mode: u8,
    pub padding: [u8; 5],
    pub fee_increment_bps: u16,
    pub max_limiter_duration: u32,
    pub max_fee_bps: u32,
    pub reference_amount: u64,
}

impl BorshFeeRateLimiter {
    /// The 30 wire bytes of the record.
    pub open spec fn spec_bytes(&self) -> Seq<u8> {
        spec_u64_to_le_bytes(self.cliff_fee_numerator) + spec_u16_to_le_bytes(self.fee_increment_bps)
            + spec_u32_to_le_bytes(self.max_limiter_duration) + spec_u32_to_le_bytes(self.max_fee_bps) + spec_u64_to_le_bytes(self.reference_amount)
            + seq![self.base_fee_mode] + self.padding@
    }

    /// The runtime record with the same fields and zeroed padding.
    pub open spec fn spec_to_pod(&self) -> PodAlignedFeeRateLimiter {
        PodAlignedFeeRateLimiter {
            cliff_fee_numerator: self.cliff_fee_numerator,
            base_fee_mode: self.base_fee_mode,
            padding: [0u8, 0u8, 0u8, 0u8, 0u8],
            fee_increment_bps: self.fee_increment_bps,
            max_limiter_duration: self.max_limiter_duration,
            max_fee_bps: self.max_fee_bps,
            reference_amount: self.reference_amount,
        }
    }

    /// The record that 30 wire bytes hold.
    pub open spec fn spec_from_bytes(s: Seq<u8>) -> Self {
        BorshFeeRateLimiter {
            cliff_fee_numerator: spec_u64_from_le_bytes(s.subrange(0, 8)),
            fee_increment_bps: spec_u16_from_le_bytes(s.subrange(8, 10)),
            max_limiter_duration: spec_u32_from_le_bytes(s.subrange(10, 14)),
            max_fee_bps: spec_u32_from_le_bytes(s.subrange(14, 18)),
            reference_amount: spec_u64_from_le_bytes(s.subrange(18, 26)),
            base_fee_mode: s[26],
            padding: [s[27], s[28], s[29]],
        }
    }

    /// Decodes any 30 wire bytes.
    pub fn from_bytes(data: &[u8; 30]) -> (r: Self)
        ensures
            r == Self::spec_from_bytes(data@),
            r.spec_bytes() == data@,
    {
        let r = BorshFeeRateLimiter {
            cliff_fee_numerator: read_u64_at(data, 0),
            fee_increment_bps: read_u16_at(data, 8),
            max_limiter_duration: read_u32_at(data, 10),
            max_fee_bps: read_u32_at(data, 14),
            reference_amount: read_u64_at(data, 18),
            base_fee_mode: data[26],
            padding: [data[27], data[28], data[29]],
        };
        proof {
            lemma_le_round_trips();
            assert(r.padding@ =~= data@.subrange(27, 30));
            assert(data@ =~= data@.subrange(0, 8) + data@.subrange(8, 10) + data@.subrange(10, 14) + data@.subrange(14, 18)
                + data@.subrange(18, 26) + seq![data@[26]] + data@.subrange(27, 30));
        }
        r
    }

    /// Encodes the record in its wire layout.
    pub fn to_bytes(&self) -> (r: [u8; 30])
        ensures
            r@ == self.spec_bytes(),
    {
        let mut v: Vec<u8> = Vec::new();
        push_u64(&mut v, self.cliff_fee_numerator);
        push_u16(&mut v, self.fee_increment_bps);
        push_u32(&mut v, self.max_limiter_duration);
        push_u32(&mut v, self.max_fee_bps);
        push_u64(&mut v, self.reference_amount);
        v.push(self.base_fee_mode);
        v.push(self.padding[0]);
        v.push(self.padding[1]);
        v.push(self.padding[2]);
        proof {
            lemma_le_round_trips();
            assert(v@ =~= self.spec_bytes());
        }
        to_array30(&v)
    }
}

impl BorshBaseFeeSerde for BorshFeeRateLimiter {
    open spec fn spec_pod_bytes(&self) -> Seq<u8> {
        self.spec_to_pod().spec_bytes()
    }

    fn to_pod_aligned_bytes(&self) -> (r: Result<[u8; 32], PoolError>)
        ensures
            r matches Ok(b) && b@ == self.spec_pod_bytes(),
    {
        let pod = PodAlignedFeeRateLimiter {
            cliff_fee_numerator: self.cliff_fee_numerator,
            base_fee_mode: self.base_fee_mode,
            padding: [0u8; 5],
            fee_increment_bps: self.fee_increment_bps,
            max_limiter_duration: self.max_limiter_duration,
            max_fee_bps: self.max_fee_bps,
            reference_amount: self.reference_amount,
        };
        assert(pod.padding@ =~= self.spec_to_pod().padding@);
        Ok(pod.to_bytes())
    }
}

impl PodAlignedFeeRateLimiter {
    /// The 32 runtime bytes of the record.
    pub open spec fn spec_bytes(&self) -> Seq<u8> {
        spec_u64_to_le_bytes(self.cliff_fee_numerator) + seq![self.base_fee_mode] + self.padding@
            + spec_u16_to_le_bytes(self.fee_increment_bps) + spec_u32_to_le_bytes(self.max_limiter_duration) + spec_u32_to_le_bytes(self.max_fee_bps)
            + spec_u64_to_le_bytes(self.reference_amount)
    }

    /// The wire record with the same fields and zeroed padding.
    pub open spec fn spec_to_borsh(&self) -> BorshFeeRateLimiter {
        BorshFeeRateLimiter {
            cliff_fee_numerator: self.cliff_fee_numerator,
            fee_increment_bps: self.fee_increment_bps,
            max_limiter_duration: self.max_limiter_duration,
            max_fee_bps: self.max_fee_bps,
            reference_amount: self.reference_amount,
            base_fee_mode: self.base_fee_mode,
            padding: [0u8, 0u8, 0u8],
        }
    }

    /// The record that 32 runtime bytes hold.
    pub open spec fn spec_from_bytes(s: Seq<u8>) -> Self {
        PodAlignedFeeRateLimiter {
            cliff_fee_numerator: spec_u64_from_le_bytes(s.subrange(0, 8)),
            base_fee_mode: s[8],
            padding: [s[9], s[10], s[11], s[12], s[13]],
            fee_increment_bps: spec_u16_from_le_bytes(s.subrange(14, 16)),
            max_limiter_duration: spec_u32_from_le_bytes(s.subrange(16, 20)),
            max_fee_bps: spec_u32_from_le_bytes(s.subrange(20, 24)),
            reference_amount: spec_u64_from_le_bytes(s.subrange(24, 32)),
        }
    }

    /// Decodes any 32 runtime bytes.
    pub fn from_bytes(data: &[u8; 32]) -> (r: Self)
        ensures
            r == Self::spec_from_bytes(data@),
            r.spec_bytes() == data@,
    {
        let r = PodAlignedFeeRateLimiter {
            cliff_fee_numerator: read_u64_at(data, 0),
            base_fee_mode: data[8],
            padding: [data[9], data[10], data[11], data[12], data[13]],
            fee_increment_bps: read_u16_at(data, 14),
            max_limiter_duration: read_u32_at(data, 16),
            max_fee_bps: read_u32_at(data, 20),
            reference_amount: read_u64_at(data, 24),
        };
        proof {
            lemma_le_round_trips();
            assert(r.padding@ =~= data@.subrange(9, 14));
            assert(data@ =~= data@.subrange(0, 8) + seq![data@[8]] + data@.subrange(9, 14)
                + data@.subrange(14, 16) + data@.subrange(16, 20) + data@.subrange(20, 24) + data@.subrange(24, 32));
        }
        r
    }

    /// Encodes the record in its runtime layout.
    pub fn to_bytes(&self) -> (r: [u8; 32])
        ensures
            r@ == self.spec_bytes(),
    {
        let mut v: Vec<u8> = Vec::new();
        push_u64(&mut v, self.cliff_fee_numerator);
        v.push(self.base_fee_mode);
        v.push(self.padding[0]);
        v.push(self.padding[1]);
        v.push(self.padding[2]);
        v.push(self.padding[3]);
        v.push(self.padding[4]);
        push_u16(&mut v, self.fee_increment_bps);
        push_u32(&mut v, self.max_limiter_duration);
        push_u32(&mut v, self.max_fee_bps);
        push_u64(&mut v, self.reference_amount);
        proof {
            lemma_le_round_trips();
            assert(v@ =~= self.spec_bytes());
        }
        to_array32(&v)
    }
}

impl PodAlignedBaseFeeSerde for PodAlignedFeeRateLimiter {
    open spec fn spec_borsh_bytes(&self) -> Seq<u8> {
        self.spec_to_borsh().spec_bytes()
    }

    fn to_borsh_bytes(&self) -> (r: Result<[u8; 30], PoolError>)
        ensures
            r matches Ok(b) && b@ == self.spec_borsh_bytes(),
    {
        let borsh = BorshFeeRateLimiter {
            cliff_fee_numerator: self.cliff_fee_numerator,
            fee_increment_bps: self.fee_increment_bps,
            max_limiter_duration: self.max_limiter_duration,
            max_fee_bps: self.max_fee_bps,
            reference_amount: self.reference_amount,
            base_fee_mode: self.base_fee_mode,
            padding: [0u8; 3],
        };
        assert(borsh.padding@ =~= self.spec_to_borsh().padding@);
        Ok(borsh.to_bytes())
    }
}


impl PodAlignedFeeRateLimiter {
    /// A limiter whose parameters are all zero never applies.
    pub open spec fn spec_is_zero(&self) -> bool {
        self.reference_amount == 0 && self.max_limiter_duration == 0 && self.max_fee_bps == 0
            && self.fee_increment_bps == 0
    }

    /// The surcharge window: buys (`BtoA`) from activation to `max_limiter_duration` after it.
    pub open spec fn spec_is_applied(&self, current_point: u64, activation_point: u64, trade_direction: TradeDirection) -> bool {
        &&& !self.spec_is_zero()
        &&& trade_direction is BtoA
        &&& activation_point <= current_point
        &&& current_point <= activation_point + self.max_limiter_duration
    }

    pub fn is_zero_rate_limiter(&self) -> (r: bool)
        ensures
            r == self.spec_is_zero(),
    {
        self.reference_amount == 0 && self.max_limiter_duration == 0 && self.max_fee_bps == 0
            && self.fee_increment_bps == 0
    }

    /// Whether the size surcharge, and with it the single-swap guard, applies to this trade.
    pub fn is_rate_limiter_applied(
        &self,
        current_point: u64,
        activation_point: u64,
        trade_direction: TradeDirection,
    ) -> (r: Result<bool, PoolError>)
        ensures
            r == Ok::<bool, PoolError>(self.spec_is_applied(current_point, activation_point, trade_direction)),
    {
        if self.is_zero_rate_limiter() {
            return Ok(false);
        }
        if let TradeDirection::AtoB = trade_direction {
            return Ok(false);
        }
        if current_point < activation_point {
            return Ok(false);
        }
        let last_effective_point: u128 = (activation_point as u128) + (self.max_limiter_duration as u128);
        Ok((current_point as u128) <= last_effective_point)
    }
}

impl BorshFeeRateLimiter {
    /// Encoding what any 30 bytes decode to gives those bytes back.
    pub proof fn lemma_decode_encode(s: Seq<u8>)
        requires
            s.len() == 30,
        ensures
            Self::spec_from_bytes(s).spec_bytes() == s,
    {
        lemma_le_round_trips();
        assert(Self::spec_from_bytes(s).padding@ =~= s.subrange(27, 30));
        assert(s =~= s.subrange(0, 8) + s.subrange(8, 10) + s.subrange(10, 14) + s.subrange(14, 18) + s.subrange(18, 26) + seq![s[26]] + s.subrange(27, 30));
    }

    /// Decoding the bytes of a record gives the record back.
    pub proof fn lemma_encode_decode(self)
        ensures
            Self::spec_from_bytes(self.spec_bytes()) == self,
            self.spec_bytes().len() == 30,
    {
        lemma_le_round_trips();
        let b = self.spec_bytes();
        assert(b.subrange(0, 8) =~= spec_u64_to_le_bytes(self.cliff_fee_numerator));
        assert(b.subrange(8, 10) =~= spec_u16_to_le_bytes(self.fee_increment_bps));
        assert(b.subrange(10, 14) =~= spec_u32_to_le_bytes(self.max_limiter_duration));
        assert(b.subrange(14, 18) =~= spec_u32_to_le_bytes(self.max_fee_bps));
        assert(b.subrange(18, 26) =~= spec_u64_to_le_bytes(self.reference_amount));
        assert(Self::spec_from_bytes(b).padding =~= self.padding);
    }
}

impl PodAlignedFeeRateLimiter {
    /// Encoding what any 32 bytes decode to gives those bytes back.
    pub proof fn lemma_decode_encode(s: Seq<u8>)
        requires
            s.len() == 32,
        ensures
            Self::spec_from_bytes(s).spec_bytes() == s,
    {
        lemma_le_round_trips();
        assert(Self::spec_from_bytes(s).padding@ =~= s.subrange(9, 14));
        assert(s =~= s.subrange(0, 8) + seq![s[8]] + s.subrange(9, 14) + s.subrange(14, 16) + s.subrange(16, 20) + s.subrange(20, 24) + s.subrange(24, 32));
    }

    /// Decoding the bytes of a record gives the record back.
    pub proof fn lemma_encode_decode(self)
        ensures
            Self::spec_from_bytes(self.spec_bytes()) == self,
            self.spec_bytes().len() == 32,
    {
        lemma_le_round_trips();
        let b = self.spec_bytes();
        assert(b.subrange(0, 8) =~= spec_u64_to_le_bytes(self.cliff_fee_numerator));
        assert(Self::spec_from_bytes(b).padding =~= self.padding);
        assert(b.subrange(14, 16) =~= spec_u16_to_le_bytes(self.fee_increment_bps));
        assert(b.subrange(16, 20) =~= spec_u32_to_le_bytes(self.max_limiter_duration));
        assert(b.subrange(20, 24) =~= spec_u32_to_le_bytes(self.max_fee_bps));
        assert(b.subrange(24, 32) =~= spec_u64_to_le_bytes(self.reference_amount));
    }
}

} // verus!
