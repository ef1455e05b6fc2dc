use vstd::prelude::*;

verus! {

/// A 256-bit unsigned integer as four little-endian 64-bit limbs, the representation that
/// `ruint` uses for `U256`.
#[derive(Clone, Copy, Debug, PartialEq, Eq)]
pub struct U256Limbs {
    pub limbs: [u64; 4],
}

/// Weight of one limb.
pub open spec fn limb_base() -> nat {
    0x1_0000_0000_0000_0000
}

/// One past the largest 256-bit value.
pub open spec fn u256_bound() -> nat {
    limb_base() * limb_base() * limb_base() * limb_base()
}

impl U256Limbs {
    pub open spec fn value(&self) -> nat {
        self.limbs[0] as nat + limb_base() * (self.limbs[1] as nat + limb_base() * (
            self.limbs[2] as nat + limb_base() * self.limbs[3] as nat))
    }

    pub fn from_u128(x: u128) -> (r: U256Limbs)
        ensures
            r.value() == x as nat,
    {
        let lo: u64 = (x % 0x1_0000_0000_0000_0000u128) as u64;
        let hi: u64 = (x / 0x1_0000_0000_0000_0000u128) as u64;
        let r = U256Limbs { limbs: [lo, hi, 0, 0] };
        assert(r.limbs[0] == lo && r.limbs[1] == hi && r.limbs[2] == 0 && r.limbs[3] == 0);
        r
    }

    /// The value as a `u64`, if it is one.
    pub fn to_u64(&self) -> (r: Option<u64>)
        ensures
            r is Some <==> self.value() <= u64::MAX,
            r matches Some(v) ==> v as nat == self.value(),
    {
        if self.limbs[1] == 0 && self.limbs[2] == 0 && self.limbs[3] == 0 {
            Some(self.limbs[0])
        } else {
            proof {
                let b = limb_base();
                let (l1, l2, l3) = (self.limbs[1] as nat, self.limbs[2] as nat, self.limbs[3] as nat);
                assert(l1 + b * (l2 + b * l3) >= 1);
                assert(b * (l1 + b * (l2 + b * l3)) >= b) by (nonlinear_arith)
                    requires l1 + b * (l2 + b * l3) >= 1, b > 0;
            }
            None
        }
    }
}

/// Relies on ruint's `Uint::<256, 4>::checked_mul`: the exact product, or `None` when it
/// does not fit in 256 bits.
#[verifier::external_body]
pub(crate) fn u256_checked_mul(a: U256Limbs, b: U256Limbs) -> (r: Option<U256Limbs>)
    ensures
        r is Some <==> a.value() * b.value() < u256_bound(),
        r matches Some(v) ==> v.value() == a.value() * b.value(),
{
    let x = ruint::aliases::U256::from_limbs(a.limbs);
    let y = ruint::aliases::U256::from_limbs(b.limbs);
    match x.checked_mul(y) {
        Some(v) => Some(U256Limbs { limbs: v.into_limbs() }),
        None => None,
    }
}

/// Relies on ruint's `Uint::<256, 4>::checked_div`: the quotient rounded down, or `None`
/// for a zero divisor.
#[verifier::external_body]
pub(crate) fn u256_checked_div(a: U256Limbs, b: U256Limbs) -> (r: Option<U256Limbs>)
    ensures
        r is Some <==> b.value() != 0,
        r matches Some(v) ==> v.value() == a.value() / b.value(),
{
    let x = ruint::aliases::U256::from_limbs(a.limbs);
    let y = ruint::aliases::U256::from_limbs(b.limbs);
    match x.checked_div(y) {
        Some(v) => Some(U256Limbs { limbs: v.into_limbs() }),
        None => None,
    }
}

} // verus!
