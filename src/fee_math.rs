use crate::constants::{MAX_BASIS_POINT, ONE_Q64};
use crate::error::PoolError;
use vstd::arithmetic::div_mod::{lemma_div_denominator, lemma_mod_breakdown};
use vstd::arithmetic::power2::{lemma2_to64, lemma_pow2_pos, lemma_pow2_unfold, pow2};
use vstd::prelude::*;

verus! {

/// Binary exponentiation in Q64.64, least significant exponent bit first: each set bit
/// multiplies the running result by the current square, and each step squares it; every
/// product is rounded down to 64 fractional bits.
pub open spec fn q64_pow_steps(result: nat, square: nat, exp: nat) -> nat
    decreases exp,
{
    if exp == 0 {
        result
    } else {
        let next = if exp % 2 == 1 {
            (result * square) / (ONE_Q64 as nat)
        } else {
            result
        };
        q64_pow_steps(next, (square * square) / (ONE_Q64 as nat), exp / 2)
    }
}

/// `base ^ exp` in Q64.64 for a base below one; a result that rounds to zero is an overflow.
pub open spec fn q64_pow(base: u128, exp: nat) -> Option<u128> {
    let r = q64_pow_steps(ONE_Q64 as nat, base as nat, exp);
    if r == 0 {
        None
    } else {
        Some(r as u128)
    }
}

/// Fee after `period` compounding reductions of `reduction_factor` basis points each:
/// `cliff_fee_numerator * (1 - reduction_factor / 10_000) ^ period`, in Q64.64 and rounded down.
pub open spec fn fee_in_period(cliff_fee_numerator: u64, reduction_factor: u64, period: nat) -> Result<u64, PoolError> {
    if reduction_factor == 0 {
        Ok(cliff_fee_numerator)
    } else {
        let bps = (reduction_factor as nat * ONE_Q64 as nat) / (MAX_BASIS_POINT as nat);
        if bps > ONE_Q64 as nat {
            Err(PoolError::MathOverflow)
        } else {
            match q64_pow((ONE_Q64 as nat - bps) as u128, period) {
                None => Err(PoolError::MathOverflow),
                Some(p) => Ok(((p as nat * cliff_fee_numerator as nat) / (ONE_Q64 as nat)) as u64),
            }
        }
    }
}

proof fn lemma_q64_pow_steps_bounded(result: nat, square: nat, exp: nat)
    requires
        result <= ONE_Q64,
        square < ONE_Q64,
    ensures
        q64_pow_steps(result, square, exp) <= result,
    decreases exp,
{
    if exp != 0 {
        let one = ONE_Q64 as nat;
        let next = if exp % 2 == 1 { (result * square) / one } else { result };
        assert((result * square) / one <= result) by (nonlinear_arith)
            requires square < one, one > 0;
        assert((square * square) / one < one) by (nonlinear_arith)
            requires square < one, one > 0;
        lemma_q64_pow_steps_bounded(next, (square * square) / one, exp / 2);
    }
}

/// `base ^ exp` in Q64.64 for a base below one; `None` when the result rounds to zero.
pub fn pow(base: u128, exp: u16) -> (r: Option<u128>)
    requires
        base < ONE_Q64,
    ensures
        r == q64_pow(base, exp as nat),
        r matches Some(v) ==> v <= ONE_Q64,
{
    let mut result: u128 = ONE_Q64;
    let mut square: u128 = base;
    let mut e: u16 = exp;
    while e > 0
        invariant
            result <= ONE_Q64,
            square < ONE_Q64,
            q64_pow_steps(result as nat, square as nat, e as nat) == q64_pow_steps(ONE_Q64 as nat, base as nat, exp as nat),
        decreases e,
    {
        let one = ONE_Q64;
        proof {
            assert(result * square <= one * one) by (nonlinear_arith)
                requires result <= one, square < one;
            assert((result as nat * square as nat) / (one as nat) <= result as nat) by (nonlinear_arith)
                requires square < one, one > 0;
            assert(square * square < one * one) by (nonlinear_arith)
                requires square < one;
            assert((square as nat * square as nat) / (one as nat) < one as nat) by (nonlinear_arith)
                requires square < one, one > 0;
        }
        if e % 2 == 1 {
            result = result * square / ONE_Q64;
        }
        square = square * square / ONE_Q64;
        e = e / 2;
    }
    if result == 0 {
        None
    } else {
        Some(result)
    }
}

/// Fee numerator after `period` compounding reductions; see `fee_in_period`.
pub fn get_fee_in_period(cliff_fee_numerator: u64, reduction_factor: u64, period: u16) -> (r: Result<u64, PoolError>)
    ensures
        r == fee_in_period(cliff_fee_numerator, reduction_factor, period as nat),
        r matches Ok(v) ==> v <= cliff_fee_numerator,
{
    if reduction_factor == 0 {
        return Ok(cliff_fee_numerator);
    }
    proof {
        assert(reduction_factor as nat * ONE_Q64 as nat <= u64::MAX as nat * ONE_Q64 as nat) by (nonlinear_arith)
            requires reduction_factor <= u64::MAX;
    }
    let bps: u128 = (reduction_factor as u128) * ONE_Q64 / (MAX_BASIS_POINT as u128);
    if bps > ONE_Q64 {
        return Err(PoolError::MathOverflow);
    }
    let base: u128 = ONE_Q64 - bps;
    proof {
        assert(bps > 0) by (nonlinear_arith)
            requires reduction_factor >= 1, bps == (reduction_factor as nat * ONE_Q64 as nat) / 10000nat;
    }
    match pow(base, period) {
        None => Err(PoolError::MathOverflow),
        Some(p) => {
            proof {
                assert(p as nat * cliff_fee_numerator as nat <= ONE_Q64 as nat * cliff_fee_numerator as nat) by (nonlinear_arith)
                    requires p <= ONE_Q64;
                assert(ONE_Q64 as nat * cliff_fee_numerator as nat <= ONE_Q64 as nat * u64::MAX as nat) by (nonlinear_arith)
                    requires cliff_fee_numerator <= u64::MAX;
                assert((p as nat * cliff_fee_numerator as nat) / (ONE_Q64 as nat) <= cliff_fee_numerator) by (nonlinear_arith)
                    requires p <= ONE_Q64;
            }
            let fee: u128 = p * (cliff_fee_numerator as u128) / ONE_Q64;
            Ok(fee as u64)
        },
    }
}

/// The `k`-th repeated square of `base`, each square rounded down to 64 fractional bits.
pub open spec fn q64_square_at(base: nat, k: nat) -> nat
    decreases k,
{
    if k == 0 {
        base
    } else {
        let s = q64_square_at(base, (k - 1) as nat);
        (s * s) / (ONE_Q64 as nat)
    }
}

/// Bit `k` of `exp`.
pub open spec fn exp_bit(exp: nat, k: nat) -> nat {
    (exp / pow2(k)) % 2
}

/// The running result of `q64_pow_steps` after the `k` lowest bits of `exp`.
pub open spec fn q64_pow_prefix(base: nat, exp: nat, k: nat) -> nat
    decreases k,
{
    if k == 0 {
        ONE_Q64 as nat
    } else {
        let r = q64_pow_prefix(base, exp, (k - 1) as nat);
        if exp_bit(exp, (k - 1) as nat) == 1 {
            (r * q64_square_at(base, (k - 1) as nat)) / (ONE_Q64 as nat)
        } else {
            r
        }
    }
}

/// The running result when all of the `k` lowest bits are set: the smallest of them.
pub open spec fn q64_pow_prefix_floor(base: nat, k: nat) -> nat
    decreases k,
{
    if k == 0 {
        ONE_Q64 as nat
    } else {
        (q64_pow_prefix_floor(base, (k - 1) as nat) * q64_square_at(base, (k - 1) as nat)) / (ONE_Q64 as nat)
    }
}

proof fn lemma_scale_monotone(a: nat, b: nat, s: nat)
    requires
        a <= b,
    ensures
        (a * s) / (ONE_Q64 as nat) <= (b * s) / (ONE_Q64 as nat),
{
    let one = ONE_Q64 as nat;
    assert((a * s) / one <= (b * s) / one) by (nonlinear_arith)
        requires a <= b, one > 0;
}

proof fn lemma_scale_below(a: nat, s: nat)
    requires
        a <= ONE_Q64,
    ensures
        (a * s) / (ONE_Q64 as nat) <= s,
{
    let one = ONE_Q64 as nat;
    assert((a * s) / one <= s) by (nonlinear_arith)
        requires a <= one, one > 0;
}

proof fn lemma_square_at_below_one(base: nat, k: nat)
    requires
        base < ONE_Q64,
    ensures
        q64_square_at(base, k) < ONE_Q64,
    decreases k,
{
    if k > 0 {
        let s = q64_square_at(base, (k - 1) as nat);
        lemma_square_at_below_one(base, (k - 1) as nat);
        let one = ONE_Q64 as nat;
        assert((s * s) / one < one) by (nonlinear_arith)
            requires s < one, one > 0;
    }
}

proof fn lemma_prefix_bounds(base: nat, exp: nat, k: nat)
    requires
        base < ONE_Q64,
    ensures
        q64_pow_prefix(base, exp, k) <= ONE_Q64,
        q64_pow_prefix_floor(base, k) <= q64_pow_prefix(base, exp, k),
        q64_square_at(base, k) <= q64_pow_prefix_floor(base, k),
    decreases k,
{
    if k > 0 {
        let j = (k - 1) as nat;
        lemma_prefix_bounds(base, exp, j);
        lemma_square_at_below_one(base, j);
        let r = q64_pow_prefix(base, exp, j);
        let m = q64_pow_prefix_floor(base, j);
        let s = q64_square_at(base, j);
        lemma_scale_below(r, s);
        lemma_scale_monotone(m, r, s);
        lemma_scale_monotone(s, m, s);
        let one = ONE_Q64 as nat;
        assert((m * s) / one <= m) by (nonlinear_arith)
            requires s < one, one > 0;
    }
}

/// The running result after `k` bits, continued over the remaining bits, is the full power.
proof fn lemma_prefix_continues(base: nat, exp: nat, k: nat)
    ensures
        pow2(k) > 0,
        q64_pow_steps(q64_pow_prefix(base, exp, k), q64_square_at(base, k), exp / pow2(k))
            == q64_pow_steps(ONE_Q64 as nat, base, exp),
    decreases k,
{
    lemma_pow2_pos(k);
    if k == 0 {
        assert(pow2(0) == 1) by {
            lemma2_to64();
        }
    } else {
        let j = (k - 1) as nat;
        lemma_prefix_continues(base, exp, j);
        lemma_pow2_unfold(k);
        lemma_pow2_pos(j);
        lemma_div_denominator(exp as int, pow2(j) as int, 2);
        assert(exp / pow2(k) == (exp / pow2(j)) / 2);
    }
}

/// Exponents ordered in their `k` low bits give running results in the opposite order.
proof fn lemma_prefix_antitone(base: nat, e1: nat, e2: nat, k: nat)
    requires
        base < ONE_Q64,
        e1 % pow2(k) <= e2 % pow2(k),
    ensures
        q64_pow_prefix(base, e1, k) >= q64_pow_prefix(base, e2, k),
    decreases k,
{
    if k > 0 {
        let j = (k - 1) as nat;
        lemma_pow2_unfold(k);
        lemma_pow2_pos(j);
        let p = pow2(j);
        lemma_mod_breakdown(e1 as int, p as int, 2);
        lemma_mod_breakdown(e2 as int, p as int, 2);
        assert(p * 2 == pow2(k));
        let t1 = exp_bit(e1, j);
        let t2 = exp_bit(e2, j);
        let l1 = e1 % p;
        let l2 = e2 % p;
        assert(e1 % pow2(k) == p * t1 + l1);
        assert(e2 % pow2(k) == p * t2 + l2);
        assert(l2 < p);
        let s = q64_square_at(base, j);
        let r1 = q64_pow_prefix(base, e1, j);
        let r2 = q64_pow_prefix(base, e2, j);
        if t1 == t2 {
            assert(l1 <= l2);
            lemma_prefix_antitone(base, e1, e2, j);
            lemma_scale_monotone(r2, r1, s);
        } else if t1 == 0 {
            lemma_prefix_bounds(base, e1, j);
            lemma_prefix_bounds(base, e2, j);
            lemma_scale_below(r2, s);
        } else {
            assert(p * t1 + l1 >= p);
        }
    }
}

/// For a base below one, raising to a larger 16-bit exponent never gives a larger result.
pub proof fn lemma_q64_pow_antitone(base: u128, e1: nat, e2: nat)
    requires
        base < ONE_Q64,
        e1 <= e2 <= u16::MAX,
    ensures
        q64_pow_steps(ONE_Q64 as nat, base as nat, e1) >= q64_pow_steps(ONE_Q64 as nat, base as nat, e2),
{
    lemma2_to64();
    let k: nat = 16;
    assert(pow2(k) == 65536);
    assert(e1 % pow2(k) == e1);
    assert(e2 % pow2(k) == e2);
    lemma_prefix_antitone(base as nat, e1, e2, k);
    lemma_prefix_continues(base as nat, e1, k);
    lemma_prefix_continues(base as nat, e2, k);
    assert(e1 / pow2(k) == 0);
    assert(e2 / pow2(k) == 0);
}

/// The compounding fee never rises from one period to a later one, and a later period that
/// has a fee gives the earlier one a fee too.
pub proof fn lemma_fee_in_period_antitone(cliff_fee_numerator: u64, reduction_factor: u64, earlier: nat, later: nat)
    requires
        earlier <= later <= u16::MAX,
    ensures
        fee_in_period(cliff_fee_numerator, reduction_factor, later) matches Ok(f2) ==> (fee_in_period(
            cliff_fee_numerator,
            reduction_factor,
            earlier,
        ) matches Ok(f1) && f1 >= f2),
{
    if reduction_factor != 0 {
        let bps = (reduction_factor as nat * ONE_Q64 as nat) / (MAX_BASIS_POINT as nat);
        if bps <= ONE_Q64 as nat {
            let base = (ONE_Q64 as nat - bps) as u128;
            assert(bps > 0) by (nonlinear_arith)
                requires reduction_factor >= 1, bps == (reduction_factor as nat * ONE_Q64 as nat) / 10000nat;
            lemma_q64_pow_antitone(base, earlier, later);
            let q1 = q64_pow_steps(ONE_Q64 as nat, base as nat, earlier);
            let q2 = q64_pow_steps(ONE_Q64 as nat, base as nat, later);
            lemma_q64_pow_steps_bounded(ONE_Q64 as nat, base as nat, earlier);
            lemma_q64_pow_steps_bounded(ONE_Q64 as nat, base as nat, later);
            lemma_scale_monotone(q2, q1, cliff_fee_numerator as nat);
            lemma_scale_below(q1, cliff_fee_numerator as nat);
            lemma_scale_below(q2, cliff_fee_numerator as nat);
            assert(base as nat == ONE_Q64 as nat - bps);
            assert(q1 as u128 as nat == q1);
            assert(q2 as u128 as nat == q2);
            assert(q2 != 0 ==> q1 != 0);
        }
    }
}

} // verus!
