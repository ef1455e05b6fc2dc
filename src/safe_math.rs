use crate::error::PoolError;
use vstd::prelude::*;

verus! {

/// Checked arithmetic on unsigned integers: every operation either returns the exact
/// result or fails with `PoolError::MathOverflow`; nothing wraps silently.
pub trait SafeMath: Sized {
    /// One past the largest value of the type.
    spec fn upper() -> int;

    /// The number of bits of the type.
    spec fn bit_width() -> u32;

    /// The mathematical value.
    spec fn as_int(self) -> int;

    /// Shifting left by `offset < bit_width()`, dropping the bits shifted out.
    spec fn shifted_left(self, offset: u32) -> Self;

    /// Shifting right by `offset < bit_width()`.
    spec fn shifted_right(self, offset: u32) -> Self;

    fn safe_add(self, rhs: Self) -> (r: Result<Self, PoolError>)
        ensures
            r is Ok <==> self.as_int() + rhs.as_int() < Self::upper(),
            r matches Ok(v) ==> v.as_int() == self.as_int() + rhs.as_int(),
            r matches Err(e) ==> e == PoolError::MathOverflow,
    ;

    fn safe_mul(self, rhs: Self) -> (r: Result<Self, PoolError>)
        ensures
            r is Ok <==> self.as_int() * rhs.as_int() < Self::upper(),
            r matches Ok(v) ==> v.as_int() == self.as_int() * rhs.as_int(),
            r matches Err(e) ==> e == PoolError::MathOverflow,
    ;

    fn safe_div(self, rhs: Self) -> (r: Result<Self, PoolError>)
        ensures
            r is Ok <==> rhs.as_int() != 0,
            r matches Ok(v) ==> v.as_int() == self.as_int() / rhs.as_int(),
            r matches Err(e) ==> e == PoolError::MathOverflow,
    ;

    fn safe_rem(self, rhs: Self) -> (r: Result<Self, PoolError>)
        ensures
            r is Ok <==> rhs.as_int() != 0,
            r matches Ok(v) ==> v.as_int() == self.as_int() % rhs.as_int(),
            r matches Err(e) ==> e == PoolError::MathOverflow,
    ;

    fn safe_sub(self, rhs: Self) -> (r: Result<Self, PoolError>)
        ensures
            r is Ok <==> self.as_int() >= rhs.as_int(),
            r matches Ok(v) ==> v.as_int() == self.as_int() - rhs.as_int(),
            r matches Err(e) ==> e == PoolError::MathOverflow,
    ;

    fn safe_shl(self, offset: u32) -> (r: Result<Self, PoolError>)
        ensures
            r is Ok <==> offset < Self::bit_width(),
            r matches Ok(v) ==> v == self.shifted_left(offset),
            r matches Err(e) ==> e == PoolError::MathOverflow,
    ;

    fn safe_shr(self, offset: u32) -> (r: Result<Self, PoolError>)
        ensures
            r is Ok <==> offset < Self::bit_width(),
            r matches Ok(v) ==> v == self.shifted_right(offset),
            r matches Err(e) ==> e == PoolError::MathOverflow,
    ;
}

impl SafeMath for u16 {
    open spec fn upper() -> int {
        u16::MAX as int + 1
    }

    open spec fn bit_width() -> u32 {
        16
    }

    open spec fn as_int(self) -> int {
        self as int
    }

    open spec fn shifted_left(self, offset: u32) -> u16 {
        self << offset
    }

    open spec fn shifted_right(self, offset: u32) -> u16 {
        self >> offset
    }

    fn safe_add(self, rhs: u16) -> (r: Result<u16, PoolError>) {
        if self <= u16::MAX - rhs {
            Ok(self + rhs)
        } else {
            Err(PoolError::MathOverflow)
        }
    }

    fn safe_mul(self, rhs: u16) -> (r: Result<u16, PoolError>) {
        if rhs == 0 || self <= u16::MAX / rhs {
            proof {
                if rhs != 0 {
                    assert(self * rhs <= (u16::MAX / rhs) * rhs) by (nonlinear_arith)
                        requires self <= u16::MAX / rhs, rhs > 0;
                    assert((u16::MAX / rhs) * rhs <= u16::MAX) by (nonlinear_arith)
                        requires rhs > 0;
                }
            }
            Ok(self * rhs)
        } else {
            proof {
                assert(self * rhs > u16::MAX) by (nonlinear_arith)
                    requires self > u16::MAX / rhs, rhs > 0;
            }
            Err(PoolError::MathOverflow)
        }
    }

    fn safe_div(self, rhs: u16) -> (r: Result<u16, PoolError>) {
        if rhs != 0 {
            Ok(self / rhs)
        } else {
            Err(PoolError::MathOverflow)
        }
    }

    fn safe_rem(self, rhs: u16) -> (r: Result<u16, PoolError>) {
        if rhs != 0 {
            Ok(self % rhs)
        } else {
            Err(PoolError::MathOverflow)
        }
    }

    fn safe_sub(self, rhs: u16) -> (r: Result<u16, PoolError>) {
        if self >= rhs {
            Ok(self - rhs)
        } else {
            Err(PoolError::MathOverflow)
        }
    }

    fn safe_shl(self, offset: u32) -> (r: Result<u16, PoolError>) {
        if offset < 16 {
            Ok(self << offset)
        } else {
            Err(PoolError::MathOverflow)
        }
    }

    fn safe_shr(self, offset: u32) -> (r: Result<u16, PoolError>) {
        if offset < 16 {
            Ok(self >> offset)
        } else {
            Err(PoolError::MathOverflow)
        }
    }
}

impl SafeMath for u32 {
    open spec fn upper() -> int {
        u32::MAX as int + 1
    }

    open spec fn bit_width() -> u32 {
        32
    }

    open spec fn as_int(self) -> int {
        self as int
    }

    open spec fn shifted_left(self, offset: u32) -> u32 {
        self << offset
    }

    open spec fn shifted_right(self, offset: u32) -> u32 {
        self >> offset
    }

    fn safe_add(self, rhs: u32) -> (r: Result<u32, PoolError>) {
        if self <= u32::MAX - rhs {
            Ok(self + rhs)
        } else {
            Err(PoolError::MathOverflow)
        }
    }

    fn safe_mul(self, rhs: u32) -> (r: Result<u32, PoolError>) {
        if rhs == 0 || self <= u32::MAX / rhs {
            proof {
                if rhs != 0 {
                    assert(self * rhs <= (u32::MAX / rhs) * rhs) by (nonlinear_arith)
                        requires self <= u32::MAX / rhs, rhs > 0;
                    assert((u32::MAX / rhs) * rhs <= u32::MAX) by (nonlinear_arith)
                        requires rhs > 0;
                }
            }
            Ok(self * rhs)
        } else {
            proof {
                assert(self * rhs > u32::MAX) by (nonlinear_arith)
                    requires self > u32::MAX / rhs, rhs > 0;
            }
            Err(PoolError::MathOverflow)
        }
    }

    fn safe_div(self, rhs: u32) -> (r: Result<u32, PoolError>) {
        if rhs != 0 {
            Ok(self / rhs)
        } else {
            Err(PoolError::MathOverflow)
        }
    }

    fn safe_rem(self, rhs: u32) -> (r: Result<u32, PoolError>) {
        if rhs != 0 {
            Ok(self % rhs)
        } else {
            Err(PoolError::MathOverflow)
        }
    }

    fn safe_sub(self, rhs: u32) -> (r: Result<u32, PoolError>) {
        if self >= rhs {
            Ok(self - rhs)
        } else {
            Err(PoolError::MathOverflow)
        }
    }

    fn safe_shl(self, offset: u32) -> (r: Result<u32, PoolError>) {
        if offset < 32 {
            Ok(self << offset)
        } else {
            Err(PoolError::MathOverflow)
        }
    }

    fn safe_shr(self, offset: u32) -> (r: Result<u32, PoolError>) {
        if offset < 32 {
            Ok(self >> offset)
        } else {
            Err(PoolError::MathOverflow)
        }
    }
}

impl SafeMath for u64 {
    open spec fn upper() -> int {
        u64::MAX as int + 1
    }

    open spec fn bit_width() -> u32 {
        64
    }

    open spec fn as_int(self) -> int {
        self as int
    }

    open spec fn shifted_left(self, offset: u32) -> u64 {
        self << offset
    }

    open spec fn shifted_right(self, offset: u32) -> u64 {
        self >> offset
    }

    fn safe_add(self, rhs: u64) -> (r: Result<u64, PoolError>) {
        if self <= u64::MAX - rhs {
            Ok(self + rhs)
        } else {
            Err(PoolError::MathOverflow)
        }
    }

    fn safe_mul(self, rhs: u64) -> (r: Result<u64, PoolError>) {
        if rhs == 0 || self <= u64::MAX / rhs {
            proof {
                if rhs != 0 {
                    assert(self * rhs <= (u64::MAX / rhs) * rhs) by (nonlinear_arith)
                        requires self <= u64::MAX / rhs, rhs > 0;
                    assert((u64::MAX / rhs) * rhs <= u64::MAX) by (nonlinear_arith)
                        requires rhs > 0;
                }
            }
            Ok(self * rhs)
        } else {
            proof {
                assert(self * rhs > u64::MAX) by (nonlinear_arith)
                    requires self > u64::MAX / rhs, rhs > 0;
            }
            Err(PoolError::MathOverflow)
        }
    }

    fn safe_div(self, rhs: u64) -> (r: Result<u64, PoolError>) {
        if rhs != 0 {
            Ok(self / rhs)
        } else {
            Err(PoolError::MathOverflow)
        }
    }

    fn safe_rem(self, rhs: u64) -> (r: Result<u64, PoolError>) {
        if rhs != 0 {
            Ok(self % rhs)
        } else {
            Err(PoolError::MathOverflow)
        }
    }

    fn safe_sub(self, rhs: u64) -> (r: Result<u64, PoolError>) {
        if self >= rhs {
            Ok(self - rhs)
        } else {
            Err(PoolError::MathOverflow)
        }
    }

    fn safe_shl(self, offset: u32) -> (r: Result<u64, PoolError>) {
        if offset < 64 {
            Ok(self << offset)
        } else {
            Err(PoolError::MathOverflow)
        }
    }

    fn safe_shr(self, offset: u32) -> (r: Result<u64, PoolError>) {
        if offset < 64 {
            Ok(self >> offset)
        } else {
            Err(PoolError::MathOverflow)
        }
    }
}

impl SafeMath for u128 {
    open spec fn upper() -> int {
        u128::MAX as int + 1
    }

    open spec fn bit_width() -> u32 {
        128
    }

    open spec fn as_int(self) -> int {
        self as int
    }

    open spec fn shifted_left(self, offset: u32) -> u128 {
        self << offset
    }

    open spec fn shifted_right(self, offset: u32) -> u128 {
        self >> offset
    }

    fn safe_add(self, rhs: u128) -> (r: Result<u128, PoolError>) {
        if self <= u128::MAX - rhs {
            Ok(self + rhs)
        } else {
            Err(PoolError::MathOverflow)
        }
    }

    fn safe_mul(self, rhs: u128) -> (r: Result<u128, PoolError>) {
        if rhs == 0 || self <= u128::MAX / rhs {
            proof {
                if rhs != 0 {
                    assert(self * rhs <= (u128::MAX / rhs) * rhs) by (nonlinear_arith)
                        requires self <= u128::MAX / rhs, rhs > 0;
                    assert((u128::MAX / rhs) * rhs <= u128::MAX) by (nonlinear_arith)
                        requires rhs > 0;
                }
            }
            Ok(self * rhs)
        } else {
            proof {
                assert(self * rhs > u128::MAX) by (nonlinear_arith)
                    requires self > u128::MAX / rhs, rhs > 0;
            }
            Err(PoolError::MathOverflow)
        }
    }

    fn safe_div(self, rhs: u128) -> (r: Result<u128, PoolError>) {
        if rhs != 0 {
            Ok(self / rhs)
        } else {
            Err(PoolError::MathOverflow)
        }
    }

    fn safe_rem(self, rhs: u128) -> (r: Result<u128, PoolError>) {
        if rhs != 0 {
            Ok(self % rhs)
        } else {
            Err(PoolError::MathOverflow)
        }
    }

    fn safe_sub(self, rhs: u128) -> (r: Result<u128, PoolError>) {
        if self >= rhs {
            Ok(self - rhs)
        } else {
            Err(PoolError::MathOverflow)
        }
    }

    fn safe_shl(self, offset: u32) -> (r: Result<u128, PoolError>) {
        if offset < 128 {
            Ok(self << offset)
        } else {
            Err(PoolError::MathOverflow)
        }
    }

    fn safe_shr(self, offset: u32) -> (r: Result<u128, PoolError>) {
        if offset < 128 {
            Ok(self >> offset)
        } else {
            Err(PoolError::MathOverflow)
        }
    }
}

/// Narrowing conversion that fails with `PoolError::TypeCastFailed` instead of truncating.
pub trait SafeCast<T>: Sized {
    /// Whether the value is representable in the target type.
    spec fn fits(self) -> bool;

    /// The value in the target type, where it fits.
    spec fn cast_value(self) -> T;

    fn safe_cast(self) -> (r: Result<T, PoolError>)
        ensures
            r is Ok <==> self.fits(),
            r matches Ok(v) ==> v == self.cast_value(),
            r matches Err(e) ==> e == PoolError::TypeCastFailed,
    ;
}

impl SafeCast<u64> for u128 {
    open spec fn fits(self) -> bool {
        self <= u64::MAX as u128
    }

    open spec fn cast_value(self) -> u64 {
        self as u64
    }

    fn safe_cast(self) -> (r: Result<u64, PoolError>) {
        if self <= u64::MAX as u128 {
            Ok(self as u64)
        } else {
            Err(PoolError::TypeCastFailed)
        }
    }
}

impl SafeCast<u64> for i64 {
    open spec fn fits(self) -> bool {
        self >= 0
    }

    open spec fn cast_value(self) -> u64 {
        self as u64
    }

    fn safe_cast(self) -> (r: Result<u64, PoolError>) {
        if self >= 0 {
            Ok(self as u64)
        } else {
            Err(PoolError::TypeCastFailed)
        }
    }
}

impl SafeCast<u16> for usize {
    open spec fn fits(self) -> bool {
        self <= u16::MAX as usize
    }

    open spec fn cast_value(self) -> u16 {
        self as u16
    }

    fn safe_cast(self) -> (r: Result<u16, PoolError>) {
        if self <= u16::MAX as usize {
            Ok(self as u16)
        } else {
            Err(PoolError::TypeCastFailed)
        }
    }
}

} // verus!
