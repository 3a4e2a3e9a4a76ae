use vstd::prelude::*;
use crate::error::ExecError;

verus! {

/// The two-operand integer operations.
#[derive(Debug, Clone, Copy, PartialEq, Eq)]
pub enum IntOp {
    Add,
    Sub,
    Mul,
    Div,
    Rem,
    And,
    Or,
    Xor,
    Shl,
    Shr,
    Ushr,
}

/// The 32-bit two's-complement number that is congruent to `x` modulo 2^32.
pub open spec fn wrap32(x: int) -> i32 {
    let m = x % 0x1_0000_0000;
    if m >= 0x8000_0000 {
        (m - 0x1_0000_0000) as i32
    } else {
        m as i32
    }
}

/// The 64-bit two's-complement number that is congruent to `x` modulo 2^64.
pub open spec fn wrap64(x: int) -> i64 {
    let m = x % 0x1_0000_0000_0000_0000;
    if m >= 0x8000_0000_0000_0000 {
        (m - 0x1_0000_0000_0000_0000) as i64
    } else {
        m as i64
    }
}

/// The quotient of `a` by `b`, rounded toward zero.
pub open spec fn quotient(a: int, b: int) -> int
    recommends
        b != 0,
{
    if a >= 0 && b > 0 {
        a / b
    } else if a < 0 && b < 0 {
        (-a) / (-b)
    } else if a < 0 {
        -((-a) / b)
    } else {
        -(a / (-b))
    }
}

/// The remainder that goes with `quotient`: it has the sign of `a`, and
/// `b * quotient(a, b) + remainder(a, b)` is `a`.
pub open spec fn remainder(a: int, b: int) -> int
    recommends
        b != 0,
{
    if a >= 0 && b > 0 {
        a % b
    } else if a < 0 && b < 0 {
        -((-a) % (-b))
    } else if a < 0 {
        -((-a) % b)
    } else {
        a % (-b)
    }
}

/// What an operation on two ints gives. Sums, differences, products and
/// quotients wrap around; a shift uses the low five bits of its amount; a
/// division or remainder by zero is an error.
pub open spec fn int_op(op: IntOp, a: i32, b: i32) -> Result<i32, ExecError> {
    match op {
        IntOp::Add => Ok(wrap32(a + b)),
        IntOp::Sub => Ok(wrap32(a - b)),
        IntOp::Mul => Ok(wrap32(a * b)),
        IntOp::Div => if b == 0 {
            Err(ExecError::DivisionByZero)
        } else {
            Ok(wrap32(quotient(a as int, b as int)))
        },
        IntOp::Rem => if b == 0 {
            Err(ExecError::DivisionByZero)
        } else {
            Ok(wrap32(remainder(a as int, b as int)))
        },
        IntOp::And => Ok(a & b),
        IntOp::Or => Ok(a | b),
        IntOp::Xor => Ok(a ^ b),
        IntOp::Shl => Ok(a << (b & 0x1f)),
        IntOp::Shr => Ok(a >> (b & 0x1f)),
        IntOp::Ushr => Ok(((a as u32) >> (b & 0x1f)) as i32),
    }
}

/// What an operation on two longs gives. Sums, differences, products and
/// quotients wrap around; a division or remainder by zero is an error.
/// Shifts are not among these: their amount is an int.
pub open spec fn long_op(op: IntOp, a: i64, b: i64) -> Result<i64, ExecError> {
    match op {
        IntOp::Add => Ok(wrap64(a + b)),
        IntOp::Sub => Ok(wrap64(a - b)),
        IntOp::Mul => Ok(wrap64(a * b)),
        IntOp::Div => if b == 0 {
            Err(ExecError::DivisionByZero)
        } else {
            Ok(wrap64(quotient(a as int, b as int)))
        },
        IntOp::Rem => if b == 0 {
            Err(ExecError::DivisionByZero)
        } else {
            Ok(wrap64(remainder(a as int, b as int)))
        },
        IntOp::And => Ok(a & b),
        IntOp::Or => Ok(a | b),
        IntOp::Xor => Ok(a ^ b),
        IntOp::Shl | IntOp::Shr | IntOp::Ushr => Err(ExecError::TypeMismatch),
    }
}

/// What a shift of a long gives: the low six bits of the amount are used.
pub open spec fn long_shift(op: IntOp, a: i64, amount: i32) -> Result<i64, ExecError> {
    match op {
        IntOp::Shl => Ok(a << (amount & 0x3f)),
        IntOp::Shr => Ok(a >> (amount & 0x3f)),
        IntOp::Ushr => Ok((#[verifier::truncate] (((#[verifier::truncate] (a as u64)) >> (amount & 0x3f)) as i64))),
        _ => Err(ExecError::TypeMismatch),
    }
}

/// The bit pattern of a 32-bit float with its sign flipped.
pub open spec fn flip_sign32(bits: u32) -> u32 {
    if bits >= 0x8000_0000 {
        (bits - 0x8000_0000) as u32
    } else {
        (bits + 0x8000_0000) as u32
    }
}

/// The bit pattern of a 64-bit float with its sign flipped.
pub open spec fn flip_sign64(bits: u64) -> u64 {
    if bits >= 0x8000_0000_0000_0000 {
        (bits - 0x8000_0000_0000_0000) as u64
    } else {
        (bits + 0x8000_0000_0000_0000) as u64
    }
}

/// The sign of `a - b`: -1, 0 or 1.
pub open spec fn compare_long(a: i64, b: i64) -> i32 {
    if a > b {
        1i32
    } else if a < b {
        -1i32
    } else {
        0i32
    }
}

/// The low eight bits of `v`, as a number from 0 to 255.
pub open spec fn low_eight(v: i32) -> i32 {
    ((v as int) % 256) as i32
}

/// Applies a two-operand operation to two ints.
pub fn apply_int_op(op: IntOp, a: i32, b: i32) -> (r: Result<i32, ExecError>)
    ensures
        r == int_op(op, a, b),
{
    match op {
        IntOp::Add => {
            let r = a.wrapping_add(b);
            assert(r == wrap32(a + b));
            Ok(r)
        },
        IntOp::Sub => {
            let r = a.wrapping_sub(b);
            assert(r == wrap32(a - b));
            Ok(r)
        },
        IntOp::Mul => {
            let r = a.wrapping_mul(b);
            assert(r == wrap32(a * b));
            Ok(r)
        },
        IntOp::Div => {
            if b == 0 {
                Err(ExecError::DivisionByZero)
            } else {
                match a.checked_div(b) {
                    Some(q) => {
                        assert(q == wrap32(quotient(a as int, b as int)));
                        Ok(q)
                    },
                    None => {
                        assert(i32::MIN == wrap32(quotient(a as int, b as int)));
                        Ok(i32::MIN)
                    },
                }
            }
        },
        IntOp::Rem => {
            if b == 0 {
                Err(ExecError::DivisionByZero)
            } else {
                match a.checked_rem(b) {
                    Some(q) => {
                        assert(q == wrap32(remainder(a as int, b as int)));
                        Ok(q)
                    },
                    None => {
                        assert(0 == wrap32(remainder(a as int, b as int)));
                        Ok(0)
                    },
                }
            }
        },
        IntOp::And => Ok(a & b),
        IntOp::Or => Ok(a | b),
        IntOp::Xor => Ok(a ^ b),
        IntOp::Shl => {
            assert(0 <= (b & 0x1f) < 32) by (bit_vector);
            let r = a << (b & 0x1f);
            assert(int_op(op, a, b) == Ok::<i32, ExecError>(r));
            Ok(r)
        },
        IntOp::Shr => {
            assert(0 <= (b & 0x1f) < 32) by (bit_vector);
            let r = a >> (b & 0x1f);
            assert(int_op(op, a, b) == Ok::<i32, ExecError>(r));
            Ok(r)
        },
        IntOp::Ushr => {
            assert(0 <= (b & 0x1f) < 32) by (bit_vector);
            let r = (#[verifier::truncate] (((#[verifier::truncate] (a as u32)) >> (b & 0x1f)) as i32));
            assert(int_op(op, a, b) == Ok::<i32, ExecError>(r));
            Ok(r)
        },
    }
}

/// Applies a two-operand operation to two longs.
pub fn apply_long_op(op: IntOp, a: i64, b: i64) -> (r: Result<i64, ExecError>)
    ensures
        r == long_op(op, a, b),
{
    match op {
        IntOp::Add => {
            let r = a.wrapping_add(b);
            assert(r == wrap64(a + b));
            Ok(r)
        },
        IntOp::Sub => {
            let r = a.wrapping_sub(b);
            assert(r == wrap64(a - b));
            Ok(r)
        },
        IntOp::Mul => {
            let r = a.wrapping_mul(b);
            assert(r == wrap64(a * b));
            Ok(r)
        },
        IntOp::Div => {
            if b == 0 {
                Err(ExecError::DivisionByZero)
            } else {
                match a.checked_div(b) {
                    Some(q) => {
                        assert(q == wrap64(quotient(a as int, b as int)));
                        Ok(q)
                    },
                    None => {
                        assert(i64::MIN == wrap64(quotient(a as int, b as int)));
                        Ok(i64::MIN)
                    },
                }
            }
        },
        IntOp::Rem => {
            if b == 0 {
                Err(ExecError::DivisionByZero)
            } else {
                match a.checked_rem(b) {
                    Some(q) => {
                        assert(q == wrap64(remainder(a as int, b as int)));
                        Ok(q)
                    },
                    None => {
                        assert(0 == wrap64(remainder(a as int, b as int)));
                        Ok(0)
                    },
                }
            }
        },
        IntOp::And => Ok(a & b),
        IntOp::Or => Ok(a | b),
        IntOp::Xor => Ok(a ^ b),
        IntOp::Shl => Err(ExecError::TypeMismatch),
        IntOp::Shr => Err(ExecError::TypeMismatch),
        IntOp::Ushr => Err(ExecError::TypeMismatch),
    }
}

/// Shifts a long by an int amount.
pub fn apply_long_shift(op: IntOp, a: i64, amount: i32) -> (r: Result<i64, ExecError>)
    ensures
        r == long_shift(op, a, amount),
{
    match op {
        IntOp::Shl => {
            assert(0 <= (amount & 0x3f) < 64) by (bit_vector);
            Ok(a << (amount & 0x3f))
        },
        IntOp::Shr => {
            assert(0 <= (amount & 0x3f) < 64) by (bit_vector);
            Ok(a >> (amount & 0x3f))
        },
        IntOp::Ushr => {
            assert(0 <= (amount & 0x3f) < 64) by (bit_vector);
            Ok((#[verifier::truncate] (((#[verifier::truncate] (a as u64)) >> (amount & 0x3f)) as i64)))
        },
        _ => Err(ExecError::TypeMismatch),
    }
}

/// The negation of an int, wrapping around.
pub fn negate_int(a: i32) -> (r: i32)
    ensures
        r == wrap32(-a),
{
    0i32.wrapping_sub(a)
}

/// The negation of a long, wrapping around.
pub fn negate_long(a: i64) -> (r: i64)
    ensures
        r == wrap64(-a),
{
    0i64.wrapping_sub(a)
}

/// Flips the sign bit of a 32-bit float's bit pattern.
pub fn negate_float(bits: u32) -> (r: u32)
    ensures
        r == flip_sign32(bits),
{
    if bits >= 0x8000_0000 {
        bits - 0x8000_0000
    } else {
        bits + 0x8000_0000
    }
}

/// Flips the sign bit of a 64-bit float's bit pattern.
pub fn negate_double(bits: u64) -> (r: u64)
    ensures
        r == flip_sign64(bits),
{
    if bits >= 0x8000_0000_0000_0000 {
        bits - 0x8000_0000_0000_0000
    } else {
        bits + 0x8000_0000_0000_0000
    }
}

/// The low 32 bits of a long, as an int.
pub fn long_to_int(a: i64) -> (r: i32)
    ensures
        r == wrap32(a as int),
{
    let m: i128 = if a >= 0 {
        (a % 0x1_0000_0000) as i128
    } else {
        0xffff_ffff - ((-(a as i128) - 1) % 0x1_0000_0000)
    };
    if m >= 0x8000_0000 {
        (m - 0x1_0000_0000) as i32
    } else {
        m as i32
    }
}

/// The low eight bits of an int, as a number from 0 to 255.
pub fn int_low_eight(v: i32) -> (r: i32)
    ensures
        r == low_eight(v),
{
    if v >= 0 {
        v % 256
    } else {
        (255 - ((-(v as i64) - 1) % 256)) as i32
    }
}

/// Compares two longs.
pub fn long_compare(a: i64, b: i64) -> (r: i32)
    ensures
        r == compare_long(a, b),
{
    if a > b {
        1
    } else if a < b {
        -1
    } else {
        0
    }
}


/// Wrapping to 32 bits changes a number by a multiple of 2^32, and not at
/// all if it fits.
pub proof fn lemma_wrap32(x: int)
    ensures
        (wrap32(x) - x) % 0x1_0000_0000 == 0,
        -0x8000_0000 <= x < 0x8000_0000 ==> wrap32(x) == x,
{
}

/// Wrapping to 64 bits changes a number by a multiple of 2^64, and not at
/// all if it fits.
pub proof fn lemma_wrap64(x: int)
    ensures
        (wrap64(x) - x) % 0x1_0000_0000_0000_0000 == 0,
        -0x8000_0000_0000_0000 <= x < 0x8000_0000_0000_0000 ==> wrap64(x) == x,
{
}

/// Quotient and remainder belong together: the divisor times the quotient
/// plus the remainder is the dividend, and the remainder is smaller than the
/// divisor and has the sign of the dividend.
pub proof fn lemma_quotient_remainder(a: int, b: int)
    requires
        b != 0,
    ensures
        b * quotient(a, b) + remainder(a, b) == a,
        a >= 0 ==> 0 <= remainder(a, b),
        a <= 0 ==> remainder(a, b) <= 0,
        b > 0 ==> -b < remainder(a, b) < b,
        b < 0 ==> b < remainder(a, b) < -b,
{
    let x = if a >= 0 { a } else { -a };
    let d = if b > 0 { b } else { -b };
    vstd::arithmetic::div_mod::lemma_fundamental_div_mod(x, d);
    vstd::arithmetic::div_mod::lemma_mod_bound(x, d);
    assert(d * (x / d) + x % d == x);
    if a >= 0 && b > 0 {
    } else if a < 0 && b < 0 {
        assert(b * ((-a) / (-b)) == -((-b) * ((-a) / (-b)))) by (nonlinear_arith);
    } else if a < 0 {
        assert(b * (-((-a) / b)) == -(b * ((-a) / b))) by (nonlinear_arith);
    } else {
        assert(b * (-(a / (-b))) == (-b) * (a / (-b))) by (nonlinear_arith);
    }
}

/// Integer arithmetic wraps around: the sum, difference and product of two
/// ints, the negation of an int, and the quotient of an int by a divisor
/// other than zero are the exact result changed by a multiple of 2^32, and
/// the exact result itself where that fits into 32 bits. The same holds of
/// longs with 2^64.
pub proof fn lemma_int_arithmetic_wraps(a: i32, b: i32)
    ensures
        int_op(IntOp::Add, a, b) is Ok && (int_op(IntOp::Add, a, b)->Ok_0 - (a + b)) % 0x1_0000_0000
            == 0,
        int_op(IntOp::Sub, a, b) is Ok && (int_op(IntOp::Sub, a, b)->Ok_0 - (a - b)) % 0x1_0000_0000
            == 0,
        int_op(IntOp::Mul, a, b) is Ok && (int_op(IntOp::Mul, a, b)->Ok_0 - (a * b)) % 0x1_0000_0000
            == 0,
        b != 0 ==> int_op(IntOp::Div, a, b) is Ok && (int_op(IntOp::Div, a, b)->Ok_0 - quotient(
            a as int,
            b as int,
        )) % 0x1_0000_0000 == 0,
        b != 0 ==> int_op(IntOp::Rem, a, b) == Ok::<i32, ExecError>(remainder(a as int, b as int) as i32),
        (wrap32(-a) - (-a)) % 0x1_0000_0000 == 0,
{
    lemma_wrap32(a + b);
    lemma_wrap32(a - b);
    lemma_wrap32(a * b);
    lemma_wrap32(-a);
    if b != 0 {
        lemma_wrap32(quotient(a as int, b as int));
        lemma_quotient_remainder(a as int, b as int);
        lemma_wrap32(remainder(a as int, b as int));
    }
}

/// Long arithmetic wraps around in the same way, at 64 bits.
pub proof fn lemma_long_arithmetic_wraps(a: i64, b: i64)
    ensures
        long_op(IntOp::Add, a, b) is Ok && (long_op(IntOp::Add, a, b)->Ok_0 - (a + b))
            % 0x1_0000_0000_0000_0000 == 0,
        long_op(IntOp::Sub, a, b) is Ok && (long_op(IntOp::Sub, a, b)->Ok_0 - (a - b))
            % 0x1_0000_0000_0000_0000 == 0,
        long_op(IntOp::Mul, a, b) is Ok && (long_op(IntOp::Mul, a, b)->Ok_0 - (a * b))
            % 0x1_0000_0000_0000_0000 == 0,
        b != 0 ==> long_op(IntOp::Div, a, b) is Ok && (long_op(IntOp::Div, a, b)->Ok_0 - quotient(
            a as int,
            b as int,
        )) % 0x1_0000_0000_0000_0000 == 0,
        b != 0 ==> long_op(IntOp::Rem, a, b) == Ok::<i64, ExecError>(remainder(a as int, b as int) as i64),
        (wrap64(-a) - (-a)) % 0x1_0000_0000_0000_0000 == 0,
{
    lemma_wrap64(a + b);
    lemma_wrap64(a - b);
    lemma_wrap64(a * b);
    lemma_wrap64(-a);
    if b != 0 {
        lemma_wrap64(quotient(a as int, b as int));
        lemma_quotient_remainder(a as int, b as int);
        lemma_wrap64(remainder(a as int, b as int));
    }
}

} // verus!
