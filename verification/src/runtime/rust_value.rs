//! The operators of the two integer types.

use crate::runtime::result::{Error, Result};
use vstd::prelude::*;
use vstd::std_specs::bits::{
    u32_leading_zeros, u32_trailing_zeros, u64_leading_zeros, u64_trailing_zeros,
};

verus! {

/// How many of the low `n` bits of `x` are set.
pub open spec fn count_bits(x: u64, n: nat) -> nat
    decreases n,
{
    if n == 0 {
        0
    } else {
        (x % 2) as nat + count_bits(x / 2, (n - 1) as nat)
    }
}

/// How many bits of `x` are set.
pub open spec fn count_ones(x: u64) -> nat {
    count_bits(x, 64)
}

/// Counts the bits of `x` that are set.
pub fn count_ones_of(x: u64) -> (r: u32)
    ensures
        r == count_ones(x),
        r <= 64,
{
    let mut rest: u64 = x;
    let mut count: u32 = 0;
    let mut i: u32 = 0;
    while i < 64
        invariant
            i <= 64,
            count <= i,
            count + count_bits(rest, (64 - i) as nat) == count_bits(x, 64),
        decreases 64 - i,
    {
        count = count + ((rest % 2) as u32);
        rest = rest / 2;
        i = i + 1;
    }
    count
}

/// `x` turned left by `n` places, in 32 bits.
pub open spec fn rotate_left_32(x: u32, n: u32) -> u32 {
    (x << (n % 32)) | (x >> ((32 - n % 32) % 32))
}

/// `x` turned right by `n` places, in 32 bits.
pub open spec fn rotate_right_32(x: u32, n: u32) -> u32 {
    (x >> (n % 32)) | (x << ((32 - n % 32) % 32))
}

/// `x` turned left by `n` places, in 64 bits.
pub open spec fn rotate_left_64(x: u64, n: u32) -> u64 {
    (x << (n % 64)) | (x >> ((64 - n % 64) % 64))
}

/// `x` turned right by `n` places, in 64 bits.
pub open spec fn rotate_right_64(x: u64, n: u32) -> u64 {
    (x >> (n % 64)) | (x << ((64 - n % 64) % 64))
}

/// 1 for true, 0 for false.
pub open spec fn flag(b: bool) -> i32 {
    if b {
        1
    } else {
        0
    }
}

/// The operators of an integer type. Comparisons give 1 or 0. Sums,
/// differences and products wrap; shifts and rotations use the low bits of
/// their second operand. The operators whose names end in `_u` read both
/// operands as unsigned numbers. A division or remainder whose result does
/// not exist fails with `UndefinedBinaryOp`.
pub trait IntOp: Sized {
    fn eqz(&self) -> Result<i32>;

    fn clz(&self) -> Result<Self>;

    fn ctz(&self) -> Result<Self>;

    fn popcnt(&self) -> Result<Self>;

    fn equal(&self, rhs: &Self) -> Result<i32>;

    fn not_equal(&self, rhs: &Self) -> Result<i32>;

    fn lt_s(&self, rhs: &Self) -> Result<i32>;

    fn lt_u(&self, rhs: &Self) -> Result<i32>;

    fn gt_s(&self, rhs: &Self) -> Result<i32>;

    fn gt_u(&self, rhs: &Self) -> Result<i32>;

    fn le_s(&self, rhs: &Self) -> Result<i32>;

    fn le_u(&self, rhs: &Self) -> Result<i32>;

    fn ge_s(&self, rhs: &Self) -> Result<i32>;

    fn ge_u(&self, rhs: &Self) -> Result<i32>;

    fn add(&self, rhs: &Self) -> Result<Self>;

    fn sub(&self, rhs: &Self) -> Result<Self>;

    fn mul(&self, rhs: &Self) -> Result<Self>;

    fn div_s(&self, rhs: &Self) -> Result<Self>;

    fn div_u(&self, rhs: &Self) -> Result<Self>;

    fn rem_s(&self, rhs: &Self) -> Result<Self>;

    fn rem_u(&self, rhs: &Self) -> Result<Self>;

    fn and(&self, rhs: &Self) -> Result<Self>;

    fn or(&self, rhs: &Self) -> Result<Self>;

    fn xor(&self, rhs: &Self) -> Result<Self>;

    fn shl(&self, rhs: &Self) -> Result<Self>;

    fn shr_s(&self, rhs: &Self) -> Result<Self>;

    fn shr_u(&self, rhs: &Self) -> Result<Self>;

    fn rotl(&self, rhs: &Self) -> Result<Self>;

    fn rotr(&self, rhs: &Self) -> Result<Self>;

}

impl IntOp for i32 {
    fn eqz(&self) -> (r: Result<i32>)
        ensures
            r == Ok::<i32, Error>(flag(*self == 0)),
    {
        Ok(if *self == 0 { 1 } else { 0 })
    }

    fn clz(&self) -> (r: Result<i32>)
        ensures
            r == Ok::<i32, Error>(u32_leading_zeros(*self as u32) as i32),
    {
        Ok((*self as u32).leading_zeros() as i32)
    }

    fn ctz(&self) -> (r: Result<i32>)
        ensures
            r == Ok::<i32, Error>(u32_trailing_zeros(*self as u32) as i32),
    {
        Ok((*self as u32).trailing_zeros() as i32)
    }

    fn popcnt(&self) -> (r: Result<i32>)
        ensures
            r == Ok::<i32, Error>(count_ones((*self as u32) as u64) as i32),
    {
        Ok(count_ones_of((*self as u32) as u64) as i32)
    }

    fn equal(&self, rhs: &Self) -> (r: Result<i32>)
        ensures
            r == Ok::<i32, Error>(flag(*self == *rhs)),
    {
        Ok(if *self == *rhs { 1 } else { 0 })
    }

    fn not_equal(&self, rhs: &Self) -> (r: Result<i32>)
        ensures
            r == Ok::<i32, Error>(flag(*self != *rhs)),
    {
        Ok(if *self != *rhs { 1 } else { 0 })
    }

    fn lt_s(&self, rhs: &Self) -> (r: Result<i32>)
        ensures
            r == Ok::<i32, Error>(flag(*self < *rhs)),
    {
        Ok(if *self < *rhs { 1 } else { 0 })
    }

    fn lt_u(&self, rhs: &Self) -> (r: Result<i32>)
        ensures
            r == Ok::<i32, Error>(flag((*self as u32) < (*rhs as u32))),
    {
        Ok(if (*self as u32) < (*rhs as u32) { 1 } else { 0 })
    }

    fn gt_s(&self, rhs: &Self) -> (r: Result<i32>)
        ensures
            r == Ok::<i32, Error>(flag(*self > *rhs)),
    {
        Ok(if *self > *rhs { 1 } else { 0 })
    }

    fn gt_u(&self, rhs: &Self) -> (r: Result<i32>)
        ensures
            r == Ok::<i32, Error>(flag((*self as u32) > (*rhs as u32))),
    {
        Ok(if (*self as u32) > (*rhs as u32) { 1 } else { 0 })
    }

    fn le_s(&self, rhs: &Self) -> (r: Result<i32>)
        ensures
            r == Ok::<i32, Error>(flag(*self <= *rhs)),
    {
        Ok(if *self <= *rhs { 1 } else { 0 })
    }

    fn le_u(&self, rhs: &Self) -> (r: Result<i32>)
        ensures
            r == Ok::<i32, Error>(flag((*self as u32) <= (*rhs as u32))),
    {
        Ok(if (*self as u32) <= (*rhs as u32) { 1 } else { 0 })
    }

    fn ge_s(&self, rhs: &Self) -> (r: Result<i32>)
        ensures
            r == Ok::<i32, Error>(flag(*self >= *rhs)),
    {
        Ok(if *self >= *rhs { 1 } else { 0 })
    }

    fn ge_u(&self, rhs: &Self) -> (r: Result<i32>)
        ensures
            r == Ok::<i32, Error>(flag((*self as u32) >= (*rhs as u32))),
    {
        Ok(if (*self as u32) >= (*rhs as u32) { 1 } else { 0 })
    }

    fn add(&self, rhs: &Self) -> (r: Result<i32>)
        ensures
            r == Ok::<i32, Error>(self.wrapping_add(*rhs)),
    {
        Ok(self.wrapping_add(*rhs))
    }

    fn sub(&self, rhs: &Self) -> (r: Result<i32>)
        ensures
            r == Ok::<i32, Error>(self.wrapping_sub(*rhs)),
    {
        Ok(self.wrapping_sub(*rhs))
    }

    fn mul(&self, rhs: &Self) -> (r: Result<i32>)
        ensures
            r == Ok::<i32, Error>(self.wrapping_mul(*rhs)),
    {
        Ok(self.wrapping_mul(*rhs))
    }

    fn div_s(&self, rhs: &Self) -> (r: Result<i32>)
        ensures
            r == match self.checked_div(*rhs) {
                Some(v) => Ok::<i32, Error>(v),
                None => Err::<i32, Error>(Error::UndefinedBinaryOp),
            },
    {
        match self.checked_div(*rhs) {
            Some(v) => Ok(v),
            None => Err(Error::UndefinedBinaryOp),
        }
    }

    fn div_u(&self, rhs: &Self) -> (r: Result<i32>)
        ensures
            r == match (*self as u32).checked_div(*rhs as u32) {
                Some(v) => Ok::<i32, Error>(v as i32),
                None => Err::<i32, Error>(Error::UndefinedBinaryOp),
            },
    {
        match (*self as u32).checked_div(*rhs as u32) {
            Some(v) => Ok(v as i32),
            None => Err(Error::UndefinedBinaryOp),
        }
    }

    fn rem_s(&self, rhs: &Self) -> (r: Result<i32>)
        ensures
            r == match self.checked_rem(*rhs) {
                Some(v) => Ok::<i32, Error>(v),
                None => Err::<i32, Error>(Error::UndefinedBinaryOp),
            },
    {
        match self.checked_rem(*rhs) {
            Some(v) => Ok(v),
            None => Err(Error::UndefinedBinaryOp),
        }
    }

    fn rem_u(&self, rhs: &Self) -> (r: Result<i32>)
        ensures
            r == match (*self as u32).checked_rem(*rhs as u32) {
                Some(v) => Ok::<i32, Error>(v as i32),
                None => Err::<i32, Error>(Error::UndefinedBinaryOp),
            },
    {
        match (*self as u32).checked_rem(*rhs as u32) {
            Some(v) => Ok(v as i32),
            None => Err(Error::UndefinedBinaryOp),
        }
    }

    fn and(&self, rhs: &Self) -> (r: Result<i32>)
        ensures
            r == Ok::<i32, Error>(*self & *rhs),
    {
        Ok(*self & *rhs)
    }

    fn or(&self, rhs: &Self) -> (r: Result<i32>)
        ensures
            r == Ok::<i32, Error>(*self | *rhs),
    {
        Ok(*self | *rhs)
    }

    fn xor(&self, rhs: &Self) -> (r: Result<i32>)
        ensures
            r == Ok::<i32, Error>(*self ^ *rhs),
    {
        Ok(*self ^ *rhs)
    }

    fn shl(&self, rhs: &Self) -> (r: Result<i32>)
        ensures
            r == Ok::<i32, Error>(self.wrapping_shl(*rhs as u32)),
    {
        Ok(self.wrapping_shl(*rhs as u32))
    }

    fn shr_s(&self, rhs: &Self) -> (r: Result<i32>)
        ensures
            r == Ok::<i32, Error>(self.wrapping_shr(*rhs as u32)),
    {
        Ok(self.wrapping_shr(*rhs as u32))
    }

    fn shr_u(&self, rhs: &Self) -> (r: Result<i32>)
        ensures
            r == Ok::<i32, Error>((*self as u32).wrapping_shr(*rhs as u32) as i32),
    {
        Ok((*self as u32).wrapping_shr(*rhs as u32) as i32)
    }

    fn rotl(&self, rhs: &Self) -> (r: Result<i32>)
        ensures
            r == Ok::<i32, Error>(rotate_left_32(*self as u32, *rhs as u32) as i32),
    {
        let x: u32 = *self as u32;
        let n: u32 = (*rhs as u32) % 32;
        Ok(((x << n) | (x >> ((32 - n) % 32))) as i32)
    }

    fn rotr(&self, rhs: &Self) -> (r: Result<i32>)
        ensures
            r == Ok::<i32, Error>(rotate_right_32(*self as u32, *rhs as u32) as i32),
    {
        let x: u32 = *self as u32;
        let n: u32 = (*rhs as u32) % 32;
        Ok(((x >> n) | (x << ((32 - n) % 32))) as i32)
    }

}

impl IntOp for i64 {
    fn eqz(&self) -> (r: Result<i32>)
        ensures
            r == Ok::<i32, Error>(flag(*self == 0)),
    {
        Ok(if *self == 0 { 1 } else { 0 })
    }

    fn clz(&self) -> (r: Result<i64>)
        ensures
            r == Ok::<i64, Error>(u64_leading_zeros(*self as u64) as i64),
    {
        Ok((*self as u64).leading_zeros() as i64)
    }

    fn ctz(&self) -> (r: Result<i64>)
        ensures
            r == Ok::<i64, Error>(u64_trailing_zeros(*self as u64) as i64),
    {
        Ok((*self as u64).trailing_zeros() as i64)
    }

    fn popcnt(&self) -> (r: Result<i64>)
        ensures
            r == Ok::<i64, Error>(count_ones((*self as u64) as u64) as i64),
    {
        Ok(count_ones_of((*self as u64) as u64) as i64)
    }

    fn equal(&self, rhs: &Self) -> (r: Result<i32>)
        ensures
            r == Ok::<i32, Error>(flag(*self == *rhs)),
    {
        Ok(if *self == *rhs { 1 } else { 0 })
    }

    fn not_equal(&self, rhs: &Self) -> (r: Result<i32>)
        ensures
            r == Ok::<i32, Error>(flag(*self != *rhs)),
    {
        Ok(if *self != *rhs { 1 } else { 0 })
    }

    fn lt_s(&self, rhs: &Self) -> (r: Result<i32>)
        ensures
            r == Ok::<i32, Error>(flag(*self < *rhs)),
    {
        Ok(if *self < *rhs { 1 } else { 0 })
    }

    fn lt_u(&self, rhs: &Self) -> (r: Result<i32>)
        ensures
            r == Ok::<i32, Error>(flag((*self as u64) < (*rhs as u64))),
    {
        Ok(if (*self as u64) < (*rhs as u64) { 1 } else { 0 })
    }

    fn gt_s(&self, rhs: &Self) -> (r: Result<i32>)
        ensures
            r == Ok::<i32, Error>(flag(*self > *rhs)),
    {
        Ok(if *self > *rhs { 1 } else { 0 })
    }

    fn gt_u(&self, rhs: &Self) -> (r: Result<i32>)
        ensures
            r == Ok::<i32, Error>(flag((*self as u64) > (*rhs as u64))),
    {
        Ok(if (*self as u64) > (*rhs as u64) { 1 } else { 0 })
    }

    fn le_s(&self, rhs: &Self) -> (r: Result<i32>)
        ensures
            r == Ok::<i32, Error>(flag(*self <= *rhs)),
    {
        Ok(if *self <= *rhs { 1 } else { 0 })
    }

    fn le_u(&self, rhs: &Self) -> (r: Result<i32>)
        ensures
            r == Ok::<i32, Error>(flag((*self as u64) <= (*rhs as u64))),
    {
        Ok(if (*self as u64) <= (*rhs as u64) { 1 } else { 0 })
    }

    fn ge_s(&self, rhs: &Self) -> (r: Result<i32>)
        ensures
            r == Ok::<i32, Error>(flag(*self >= *rhs)),
    {
        Ok(if *self >= *rhs { 1 } else { 0 })
    }

    fn ge_u(&self, rhs: &Self) -> (r: Result<i32>)
        ensures
            r == Ok::<i32, Error>(flag((*self as u64) >= (*rhs as u64))),
    {
        Ok(if (*self as u64) >= (*rhs as u64) { 1 } else { 0 })
    }

    fn add(&self, rhs: &Self) -> (r: Result<i64>)
        ensures
            r == Ok::<i64, Error>(self.wrapping_add(*rhs)),
    {
        Ok(self.wrapping_add(*rhs))
    }

    fn sub(&self, rhs: &Self) -> (r: Result<i64>)
        ensures
            r == Ok::<i64, Error>(self.wrapping_sub(*rhs)),
    {
        Ok(self.wrapping_sub(*rhs))
    }

    fn mul(&self, rhs: &Self) -> (r: Result<i64>)
        ensures
            r == Ok::<i64, Error>(self.wrapping_mul(*rhs)),
    {
        Ok(self.wrapping_mul(*rhs))
    }

    fn div_s(&self, rhs: &Self) -> (r: Result<i64>)
        ensures
            r == match self.checked_div(*rhs) {
                Some(v) => Ok::<i64, Error>(v),
                None => Err::<i64, Error>(Error::UndefinedBinaryOp),
            },
    {
        match self.checked_div(*rhs) {
            Some(v) => Ok(v),
            None => Err(Error::UndefinedBinaryOp),
        }
    }

    fn div_u(&self, rhs: &Self) -> (r: Result<i64>)
        ensures
            r == match (*self as u64).checked_div(*rhs as u64) {
                Some(v) => Ok::<i64, Error>(v as i64),
                None => Err::<i64, Error>(Error::UndefinedBinaryOp),
            },
    {
        match (*self as u64).checked_div(*rhs as u64) {
            Some(v) => Ok(v as i64),
            None => Err(Error::UndefinedBinaryOp),
        }
    }

    fn rem_s(&self, rhs: &Self) -> (r: Result<i64>)
        ensures
            r == match self.checked_rem(*rhs) {
                Some(v) => Ok::<i64, Error>(v),
                None => Err::<i64, Error>(Error::UndefinedBinaryOp),
            },
    {
        match self.checked_rem(*rhs) {
            Some(v) => Ok(v),
            None => Err(Error::UndefinedBinaryOp),
        }
    }

    fn rem_u(&self, rhs: &Self) -> (r: Result<i64>)
        ensures
            r == match (*self as u64).checked_rem(*rhs as u64) {
                Some(v) => Ok::<i64, Error>(v as i64),
                None => Err::<i64, Error>(Error::UndefinedBinaryOp),
            },
    {
        match (*self as u64).checked_rem(*rhs as u64) {
            Some(v) => Ok(v as i64),
            None => Err(Error::UndefinedBinaryOp),
        }
    }

    fn and(&self, rhs: &Self) -> (r: Result<i64>)
        ensures
            r == Ok::<i64, Error>(*self & *rhs),
    {
        Ok(*self & *rhs)
    }

    fn or(&self, rhs: &Self) -> (r: Result<i64>)
        ensures
            r == Ok::<i64, Error>(*self | *rhs),
    {
        Ok(*self | *rhs)
    }

    fn xor(&self, rhs: &Self) -> (r: Result<i64>)
        ensures
            r == Ok::<i64, Error>(*self ^ *rhs),
    {
        Ok(*self ^ *rhs)
    }

    fn shl(&self, rhs: &Self) -> (r: Result<i64>)
        ensures
            r == Ok::<i64, Error>(self.wrapping_shl(*rhs as u32)),
    {
        Ok(self.wrapping_shl(*rhs as u32))
    }

    fn shr_s(&self, rhs: &Self) -> (r: Result<i64>)
        ensures
            r == Ok::<i64, Error>(self.wrapping_shr(*rhs as u32)),
    {
        Ok(self.wrapping_shr(*rhs as u32))
    }

    fn shr_u(&self, rhs: &Self) -> (r: Result<i64>)
        ensures
            r == Ok::<i64, Error>((*self as u64).wrapping_shr(*rhs as u32) as i64),
    {
        Ok((*self as u64).wrapping_shr(*rhs as u32) as i64)
    }

    fn rotl(&self, rhs: &Self) -> (r: Result<i64>)
        ensures
            r == Ok::<i64, Error>(rotate_left_64(*self as u64, *rhs as u32) as i64),
    {
        let x: u64 = *self as u64;
        let n: u32 = (*rhs as u32) % 64;
        Ok(((x << n) | (x >> ((64 - n) % 64))) as i64)
    }

    fn rotr(&self, rhs: &Self) -> (r: Result<i64>)
        ensures
            r == Ok::<i64, Error>(rotate_right_64(*self as u64, *rhs as u32) as i64),
    {
        let x: u64 = *self as u64;
        let n: u32 = (*rhs as u32) % 64;
        Ok(((x >> n) | (x << ((64 - n) % 64))) as i64)
    }

}

} // verus!
