use vstd::prelude::*;
use vstd::arithmetic::power2::{lemma2_to64, pow2};
use crate::error::CommonError;

verus! {

/// The number of bits that an alignment flag holds.
pub const FLAG_BITS: usize = 12;

/// The weight of bit `p` of a flag, counted from 1 at the least significant end.
pub open spec fn bit_weight(p: int) -> int {
    if p <= 1 {
        1
    } else if p == 2 {
        2
    } else if p == 3 {
        4
    } else if p == 4 {
        8
    } else if p == 5 {
        16
    } else if p == 6 {
        32
    } else if p == 7 {
        64
    } else if p == 8 {
        128
    } else if p == 9 {
        256
    } else if p == 10 {
        512
    } else if p == 11 {
        1024
    } else {
        2048
    }
}

/// Whether bit `p`, counted from 1 at the least significant end, is set in
/// the two's-complement form of `n`.
pub open spec fn is_bit_set(n: i32, p: int) -> bool {
    (n as int / bit_weight(p)) % 2 == 1
}

/// What [`interpret`] returns: the bit for a position from 1 to 12, and a
/// failure for any other position.
pub open spec fn interpret_spec(n: i32, p: usize) -> Result<bool, CommonError> {
    if 1 <= p <= FLAG_BITS {
        Ok(is_bit_set(n, p as int))
    } else {
        Err(CommonError::InvalidBitPosition)
    }
}

/// The weight of bit `p` is two to the power of `p - 1`.
pub proof fn lemma_bit_weight_is_power(p: int)
    requires
        1 <= p <= FLAG_BITS,
    ensures
        bit_weight(p) == pow2((p - 1) as nat),
{
    lemma2_to64();
}

/// The weight of bit `p` of a flag.
fn weight_of(p: usize) -> (weight: i64)
    requires
        1 <= p <= FLAG_BITS,
    ensures
        weight == bit_weight(p as int),
{
    if p == 1 {
        1
    } else if p == 2 {
        2
    } else if p == 3 {
        4
    } else if p == 4 {
        8
    } else if p == 5 {
        16
    } else if p == 6 {
        32
    } else if p == 7 {
        64
    } else if p == 8 {
        128
    } else if p == 9 {
        256
    } else if p == 10 {
        512
    } else if p == 11 {
        1024
    } else {
        2048
    }
}

/// Whether bit `p` of the flag `n` is set, for a position from 1 to 12.
pub fn is_set(n: i32, p: usize) -> (set: bool)
    requires
        1 <= p <= FLAG_BITS,
    ensures
        set == is_bit_set(n, p as int),
{
    let weight = weight_of(p);
    // 2^32 is a multiple of twice every weight, so adding it keeps each bit
    // and makes the number positive.
    let shifted: i64 = n as i64 + 0x1_0000_0000;
    (shifted / weight) % 2 == 1
}

/// Decodes one bit of an alignment flag. Positions are counted from 1:
///
/// 1. read paired
/// 2. read mapped in proper pair
/// 3. read unmapped
/// 4. mate unmapped
/// 5. read on the reverse strand
/// 6. mate on the reverse strand
/// 7. first in pair
/// 8. second in pair
/// 9. not the primary alignment
/// 10. read fails quality checks
/// 11. read is a PCR or optical duplicate
/// 12. supplementary alignment
pub fn interpret(n: i32, p: usize) -> (bit: Result<bool, CommonError>)
    ensures
        bit == interpret_spec(n, p),
{
    if 1 <= p && p <= FLAG_BITS {
        Ok(is_set(n, p))
    } else {
        Err(CommonError::InvalidBitPosition)
    }
}

/// Records that carry an alignment flag.
pub trait SamFlag {
    /// The flag of the record.
    spec fn flag(&self) -> i32;

    /// The flag of the record.
    fn get_flag(&self) -> (flag: i32)
        ensures
            flag == self.flag(),
    ;

    /// Decodes one bit of the record's flag, as [`interpret`] does.
    fn interpret(&self, p: usize) -> (bit: Result<bool, CommonError>)
        ensures
            bit == interpret_spec(self.flag(), p),
    {
        interpret(self.get_flag(), p)
    }
}

} // verus!
