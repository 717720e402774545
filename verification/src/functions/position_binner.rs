use vstd::prelude::*;
use crate::config::{Config, BIN_SIZE};

verus! {

/// The remainder of `a` by a positive `b` that has the sign of `a`.
pub open spec fn truncated_remainder(a: int, b: int) -> int {
    if a >= 0 {
        a % b
    } else {
        -((-a) % b)
    }
}

/// The start of the bin of width `bin_size` that holds `position`: the
/// multiple of `bin_size` that is nearest to `position` on the side of zero.
pub open spec fn bin_spec(position: int, bin_size: int) -> int {
    position - truncated_remainder(position, bin_size)
}

/// A bin starts at a multiple of its width, at most one width away from the
/// position and never further from zero than the position is.
pub proof fn lemma_bin_bounds(position: int, bin_size: int)
    requires
        bin_size > 0,
    ensures
        bin_spec(position, bin_size) % bin_size == 0,
        position >= 0 ==> bin_spec(position, bin_size) <= position < bin_spec(position, bin_size)
            + bin_size,
        position < 0 ==> position <= bin_spec(position, bin_size) < position + bin_size,
{
    let magnitude = if position >= 0 { position } else { -position };
    vstd::arithmetic::div_mod::lemma_fundamental_div_mod(magnitude, bin_size);
    vstd::arithmetic::div_mod::lemma_mod_bound(magnitude, bin_size);
    let quotient = magnitude / bin_size;
    if position >= 0 {
        assert(bin_spec(position, bin_size) == bin_size * quotient);
        vstd::arithmetic::div_mod::lemma_mod_multiples_basic(quotient, bin_size);
        assert(bin_size * quotient == quotient * bin_size) by (nonlinear_arith);
    } else {
        assert(bin_spec(position, bin_size) == bin_size * (-quotient)) by (nonlinear_arith)
            requires
                bin_spec(position, bin_size) == -(bin_size * quotient),
        ;
        vstd::arithmetic::div_mod::lemma_mod_multiples_basic(-quotient, bin_size);
        assert(bin_size * (-quotient) == (-quotient) * bin_size) by (nonlinear_arith);
    }
}

/// Bins a position with the thresholds of `config`.
pub fn bin_with(position: i32, config: &Config) -> (binned: i32)
    requires
        config.well_formed(),
    ensures
        binned == bin_spec(position as int, config.bin_size as int),
{
    let remainder = position % config.bin_size;
    position - remainder
}

/// Bins a position with the standard bin width.
pub fn bin(position: i32) -> (binned: i32)
    ensures
        binned == bin_spec(position as int, BIN_SIZE as int),
{
    let remainder = position % BIN_SIZE;
    position - remainder
}

/// Records that sit at a position of a reference.
pub trait Anchor {
    /// The position of the record.
    spec fn position(&self) -> i32;

    /// The position of the record.
    fn get_position(&self) -> (position: i32)
        ensures
            position == self.position(),
    ;

    /// The start of the bin that holds the record, at the standard bin width.
    fn bin(&self) -> (binned: i32)
        ensures
            binned == bin_spec(self.position() as int, BIN_SIZE as int),
    {
        bin(self.get_position())
    }
}

} // verus!
