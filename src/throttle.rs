//! The throttling status word that `get_throttled` reports, and its decoding.
use vstd::prelude::*;

verus! {

/// What the `get_throttled` status word says, one flag per meaningful bit.
#[derive(Debug, Default, Clone, Copy, PartialEq, Eq, PartialOrd)]
pub struct ThrottledStatus {
    pub arm_frequency_cap_occurred: bool,
    pub arm_frequency_capped: bool,
    pub currently_throttled: bool,
    pub soft_temp_limit_active: bool,
    pub soft_temp_limit_occurred: bool,
    pub throttling_occurred: bool,
    pub under_voltage: bool,
    pub under_voltage_occurred: bool,
}

/// Whether bit `position` (0 is the least significant) of `pattern` is set.
pub open spec fn bit_set(pattern: isize, position: u32) -> bool {
    (pattern >> position) & 1 == 1
}

/// The status that the word `pattern` encodes.
pub open spec fn status_of(pattern: isize) -> ThrottledStatus {
    ThrottledStatus {
        under_voltage: bit_set(pattern, 0),
        arm_frequency_capped: bit_set(pattern, 1),
        currently_throttled: bit_set(pattern, 2),
        soft_temp_limit_active: bit_set(pattern, 3),
        under_voltage_occurred: bit_set(pattern, 16),
        throttling_occurred: bit_set(pattern, 17),
        arm_frequency_cap_occurred: bit_set(pattern, 18),
        soft_temp_limit_occurred: bit_set(pattern, 19),
    }
}

impl ThrottledStatus {
    /// The status that `bit_pattern` encodes.
    pub fn new(bit_pattern: isize) -> (r: ThrottledStatus)
        ensures
            r == status_of(bit_pattern),
    {
        interpret_bit_pattern(bit_pattern)
    }
}

/// Decodes the word returned by `get_throttled`; every other bit is ignored.
pub fn interpret_bit_pattern(pattern: isize) -> (r: ThrottledStatus)
    ensures
        r == status_of(pattern),
{
    ThrottledStatus {
        under_voltage: (pattern >> 0u32) & 1 == 1,
        arm_frequency_capped: (pattern >> 1u32) & 1 == 1,
        currently_throttled: (pattern >> 2u32) & 1 == 1,
        soft_temp_limit_active: (pattern >> 3u32) & 1 == 1,
        under_voltage_occurred: (pattern >> 16u32) & 1 == 1,
        throttling_occurred: (pattern >> 17u32) & 1 == 1,
        arm_frequency_cap_occurred: (pattern >> 18u32) & 1 == 1,
        soft_temp_limit_occurred: (pattern >> 19u32) & 1 == 1,
    }
}

/// The status in which only the flag of bit `position` is raised.
pub open spec fn single_flag_status(position: u32) -> ThrottledStatus {
    ThrottledStatus {
        under_voltage: position == 0,
        arm_frequency_capped: position == 1,
        currently_throttled: position == 2,
        soft_temp_limit_active: position == 3,
        under_voltage_occurred: position == 16,
        throttling_occurred: position == 17,
        arm_frequency_cap_occurred: position == 18,
        soft_temp_limit_occurred: position == 19,
    }
}

/// A word with one meaningful bit set decodes to the status with exactly the
/// matching flag raised.
pub proof fn lemma_single_bit_decodes_to_single_flag(position: u32)
    requires
        position == 0 || position == 1 || position == 2 || position == 3 || position == 16
            || position == 17 || position == 18 || position == 19,
    ensures
        status_of(1isize << position) == single_flag_status(position),
{
    let p = 1isize << position;
    assert(bit_set(p, 0) == (position == 0) && bit_set(p, 1) == (position == 1) && bit_set(p, 2)
        == (position == 2) && bit_set(p, 3) == (position == 3) && bit_set(p, 16) == (position
        == 16) && bit_set(p, 17) == (position == 17) && bit_set(p, 18) == (position == 18)
        && bit_set(p, 19) == (position == 19)) by (bit_vector)
        requires
            p == 1isize << position,
            position < 20,
    ;
}

/// Bits other than the eight meaningful ones do not change the decoded status.
pub proof fn lemma_reserved_bits_ignored(a: isize, b: isize)
    requires
        a & 0xf000f == b & 0xf000f,
    ensures
        status_of(a) == status_of(b),
{
    assert(bit_set(a, 0) == bit_set(b, 0) && bit_set(a, 1) == bit_set(b, 1) && bit_set(a, 2)
        == bit_set(b, 2) && bit_set(a, 3) == bit_set(b, 3) && bit_set(a, 16) == bit_set(b, 16)
        && bit_set(a, 17) == bit_set(b, 17) && bit_set(a, 18) == bit_set(b, 18) && bit_set(a, 19)
        == bit_set(b, 19)) by (bit_vector)
        requires
            a & 0xf000f == b & 0xf000f,
    ;
}

} // verus!
