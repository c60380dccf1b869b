//! The test pattern: a 32-bit value for each element index and seed.

use vstd::prelude::*;
use crate::params::ITER_CONFIRMATION_VALUE;

verus! {

/// The pattern value of element `index` under seed `param`: their sum modulo 2^32.
pub open spec fn expected_value(index: u32, param: u32) -> u32 {
    ((index + param) % 0x1_0000_0000) as u32
}

/// The element index at which seed `param` gives the pattern value `value`:
/// their difference modulo 2^32.
pub open spec fn index_of_value(value: u32, param: u32) -> u32 {
    ((value - param) % 0x1_0000_0000) as u32
}

/// The element index whose pattern value under `param` is the confirmation
/// value.
pub open spec fn confirmation_index(param: u32) -> u32 {
    index_of_value(ITER_CONFIRMATION_VALUE, param)
}

/// Computes the pattern value that the kernel writes to, and expects at,
/// element `index`.
pub fn test_value_by_index(index: u32, param: u32) -> (value: u32)
    ensures
        value == expected_value(index, param),
{
    index.wrapping_add(param)
}

/// Computes the element index that holds `value` under seed `param`.
pub fn index_by_test_value(value: u32, param: u32) -> (index: u32)
    ensures
        index == index_of_value(value, param),
{
    value.wrapping_sub(param)
}

/// Computes the element index that confirms a read pass under seed `param`.
pub fn confirmation_index_of(param: u32) -> (index: u32)
    ensures
        index == confirmation_index(param),
        expected_value(index, param) == ITER_CONFIRMATION_VALUE,
{
    proof {
        lemma_pattern_inverse(ITER_CONFIRMATION_VALUE, param);
    }
    index_by_test_value(ITER_CONFIRMATION_VALUE, param)
}

/// The pattern is invertible: taking the seed away from a pattern value,
/// modulo 2^32, gives the element index back.
pub proof fn lemma_pattern_invertible(index: u32, param: u32)
    ensures
        (expected_value(index, param) - param) % 0x1_0000_0000 == (index as int) % 0x1_0000_0000,
        index_of_value(expected_value(index, param), param) == index,
{
}

/// Every value is the pattern value of exactly the index that
/// `index_of_value` names.
pub proof fn lemma_pattern_inverse(value: u32, param: u32)
    ensures
        expected_value(index_of_value(value, param), param) == value,
        forall|index: u32| expected_value(index, param) == value ==> index == index_of_value(
            value,
            param,
        ),
{
}

/// Under one seed, different elements hold different pattern values.
pub proof fn lemma_pattern_injective(first: u32, second: u32, param: u32)
    requires
        expected_value(first, param) == expected_value(second, param),
    ensures
        first == second,
{
}

} // verus!
