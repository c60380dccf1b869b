//! Fixed parameters of the protocol, shared by host and kernel.

use vstd::prelude::*;

verus! {

/// Invocations per workgroup of the kernel.
pub const WG_SIZE: u64 = 128;

/// Bytes per test element.
pub const ELEMENT_SIZE: u64 = 4;

/// Bits per test element, which is also the length of each error histogram.
pub const ELEMENT_BIT_SIZE: usize = 32;

/// Window sizes are multiples of one workgroup's worth of bytes.
pub const TEST_WINDOW_SIZE_GRANULARITY: u64 = 512;

/// Largest byte range one dispatch may address: 2 GiB less one granule.
pub const TEST_WINDOW_MAX_SIZE: u64 = 0x7FFF_FE00;

/// Value of `done_iter_or_status` once any element of a window mismatched.
pub const ERROR_STATUS: u32 = 0xFFFF_FFFF;

/// Pattern value whose element confirms that a read pass ran.
pub const ITER_CONFIRMATION_VALUE: u32 = 0xFF_FFFF;

/// Seed distance between consecutive iterations.
pub const ITERATION_PARAM_STEP: u32 = 0x100_0100;

/// Seed distance contributed by each window index.
pub const WINDOW_PARAM_STEP: u32 = 0x81;

/// Number of 32-bit words in the control structure's fixed layout.
pub const IO_BUFFER_WORDS: usize = 71;

/// The parameters agree with each other.
pub proof fn lemma_params_consistent()
    ensures
        TEST_WINDOW_SIZE_GRANULARITY == WG_SIZE * ELEMENT_SIZE,
        TEST_WINDOW_MAX_SIZE == 2 * 1024 * 1024 * 1024 - WG_SIZE * ELEMENT_SIZE,
        ELEMENT_BIT_SIZE == ELEMENT_SIZE * 8,
        IO_BUFFER_WORDS == 2 * ELEMENT_BIT_SIZE + 7,
{
}

} // verus!
