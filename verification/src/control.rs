//! The control structure shared by host and device, and the host's
//! transitions on it.

use vstd::prelude::*;
use std::ops::RangeInclusive;
use crate::params::{
    ELEMENT_BIT_SIZE, ELEMENT_SIZE, ERROR_STATUS, IO_BUFFER_WORDS, ITERATION_PARAM_STEP,
    WINDOW_PARAM_STEP,
};

verus! {

/// A byte address, shown in hexadecimal where it is reported.
#[derive(Clone, Copy)]
pub struct U64HexDebug(pub u64);

impl Default for U64HexDebug {
    fn default() -> (address: U64HexDebug)
        ensures
            address.0 == 0,
    {
        U64HexDebug(0)
    }
}

/// What the status word says of a finished read pass.
#[derive(Clone, Copy, Debug, PartialEq, Eq, Structural)]
pub enum PassStatus {
    /// The status equals the iteration id: the pass ran and found nothing.
    Clean,
    /// The status is the error sentinel: some element mismatched.
    Faulty,
    /// Neither: the pass was not confirmed, and no mismatch was reported.
    Unconfirmed,
}

/// A histogram of 32 counters that is expected to be zero almost everywhere.
#[derive(Clone, Copy)]
pub struct MostlyZeroArr(pub [u32; ELEMENT_BIT_SIZE]);

impl View for MostlyZeroArr {
    type V = Seq<u32>;

    open spec fn view(&self) -> Seq<u32> {
        self.0@
    }
}

impl MostlyZeroArr {
    /// A histogram with every counter at zero.
    pub fn zeroed() -> (arr: MostlyZeroArr)
        ensures
            arr@ == zero_counters(),
    {
        let arr = MostlyZeroArr([0u32;ELEMENT_BIT_SIZE]);
        assert(arr@ =~= zero_counters());
        arr
    }
}

impl Default for MostlyZeroArr {
    fn default() -> (arr: MostlyZeroArr)
        ensures
            arr@ == zero_counters(),
    {
        MostlyZeroArr::zeroed()
    }
}

/// Thirty-two counters, all zero.
pub open spec fn zero_counters() -> Seq<u32> {
    Seq::new(32, |i: int| 0u32)
}

/// The seed of an iteration before any window term is added.
pub open spec fn iteration_param(iteration: u32) -> u32 {
    ((iteration * ITERATION_PARAM_STEP) % 0x1_0000_0000) as u32
}

/// What window `window_index` adds to the seed: the index times the window
/// step, modulo 2^32.
pub open spec fn window_term(window_index: u64) -> u32 {
    ((window_index * WINDOW_PARAM_STEP) % 0x1_0000_0000) as u32
}

/// A seed after the term of window `window_index` was added to it, modulo 2^32.
pub open spec fn with_window_term(param: u32, window_index: u64) -> u32 {
    ((param + window_term(window_index)) % 0x1_0000_0000) as u32
}

/// The seed of a sweep after the terms of its first `windows` windows were
/// added, one after another, to the seed `base` that the sweep began with.
/// The dispatch over window `k` runs with `seed_after(base, k + 1)`.
pub open spec fn seed_after(base: u32, windows: nat) -> u32
    decreases windows,
{
    if windows == 0 {
        base
    } else {
        with_window_term(seed_after(base, (windows - 1) as nat), (windows - 1) as u64)
    }
}

/// The control structure as a mathematical value.
pub struct ControlView {
    pub single_bit_err_idx: Seq<u32>,
    pub err_bits_count: Seq<u32>,
    pub max_bad_idx: u32,
    pub min_bad_idx: u32,
    pub write_do: u32,
    pub read_do: u32,
    pub iteration: u32,
    pub done_iter_or_status: u32,
    pub value_calc_param: u32,
}

impl ControlView {
    /// Both histograms hold 32 counters.
    pub open spec fn wf(self) -> bool {
        self.single_bit_err_idx.len() == 32 && self.err_bits_count.len() == 32
    }

    /// No mismatch has been recorded: counters are zero and the index bounds
    /// are at their sentinels, so that `min_bad_idx > max_bad_idx`.
    pub open spec fn errors_clear(self) -> bool {
        &&& self.single_bit_err_idx == zero_counters()
        &&& self.err_bits_count == zero_counters()
        &&& self.max_bad_idx == 0
        &&& self.min_bad_idx == u32::MAX
    }

    /// The same structure with the error aggregates and the status reset.
    pub open spec fn with_errors_reset(self) -> ControlView {
        ControlView {
            single_bit_err_idx: zero_counters(),
            err_bits_count: zero_counters(),
            max_bad_idx: 0,
            min_bad_idx: u32::MAX,
            done_iter_or_status: 0,
            ..self
        }
    }

    /// The structure in its fixed layout: the two histograms, then the seven
    /// scalar fields, each a 32-bit word, 71 words in all.
    pub open spec fn words(self) -> Seq<u32> {
        self.single_bit_err_idx + self.err_bits_count + seq![
            self.max_bad_idx,
            self.min_bad_idx,
            self.write_do,
            self.read_do,
            self.iteration,
            self.done_iter_or_status,
            self.value_calc_param,
        ]
    }

    /// The structure that 71 words in the fixed layout stand for.
    pub open spec fn from_words(words: Seq<u32>) -> ControlView {
        ControlView {
            single_bit_err_idx: words.subrange(0, 32),
            err_bits_count: words.subrange(32, 64),
            max_bad_idx: words[64],
            min_bad_idx: words[65],
            write_do: words[66],
            read_do: words[67],
            iteration: words[68],
            done_iter_or_status: words[69],
            value_calc_param: words[70],
        }
    }

    /// The reading of the status word: a status equal to the iteration id
    /// confirms a clean pass, the error sentinel reports a fault, and any
    /// other value leaves the pass unconfirmed.
    pub open spec fn pass_status(self) -> PassStatus {
        if self.done_iter_or_status == self.iteration {
            PassStatus::Clean
        } else if self.done_iter_or_status == ERROR_STATUS {
            PassStatus::Faulty
        } else {
            PassStatus::Unconfirmed
        }
    }

    /// Address of the first byte of the lowest mismatching element, in a
    /// window that starts at byte `buf_offset`.
    pub open spec fn first_bad_address(self, buf_offset: u64) -> int {
        buf_offset + self.min_bad_idx * ELEMENT_SIZE
    }

    /// Address of the last byte of the highest mismatching element.
    pub open spec fn last_bad_address(self, buf_offset: u64) -> int {
        buf_offset + self.max_bad_idx * ELEMENT_SIZE + ELEMENT_SIZE - 1
    }

    /// Both ends of the reported address range are 64-bit addresses.
    pub open spec fn addresses_fit(self, buf_offset: u64) -> bool {
        self.first_bad_address(buf_offset) <= u64::MAX && self.last_bad_address(buf_offset)
            <= u64::MAX
    }

    /// The structure as the host writes it before the write sweep of `iteration`.
    pub open spec fn for_write_sweep(iteration: u32) -> ControlView {
        ControlView {
            single_bit_err_idx: zero_counters(),
            err_bits_count: zero_counters(),
            max_bad_idx: 0,
            min_bad_idx: u32::MAX,
            write_do: 1,
            read_do: 0,
            iteration,
            done_iter_or_status: 0,
            value_calc_param: iteration_param(iteration),
        }
    }
}

/// The record that host and device exchange: mode flags, iteration id, seed
/// and the aggregated error statistics of the last dispatch.
#[derive(Clone, Copy)]
pub struct IOBuffer {
    pub single_bit_err_idx: MostlyZeroArr,
    pub err_bits_count: MostlyZeroArr,
    pub max_bad_idx: u32,
    pub min_bad_idx: u32,
    pub write_do: u32,
    pub read_do: u32,
    pub iteration: u32,
    pub done_iter_or_status: u32,
    pub value_calc_param: u32,
}

impl View for IOBuffer {
    type V = ControlView;

    open spec fn view(&self) -> ControlView {
        ControlView {
            single_bit_err_idx: self.single_bit_err_idx@,
            err_bits_count: self.err_bits_count@,
            max_bad_idx: self.max_bad_idx,
            min_bad_idx: self.min_bad_idx,
            write_do: self.write_do,
            read_do: self.read_do,
            iteration: self.iteration,
            done_iter_or_status: self.done_iter_or_status,
            value_calc_param: self.value_calc_param,
        }
    }
}

impl Default for IOBuffer {
    /// The structure as created: every field zero.
    fn default() -> (io: IOBuffer)
        ensures
            io@ == (ControlView {
                single_bit_err_idx: zero_counters(),
                err_bits_count: zero_counters(),
                max_bad_idx: 0,
                min_bad_idx: 0,
                write_do: 0,
                read_do: 0,
                iteration: 0,
                done_iter_or_status: 0,
                value_calc_param: 0,
            }),
    {
        IOBuffer {
            single_bit_err_idx: MostlyZeroArr::zeroed(),
            err_bits_count: MostlyZeroArr::zeroed(),
            max_bad_idx: 0,
            min_bad_idx: 0,
            write_do: 0,
            read_do: 0,
            iteration: 0,
            done_iter_or_status: 0,
            value_calc_param: 0,
        }
    }
}

impl IOBuffer {
    /// Starts the next iteration in write mode: the iteration id goes up by
    /// one, the seed follows it, and everything else is reset.
    pub fn prepare_next_iter_write(&mut self)
        requires
            old(self).iteration < u32::MAX,
        ensures
            final(self)@ == ControlView::for_write_sweep((old(self).iteration + 1) as u32),
    {
        let iteration: u32 = self.iteration + 1;
        *self = IOBuffer {
            single_bit_err_idx: MostlyZeroArr::zeroed(),
            err_bits_count: MostlyZeroArr::zeroed(),
            max_bad_idx: u32::MIN,
            min_bad_idx: u32::MAX,
            write_do: 1,
            read_do: 0,
            iteration,
            done_iter_or_status: 0,
            value_calc_param: 0,
        };
        self.set_calc_param_for_starting_window();
    }

    /// Switches the current iteration from writing to reading, with the seed
    /// back at the iteration's base. The aggregates are left as they are.
    pub fn continue_iter_read(&mut self, read_do: u32)
        ensures
            final(self)@ == (ControlView {
                write_do: 0,
                read_do,
                value_calc_param: iteration_param(old(self).iteration),
                ..old(self)@
            }),
    {
        self.write_do = 0;
        self.read_do = read_do;
        self.set_calc_param_for_starting_window();
    }

    /// Sets the seed to the base seed of the current iteration.
    pub fn set_calc_param_for_starting_window(&mut self)
        ensures
            final(self)@ == (ControlView {
                value_calc_param: iteration_param(old(self).iteration),
                ..old(self)@
            }),
    {
        self.value_calc_param = self.iteration.wrapping_mul(ITERATION_PARAM_STEP);
    }

    /// Resets the error aggregates and the status before a window is read;
    /// mode flags, iteration and seed are kept.
    pub fn reset_errors(&mut self)
        ensures
            final(self)@ == old(self)@.with_errors_reset(),
    {
        *self = IOBuffer {
            single_bit_err_idx: MostlyZeroArr::zeroed(),
            err_bits_count: MostlyZeroArr::zeroed(),
            max_bad_idx: u32::MIN,
            min_bad_idx: u32::MAX,
            write_do: self.write_do,
            read_do: self.read_do,
            iteration: self.iteration,
            done_iter_or_status: 0,
            value_calc_param: self.value_calc_param,
        };
    }

    /// Reads the status word of a finished read pass.
    pub fn pass_status(&self) -> (status: PassStatus)
        ensures
            status == self@.pass_status(),
    {
        if self.done_iter_or_status == self.iteration {
            PassStatus::Clean
        } else if self.done_iter_or_status == ERROR_STATUS {
            PassStatus::Faulty
        } else {
            PassStatus::Unconfirmed
        }
    }

    /// Tells whether the address range of `get_error_addresses` can be
    /// formed for a window at `buf_offset` without leaving 64 bits.
    pub fn error_addresses_fit(&self, buf_offset: u64) -> (fit: bool)
        ensures
            fit == self@.addresses_fit(buf_offset),
    {
        let first: u64 = self.min_bad_idx as u64 * ELEMENT_SIZE;
        let last: u64 = self.max_bad_idx as u64 * ELEMENT_SIZE + (ELEMENT_SIZE - 1);
        first <= u64::MAX - buf_offset && last <= u64::MAX - buf_offset
    }

    /// The byte addresses that a read pass over the window at `buf_offset`
    /// found faulty: none where the pass is confirmed clean, otherwise the
    /// inclusive range from the lowest to the highest mismatching element.
    pub fn get_error_addresses(&self, buf_offset: u64) -> (range: Option<
        RangeInclusive<U64HexDebug>,
    >)
        requires
            self.done_iter_or_status != self.iteration ==> self@.addresses_fit(buf_offset),
        ensures
            self.done_iter_or_status == self.iteration ==> range is None,
            self.done_iter_or_status != self.iteration ==> range is Some && {
                let r = range->Some_0@;
                &&& r.start.0 == self@.first_bad_address(buf_offset)
                &&& r.end.0 == self@.last_bad_address(buf_offset)
                &&& !r.exhausted
            },
    {
        if self.done_iter_or_status == self.iteration {
            None
        } else {
            Some(
                RangeInclusive::<U64HexDebug>::new(
                    U64HexDebug(buf_offset + self.min_bad_idx as u64 * ELEMENT_SIZE),
                    U64HexDebug(
                        buf_offset + self.max_bad_idx as u64 * ELEMENT_SIZE + (ELEMENT_SIZE - 1),
                    ),
                ),
            )
        }
    }

    /// Adds the term of window `window_index` to the seed; nothing else changes.
    pub fn add_window_term(&mut self, window_index: u64)
        ensures
            final(self)@ == (ControlView {
                value_calc_param: with_window_term(old(self).value_calc_param, window_index),
                ..old(self)@
            }),
    {
        let low: u32 = (window_index % 0x1_0000_0000) as u32;
        let term: u32 = low.wrapping_mul(WINDOW_PARAM_STEP);
        proof {
            vstd::arithmetic::div_mod::lemma_mul_mod_noop_left(
                window_index as int,
                WINDOW_PARAM_STEP as int,
                0x1_0000_0000,
            );
        }
        self.value_calc_param = self.value_calc_param.wrapping_add(term);
    }

    /// Lays the structure out as the 71 words that host and device agree on.
    pub fn to_words(&self) -> (words: [u32; IO_BUFFER_WORDS])
        ensures
            words@ == self@.words(),
    {
        let mut words: [u32; IO_BUFFER_WORDS] = [0u32;IO_BUFFER_WORDS];
        let mut slot: usize = 0;
        while slot < ELEMENT_BIT_SIZE
            invariant
                slot <= 32,
                forall|i: int| 0 <= i < slot ==> words@[i] == self.single_bit_err_idx@[i],
                forall|i: int| 0 <= i < slot ==> words@[32 + i] == self.err_bits_count@[i],
            decreases 32 - slot,
        {
            words[slot] = self.single_bit_err_idx.0[slot];
            words[ELEMENT_BIT_SIZE + slot] = self.err_bits_count.0[slot];
            slot = slot + 1;
        }
        words[64] = self.max_bad_idx;
        words[65] = self.min_bad_idx;
        words[66] = self.write_do;
        words[67] = self.read_do;
        words[68] = self.iteration;
        words[69] = self.done_iter_or_status;
        words[70] = self.value_calc_param;
        assert(words@ =~= self@.words());
        words
    }

    /// Reads the structure back from its 71 words.
    pub fn from_words(words: &[u32; IO_BUFFER_WORDS]) -> (io: IOBuffer)
        ensures
            io@ == ControlView::from_words(words@),
    {
        let mut single_bit_err_idx: [u32; ELEMENT_BIT_SIZE] = [0u32;ELEMENT_BIT_SIZE];
        let mut err_bits_count: [u32; ELEMENT_BIT_SIZE] = [0u32;ELEMENT_BIT_SIZE];
        let mut slot: usize = 0;
        while slot < ELEMENT_BIT_SIZE
            invariant
                slot <= 32,
                forall|i: int| 0 <= i < slot ==> single_bit_err_idx@[i] == words@[i],
                forall|i: int| 0 <= i < slot ==> err_bits_count@[i] == words@[32 + i],
            decreases 32 - slot,
        {
            single_bit_err_idx[slot] = words[slot];
            err_bits_count[slot] = words[ELEMENT_BIT_SIZE + slot];
            slot = slot + 1;
        }
        let io = IOBuffer {
            single_bit_err_idx: MostlyZeroArr(single_bit_err_idx),
            err_bits_count: MostlyZeroArr(err_bits_count),
            max_bad_idx: words[64],
            min_bad_idx: words[65],
            write_do: words[66],
            read_do: words[67],
            iteration: words[68],
            done_iter_or_status: words[69],
            value_calc_param: words[70],
        };
        assert(io@.single_bit_err_idx =~= words@.subrange(0, 32));
        assert(io@.err_bits_count =~= words@.subrange(32, 64));
        io
    }
}

/// The fixed layout loses nothing: a structure laid out in words and read
/// back is the same structure, and 71 words read and laid out again are the
/// same words.
pub proof fn lemma_words_round_trip(c: ControlView, words: Seq<u32>)
    requires
        c.wf(),
        words.len() == 71,
    ensures
        c.words().len() == 71,
        ControlView::from_words(c.words()) == c,
        ControlView::from_words(words).wf(),
        ControlView::from_words(words).words() == words,
{
    let back = ControlView::from_words(c.words());
    assert(back.single_bit_err_idx =~= c.single_bit_err_idx);
    assert(back.err_bits_count =~= c.err_bits_count);
    assert(ControlView::from_words(words).words() =~= words);
}

/// Sum of the window indices below `windows`: `0 + 1 + .. + (windows - 1)`.
pub open spec fn index_sum(windows: nat) -> nat
    decreases windows,
{
    if windows == 0 {
        0
    } else {
        index_sum((windows - 1) as nat) + (windows - 1) as nat
    }
}

/// The window terms accumulate: after `windows` windows the seed is the
/// base plus the window step times the sum of their indices, modulo 2^32,
/// and that sum is `windows * (windows - 1) / 2`.
pub proof fn lemma_seed_closed_form(base: u32, windows: nat)
    requires
        windows <= 0x1_0000_0000_0000_0000,
    ensures
        seed_after(base, windows) == (base + WINDOW_PARAM_STEP * index_sum(windows))
            % 0x1_0000_0000,
        2 * index_sum(windows) == windows * (windows - 1),
    decreases windows,
{
    if windows > 0 {
        let n = (windows - 1) as nat;
        lemma_seed_closed_form(base, n);
        let k = WINDOW_PARAM_STEP as int;
        let m = 0x1_0000_0000int;
        let a = base + k * index_sum(n);
        let b = (n as u64) * k;
        assert(n as u64 == n);
        assert(seed_after(base, windows) == ((a % m) + (b % m)) % m);
        vstd::arithmetic::div_mod::lemma_add_mod_noop(a, b, m);
        assert(a + b == base + k * index_sum(windows)) by (nonlinear_arith)
            requires
                a == base + k * index_sum(n),
                b == n * k,
                index_sum(windows) == index_sum(n) + n,
        ;
        assert(2 * index_sum(windows) == windows * (windows - 1)) by (nonlinear_arith)
            requires
                2 * index_sum(n) == n * (n - 1),
                index_sum(windows) == index_sum(n) + n,
                windows == n + 1,
        ;
    }
}

/// No window but one whose index is a multiple of 2^32 leaves the seed as
/// it was: its term is not zero, since the window step is odd. So windows
/// that follow each other in a sweep never run with the same seed.
pub proof fn lemma_window_term_moves_seed(param: u32, window_index: u64)
    requires
        window_index % 0x1_0000_0000 != 0,
    ensures
        window_term(window_index) != 0,
        with_window_term(param, window_index) != param,
{
    let low = (window_index % 0x1_0000_0000) as u32;
    vstd::arithmetic::div_mod::lemma_mul_mod_noop_left(
        window_index as int,
        WINDOW_PARAM_STEP as int,
        0x1_0000_0000,
    );
    assert((low * 0x81u32) % 0x1_0000_0000 != 0) by (bit_vector)
        requires
            low != 0,
    ;
}

/// Every control structure in memory holds two histograms of 32 counters.
pub proof fn lemma_io_buffer_wf(io: IOBuffer)
    ensures
        io@.wf(),
{
}

} // verus!
