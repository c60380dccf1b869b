//! The verification kernel: what one invocation does to the test buffer and
//! to the control structure, and what a whole dispatch leaves behind.

use vstd::prelude::*;
use crate::bits::{
    count_one_bits, first_leading_bit, highest_set_bit, lemma_bit_bounds_u32, popcount,
};
use crate::control::{ControlView, IOBuffer};
use crate::params::{ERROR_STATUS, ITER_CONFIRMATION_VALUE};
use crate::pattern::{
    confirmation_index, expected_value, lemma_pattern_inverse, test_value_by_index,
};

verus! {

/// A counter after one atomic increment, which wraps at 2^32.
pub open spec fn incremented(counter: u32) -> u32 {
    if counter == u32::MAX {
        0
    } else {
        (counter + 1) as u32
    }
}

/// A histogram after the counter at `slot` was incremented.
pub open spec fn bumped(counters: Seq<u32>, slot: int) -> Seq<u32> {
    if 0 <= slot < counters.len() {
        counters.update(slot, incremented(counters[slot]))
    } else {
        counters
    }
}

/// The larger of two words.
pub open spec fn max_u32(a: u32, b: u32) -> u32 {
    if a >= b {
        a
    } else {
        b
    }
}

/// The smaller of two words.
pub open spec fn min_u32(a: u32, b: u32) -> u32 {
    if a <= b {
        a
    } else {
        b
    }
}

/// The control structure after a mismatch at element `index` whose differing
/// bits are `mask`.
pub open spec fn record_mismatch(c: ControlView, index: u32, mask: u32) -> ControlView {
    ControlView {
        single_bit_err_idx: if popcount(mask) == 1 {
            bumped(c.single_bit_err_idx, highest_set_bit(mask) as int)
        } else {
            c.single_bit_err_idx
        },
        err_bits_count: bumped(c.err_bits_count, (popcount(mask) % 32) as int),
        max_bad_idx: max_u32(c.max_bad_idx, index),
        min_bad_idx: min_u32(c.min_bad_idx, index),
        done_iter_or_status: max_u32(c.done_iter_or_status, ERROR_STATUS),
        ..c
    }
}

/// The control structure after the invocation whose expected value is
/// `expected` had its chance to confirm the pass.
pub open spec fn confirm_pass(c: ControlView, expected: u32) -> ControlView {
    if expected == ITER_CONFIRMATION_VALUE {
        ControlView { done_iter_or_status: max_u32(c.done_iter_or_status, c.iteration), ..c }
    } else {
        c
    }
}

/// The control structure after the read-mode invocation for element `index`
/// found `actual` in the test buffer.
pub open spec fn read_element(c: ControlView, index: u32, actual: u32) -> ControlView {
    let expected = expected_value(index, c.value_calc_param);
    let noted = if actual != expected {
        record_mismatch(c, index, actual ^ expected)
    } else {
        c
    };
    confirm_pass(noted, expected)
}

/// Control structure and test buffer after one invocation for element
/// `index`: read mode compares, write mode stores, and with neither flag set
/// nothing happens.
pub open spec fn invocation(c: ControlView, mem: Seq<u32>, index: u32) -> (ControlView, Seq<u32>) {
    if c.read_do != 0 {
        (read_element(c, index, mem[index as int]), mem)
    } else if c.write_do != 0 {
        (c, mem.update(index as int, expected_value(index, c.value_calc_param)))
    } else {
        (c, mem)
    }
}

/// The control structure after read-mode invocations ran for the elements
/// listed in `order`, one after another.
pub open spec fn read_in_order(c: ControlView, mem: Seq<u32>, order: Seq<u32>) -> ControlView {
    order.fold_left(
        c,
        |state: ControlView, index: u32| read_element(state, index, mem[index as int]),
    )
}

/// Element `index` of `mem` differs from its pattern value under seed `param`.
pub open spec fn mismatches(param: u32, mem: Seq<u32>, index: u32) -> bool {
    mem[index as int] != expected_value(index, param)
}

/// The element indices `0, 1, .., n - 1`.
pub open spec fn ascending(n: nat) -> Seq<u32> {
    Seq::new(n, |i: int| i as u32)
}

/// The control structure after a read pass over the whole of `mem`.
pub open spec fn read_pass(c: ControlView, mem: Seq<u32>) -> ControlView {
    read_in_order(c, mem, ascending(mem.len()))
}

/// A test buffer of `n` elements after a write pass with seed `param`.
pub open spec fn written(param: u32, n: nat) -> Seq<u32> {
    Seq::new(n, |i: int| expected_value(i as u32, param))
}

/// Control structure and test buffer after a dispatch over the whole of `mem`.
pub open spec fn dispatch(c: ControlView, mem: Seq<u32>) -> (ControlView, Seq<u32>) {
    if c.read_do != 0 {
        (read_pass(c, mem), mem)
    } else if c.write_do != 0 {
        (c, written(c.value_calc_param, mem.len()))
    } else {
        (c, mem)
    }
}

/// Records in `io` that element `index` differs from its expected value in
/// the bits of `mask`.
fn note_mismatch(io: &mut IOBuffer, index: u32, mask: u32)
    ensures
        final(io)@ == record_mismatch(old(io)@, index, mask),
{
    let one_bits: u32 = count_one_bits(mask);
    if one_bits == 1 {
        let bit_idx: usize = first_leading_bit(mask) as usize;
        let counter: u32 = io.single_bit_err_idx.0[bit_idx];
        io.single_bit_err_idx.0[bit_idx] = counter.wrapping_add(1);
    }
    let width: usize = (one_bits % 32) as usize;
    let counter: u32 = io.err_bits_count.0[width];
    io.err_bits_count.0[width] = counter.wrapping_add(1);
    if index > io.max_bad_idx {
        io.max_bad_idx = index;
    }
    if index < io.min_bad_idx {
        io.min_bad_idx = index;
    }
    if ERROR_STATUS > io.done_iter_or_status {
        io.done_iter_or_status = ERROR_STATUS;
    }
}

/// One invocation of the kernel, for element `global_invocation_id` of the
/// dispatch window `test`.
pub fn kernel_main(io: &mut IOBuffer, test: &mut Vec<u32>, global_invocation_id: u32)
    requires
        global_invocation_id < old(test).len(),
    ensures
        (final(io)@, final(test)@) == invocation(old(io)@, old(test)@, global_invocation_id),
{
    let test_idx: u32 = global_invocation_id;
    if io.read_do != 0 {
        let expected_value: u32 = test_value_by_index(test_idx, io.value_calc_param);
        let actual_value: u32 = test[test_idx as usize];
        if actual_value != expected_value {
            let error_mask: u32 = actual_value ^ expected_value;
            note_mismatch(io, test_idx, error_mask);
        }
        if expected_value == ITER_CONFIRMATION_VALUE {
            if io.iteration > io.done_iter_or_status {
                io.done_iter_or_status = io.iteration;
            }
        }
    } else if io.write_do != 0 {
        let value: u32 = test_value_by_index(test_idx, io.value_calc_param);
        test.set(test_idx as usize, value);
    }
}

/// Runs the kernel once for every element of `test`, in ascending order of
/// the element index, as one dispatch over the window does.
pub fn run_dispatch(io: &mut IOBuffer, test: &mut Vec<u32>)
    requires
        old(test).len() <= 0x1_0000_0000,
    ensures
        (final(io)@, final(test)@) == dispatch(old(io)@, old(test)@),
{
    let count: usize = test.len();
    let ghost c0 = io@;
    let ghost mem0 = test@;
    let mut done: usize = 0;
    while done < count
        invariant
            done <= count,
            count == mem0.len(),
            count <= 0x1_0000_0000,
            test.len() == count,
            io@.read_do == c0.read_do,
            io@.write_do == c0.write_do,
            io@.value_calc_param == c0.value_calc_param,
            c0.read_do != 0 ==> test@ == mem0 && io@ == read_in_order(
                c0,
                mem0,
                ascending(done as nat),
            ),
            c0.read_do == 0 ==> io@ == c0,
            c0.read_do == 0 && c0.write_do != 0 ==> forall|i: int|
                0 <= i < count ==> #[trigger] test@[i] == if i < done {
                    expected_value(i as u32, c0.value_calc_param)
                } else {
                    mem0[i]
                },
            c0.read_do == 0 && c0.write_do == 0 ==> test@ == mem0,
        decreases count - done,
    {
        proof {
            let next = ascending((done + 1) as nat);
            assert(next.drop_last() =~= ascending(done as nat));
            assert(next.last() == done as u32);
        }
        kernel_main(io, test, done as u32);
        done = done + 1;
    }
    proof {
        if c0.read_do != 0 {
        } else if c0.write_do != 0 {
            assert(test@ =~= written(c0.value_calc_param, mem0.len()));
        }
    }
}

/// A mismatch differs in at least one and at most 32 bits.
pub proof fn lemma_mismatch_has_bits(actual: u32, expected: u32)
    requires
        actual != expected,
    ensures
        1 <= popcount(actual ^ expected) <= 32,
{
    assert(actual ^ expected != 0) by (bit_vector)
        requires
            actual != expected,
    ;
    lemma_bit_bounds_u32(actual ^ expected);
}

/// A read-mode invocation never touches the fields that the host owns, and
/// keeps both histograms at their length.
pub proof fn lemma_read_keeps_host_fields(c: ControlView, index: u32, actual: u32)
    ensures
        read_element(c, index, actual).write_do == c.write_do,
        read_element(c, index, actual).read_do == c.read_do,
        read_element(c, index, actual).iteration == c.iteration,
        read_element(c, index, actual).value_calc_param == c.value_calc_param,
        read_element(c, index, actual).single_bit_err_idx.len() == c.single_bit_err_idx.len(),
        read_element(c, index, actual).err_bits_count.len() == c.err_bits_count.len(),
{
}

/// An element that holds its expected value changes no error aggregate.
pub proof fn lemma_match_changes_no_aggregate(c: ControlView, index: u32)
    ensures
        ({
            let after = read_element(c, index, expected_value(index, c.value_calc_param));
            &&& after.single_bit_err_idx == c.single_bit_err_idx
            &&& after.err_bits_count == c.err_bits_count
            &&& after.max_bad_idx == c.max_bad_idx
            &&& after.min_bad_idx == c.min_bad_idx
            &&& after == confirm_pass(c, expected_value(index, c.value_calc_param))
        }),
{
}

/// A mismatch in exactly one bit increments the counter of that bit's
/// position and the counter of width 1, each by one; no other counter of
/// either histogram changes. The differing bit is the one at that position.
pub proof fn lemma_single_bit_flip(c: ControlView, index: u32, actual: u32)
    requires
        c.wf(),
        actual != expected_value(index, c.value_calc_param),
        popcount(actual ^ expected_value(index, c.value_calc_param)) == 1,
    ensures
        ({
            let mask = actual ^ expected_value(index, c.value_calc_param);
            let bit = highest_set_bit(mask) as int;
            let after = read_element(c, index, actual);
            &&& 0 <= bit < 32
            &&& mask == vstd::arithmetic::power2::pow2(bit as nat)
            &&& after.single_bit_err_idx.len() == 32
            &&& after.err_bits_count.len() == 32
            &&& after.single_bit_err_idx[bit] == incremented(c.single_bit_err_idx[bit])
            &&& after.err_bits_count[1] == incremented(c.err_bits_count[1])
            &&& forall|slot: int|
                0 <= slot < 32 && slot != bit ==> after.single_bit_err_idx[slot]
                    == c.single_bit_err_idx[slot]
            &&& forall|slot: int|
                0 <= slot < 32 && slot != 1 ==> after.err_bits_count[slot] == c.err_bits_count[slot]
        }),
{
    let mask = actual ^ expected_value(index, c.value_calc_param);
    lemma_bit_bounds_u32(mask);
    crate::bits::lemma_single_bit(mask);
}

/// An element that differs from its expected value in the one bit at
/// position `bit` is counted at that position: the counter of `bit` in the
/// histogram of single-bit errors goes up by one, and with it the counter of
/// width 1.
pub proof fn lemma_flipped_bit_is_counted(c: ControlView, index: u32, bit: u32)
    requires
        c.wf(),
        bit < 32,
    ensures
        ({
            let expected = expected_value(index, c.value_calc_param);
            let after = read_element(c, index, expected ^ (1u32 << bit));
            &&& after.single_bit_err_idx == bumped(c.single_bit_err_idx, bit as int)
            &&& after.err_bits_count == bumped(c.err_bits_count, 1)
            &&& after.single_bit_err_idx[bit as int] == incremented(
                c.single_bit_err_idx[bit as int],
            )
            &&& after.err_bits_count[1] == incremented(c.err_bits_count[1])
        }),
{
    let expected = expected_value(index, c.value_calc_param);
    let actual = expected ^ (1u32 << bit);
    assert((expected ^ (1u32 << bit)) ^ expected == 1u32 << bit) by (bit_vector);
    assert(expected ^ (1u32 << bit) != expected) by (bit_vector)
        requires
            bit < 32,
    ;
    crate::bits::lemma_pow2_single_bit(bit as nat);
    vstd::bits::lemma_u32_shl_is_mul(1, bit);
}

/// A mismatch in `k > 1` bits increments only the counter of width
/// `k mod 32`; the histogram of single-bit positions does not change.
pub proof fn lemma_multi_bit_flip(c: ControlView, index: u32, actual: u32)
    requires
        c.wf(),
        actual != expected_value(index, c.value_calc_param),
        popcount(actual ^ expected_value(index, c.value_calc_param)) > 1,
    ensures
        ({
            let k = popcount(actual ^ expected_value(index, c.value_calc_param));
            let after = read_element(c, index, actual);
            &&& 1 < k <= 32
            &&& after.single_bit_err_idx == c.single_bit_err_idx
            &&& after.err_bits_count.len() == 32
            &&& after.err_bits_count[(k % 32) as int] == incremented(
                c.err_bits_count[(k % 32) as int],
            )
            &&& forall|slot: int|
                0 <= slot < 32 && slot != k % 32 ==> after.err_bits_count[slot]
                    == c.err_bits_count[slot]
        }),
{
    lemma_bit_bounds_u32(actual ^ expected_value(index, c.value_calc_param));
}

/// Any mismatch widens the range of bad indices to hold its element and
/// raises the status to the error sentinel, whatever the status was.
pub proof fn lemma_mismatch_marks_fault(c: ControlView, index: u32, actual: u32)
    requires
        actual != expected_value(index, c.value_calc_param),
    ensures
        ({
            let after = read_element(c, index, actual);
            &&& after.max_bad_idx == max_u32(c.max_bad_idx, index)
            &&& after.min_bad_idx == min_u32(c.min_bad_idx, index)
            &&& after.done_iter_or_status == ERROR_STATUS
        }),
{
}

/// The status only rises: neither a mismatch nor a confirmation lowers it,
/// so a fault, once in the status, stays there whatever runs later.
pub proof fn lemma_status_only_rises(c: ControlView, index: u32, actual: u32)
    ensures
        read_element(c, index, actual).done_iter_or_status >= c.done_iter_or_status,
        c.done_iter_or_status == ERROR_STATUS ==> read_element(
            c,
            index,
            actual,
        ).done_iter_or_status == ERROR_STATUS,
{
}

/// Two read-mode invocations commute: every update of a shared aggregate is
/// an add, a min or a max.
pub proof fn lemma_read_element_commutes(
    c: ControlView,
    first: u32,
    first_actual: u32,
    second: u32,
    second_actual: u32,
)
    ensures
        read_element(read_element(c, first, first_actual), second, second_actual) == read_element(
            read_element(c, second, second_actual),
            first,
            first_actual,
        ),
{
    let a = read_element(read_element(c, first, first_actual), second, second_actual);
    let b = read_element(read_element(c, second, second_actual), first, first_actual);
    assert(a.single_bit_err_idx =~= b.single_bit_err_idx);
    assert(a.err_bits_count =~= b.err_bits_count);
}

/// The result of a read pass depends on which invocations ran, not on the
/// order in which they ran: two orders that hold the same indices equally
/// often leave the same control structure.
pub proof fn lemma_read_order_irrelevant(
    c: ControlView,
    mem: Seq<u32>,
    order: Seq<u32>,
    other: Seq<u32>,
)
    requires
        order.to_multiset() == other.to_multiset(),
    ensures
        read_in_order(c, mem, order) == read_in_order(c, mem, other),
{
    let step = |state: ControlView, index: u32| read_element(state, index, mem[index as int]);
    assert forall|x: u32, y: u32, v: ControlView| #[trigger]
        step(step(v, x), y) == step(step(v, y), x) by {
        lemma_read_element_commutes(v, x, mem[x as int], y, mem[y as int]);
    }
    vstd::seq_lib::lemma_fold_left_permutation(order, other, step, c);
}

/// After read-mode invocations ran in any order, the bounds of the bad
/// indices are the least and the greatest mismatching index among the
/// invocations and the bounds held before: no mismatching element lies
/// outside them, and each bound is the earlier bound or a mismatching element.
pub proof fn lemma_bad_index_bounds(c: ControlView, mem: Seq<u32>, order: Seq<u32>)
    ensures
        ({
            let after = read_in_order(c, mem, order);
            &&& after.value_calc_param == c.value_calc_param
            &&& after.min_bad_idx <= c.min_bad_idx
            &&& after.max_bad_idx >= c.max_bad_idx
            &&& forall|k: int|
                0 <= k < order.len() && mismatches(c.value_calc_param, mem, #[trigger] order[k])
                    ==> after.min_bad_idx <= order[k] <= after.max_bad_idx
            &&& after.min_bad_idx == c.min_bad_idx || exists|k: int|
                0 <= k < order.len() && mismatches(c.value_calc_param, mem, #[trigger] order[k])
                    && order[k] == after.min_bad_idx
            &&& after.max_bad_idx == c.max_bad_idx || exists|k: int|
                0 <= k < order.len() && mismatches(c.value_calc_param, mem, #[trigger] order[k])
                    && order[k] == after.max_bad_idx
        }),
    decreases order.len(),
{
    if order.len() > 0 {
        let front = order.drop_last();
        let before = read_in_order(c, mem, front);
        let after = read_in_order(c, mem, order);
        lemma_bad_index_bounds(c, mem, front);
        assert(after == read_element(before, order.last(), mem[order.last() as int]));
        assert forall|k: int|
            0 <= k < order.len() && mismatches(
                c.value_calc_param,
                mem,
                #[trigger] order[k],
            ) implies after.min_bad_idx <= order[k] <= after.max_bad_idx by {
            if k < front.len() {
                assert(front[k] == order[k]);
            }
        }
        if after.min_bad_idx != c.min_bad_idx {
            if after.min_bad_idx == before.min_bad_idx {
                let k = choose|k: int|
                    0 <= k < front.len() && mismatches(c.value_calc_param, mem, #[trigger] front[k])
                        && front[k] == before.min_bad_idx;
                assert(order[k] == front[k]);
            } else {
                assert(order[order.len() - 1] == after.min_bad_idx);
            }
        }
        if after.max_bad_idx != c.max_bad_idx {
            if after.max_bad_idx == before.max_bad_idx {
                let k = choose|k: int|
                    0 <= k < front.len() && mismatches(c.value_calc_param, mem, #[trigger] front[k])
                        && front[k] == before.max_bad_idx;
                assert(order[k] == front[k]);
            } else {
                assert(order[order.len() - 1] == after.max_bad_idx);
            }
        }
    }
}

/// After read-mode invocations that began with the bounds at their
/// sentinels, the bounds tell whether any element mismatched: they are in
/// order, `min_bad_idx <= max_bad_idx`, exactly where one did, and a
/// mismatch always leaves the error sentinel in the status.
pub proof fn lemma_bounds_tell_errors(c: ControlView, mem: Seq<u32>, order: Seq<u32>)
    requires
        c.min_bad_idx == u32::MAX,
        c.max_bad_idx == 0,
    ensures
        ({
            let after = read_in_order(c, mem, order);
            let any = exists|k: int|
                0 <= k < order.len() && mismatches(c.value_calc_param, mem, #[trigger] order[k]);
            &&& any <==> after.min_bad_idx <= after.max_bad_idx
            &&& !any ==> after.min_bad_idx == u32::MAX && after.max_bad_idx == 0
            &&& any ==> after.done_iter_or_status == ERROR_STATUS
        }),
    decreases order.len(),
{
    lemma_bad_index_bounds(c, mem, order);
    if order.len() > 0 {
        let front = order.drop_last();
        let before = read_in_order(c, mem, front);
        let after = read_in_order(c, mem, order);
        lemma_bounds_tell_errors(c, mem, front);
        lemma_bad_index_bounds(c, mem, front);
        assert(after == read_element(before, order.last(), mem[order.last() as int]));
        lemma_status_only_rises(before, order.last(), mem[order.last() as int]);
        let any_front = exists|k: int|
            0 <= k < front.len() && mismatches(c.value_calc_param, mem, #[trigger] front[k]);
        let any = exists|k: int|
            0 <= k < order.len() && mismatches(c.value_calc_param, mem, #[trigger] order[k]);
        if any_front {
            let k = choose|k: int|
                0 <= k < front.len() && mismatches(c.value_calc_param, mem, #[trigger] front[k]);
            assert(order[k] == front[k]);
        }
        if mismatches(c.value_calc_param, mem, order.last()) {
            assert(order[order.len() - 1] == order.last());
        }
        if any {
            let k = choose|k: int|
                0 <= k < order.len() && mismatches(c.value_calc_param, mem, #[trigger] order[k]);
            if k < front.len() {
                assert(front[k] == order[k]);
            }
        }
    }
}

/// The bits in which element `index` of `mem` differs from its pattern value.
pub open spec fn error_mask(param: u32, mem: Seq<u32>, index: u32) -> u32 {
    mem[index as int] ^ expected_value(index, param)
}

/// Number of invocations in `order` that found a mismatch of `width` bits,
/// widths taken modulo 32.
pub open spec fn count_of_width(param: u32, mem: Seq<u32>, order: Seq<u32>, width: nat) -> nat
    decreases order.len(),
{
    if order.len() == 0 {
        0
    } else {
        count_of_width(param, mem, order.drop_last(), width) + if mismatches(
            param,
            mem,
            order.last(),
        ) && popcount(error_mask(param, mem, order.last())) % 32 == width {
            1nat
        } else {
            0nat
        }
    }
}

/// Number of invocations in `order` that found a mismatch in the one bit at
/// position `bit`.
pub open spec fn count_at_bit(param: u32, mem: Seq<u32>, order: Seq<u32>, bit: nat) -> nat
    decreases order.len(),
{
    if order.len() == 0 {
        0
    } else {
        count_at_bit(param, mem, order.drop_last(), bit) + if mismatches(param, mem, order.last())
            && popcount(error_mask(param, mem, order.last())) == 1 && highest_set_bit(
            error_mask(param, mem, order.last()),
        ) == bit {
            1nat
        } else {
            0nat
        }
    }
}

/// The histograms count: after read-mode invocations, each counter has
/// grown, modulo 2^32, by the number of invocations that found a mismatch of
/// its width, or a single-bit mismatch at its position.
pub proof fn lemma_histograms_count(c: ControlView, mem: Seq<u32>, order: Seq<u32>, slot: nat)
    requires
        c.wf(),
        slot < 32,
    ensures
        ({
            let after = read_in_order(c, mem, order);
            let param = c.value_calc_param;
            &&& after.wf()
            &&& after.value_calc_param == param
            &&& after.err_bits_count[slot as int] == (c.err_bits_count[slot as int]
                + count_of_width(param, mem, order, slot)) % 0x1_0000_0000
            &&& after.single_bit_err_idx[slot as int] == (c.single_bit_err_idx[slot as int]
                + count_at_bit(param, mem, order, slot)) % 0x1_0000_0000
        }),
    decreases order.len(),
{
    if order.len() > 0 {
        let front = order.drop_last();
        let before = read_in_order(c, mem, front);
        let after = read_in_order(c, mem, order);
        lemma_histograms_count(c, mem, front, slot);
        assert(after == read_element(before, order.last(), mem[order.last() as int]));
        lemma_bit_bounds_u32(error_mask(c.value_calc_param, mem, order.last()));
    }
}

/// Reading the first `k` elements of a freshly written buffer finds no
/// mismatch, and confirms the pass once the confirmation index is among them.
proof fn lemma_clean_prefix(c: ControlView, n: nat, k: nat)
    requires
        k <= n <= 0x1_0000_0000,
    ensures
        read_in_order(c, written(c.value_calc_param, n), ascending(k)) == (ControlView {
            done_iter_or_status: if confirmation_index(c.value_calc_param) < k {
                max_u32(c.done_iter_or_status, c.iteration)
            } else {
                c.done_iter_or_status
            },
            ..c
        }),
    decreases k,
{
    let mem = written(c.value_calc_param, n);
    if k > 0 {
        let order = ascending(k);
        lemma_clean_prefix(c, n, (k - 1) as nat);
        assert(order.drop_last() =~= ascending((k - 1) as nat));
        assert(order.last() == (k - 1) as u32);
        lemma_pattern_inverse(ITER_CONFIRMATION_VALUE, c.value_calc_param);
        let before = read_in_order(c, mem, order.drop_last());
        assert(read_in_order(c, mem, order) == read_element(
            before,
            order.last(),
            mem[order.last() as int],
        ));
    }
}

/// A clean round trip: a write pass over a window, then a read pass over it
/// with the same seed and freshly reset aggregates, records no error and
/// leaves the bounds of the bad indices at their sentinels. The status ends
/// as the iteration id, that is the pass is confirmed clean, where the
/// window holds the confirmation index of the seed. (It also does where the
/// iteration id is 0, the value that the reset leaves in the status.)
pub proof fn lemma_clean_round_trip(writer: ControlView, reader: ControlView, mem: Seq<u32>)
    requires
        mem.len() <= 0x1_0000_0000,
        writer.read_do == 0 && writer.write_do != 0,
        reader.read_do != 0,
        reader.value_calc_param == writer.value_calc_param,
        reader == reader.with_errors_reset(),
        confirmation_index(reader.value_calc_param) < mem.len() || reader.iteration == 0,
    ensures
        ({
            let written_mem = dispatch(writer, mem).1;
            let after = dispatch(reader, written_mem).0;
            &&& dispatch(writer, mem).0 == writer
            &&& dispatch(reader, written_mem).1 == written_mem
            &&& after.done_iter_or_status == reader.iteration
            &&& after.errors_clear()
            &&& after.min_bad_idx > after.max_bad_idx
            &&& after == ControlView { done_iter_or_status: reader.iteration, ..reader }
        }),
{
    lemma_clean_prefix(reader, mem.len(), mem.len());
}

/// Where the window does not hold the confirmation index of the seed, the
/// same round trip records no error either, but leaves the status at 0: with
/// an iteration id other than 0 the pass stays unconfirmed.
pub proof fn lemma_short_window_unconfirmed(
    writer: ControlView,
    reader: ControlView,
    mem: Seq<u32>,
)
    requires
        mem.len() <= 0x1_0000_0000,
        writer.read_do == 0 && writer.write_do != 0,
        reader.read_do != 0,
        reader.value_calc_param == writer.value_calc_param,
        reader == reader.with_errors_reset(),
        confirmation_index(reader.value_calc_param) >= mem.len(),
    ensures
        dispatch(reader, dispatch(writer, mem).1).0 == reader,
        reader.iteration != 0 ==> reader.pass_status() == crate::control::PassStatus::Unconfirmed,
{
    lemma_clean_prefix(reader, mem.len(), mem.len());
}

} // verus!
