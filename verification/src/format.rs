//! Text forms of the values that a run reports: addresses in hexadecimal,
//! histograms with their zero counters summed up, and the control structure
//! field by field.

use vstd::prelude::*;
use vstd::string::StringExecFns;
use vstd::string::StrSliceExecFns;
use crate::control::{ControlView, IOBuffer, MostlyZeroArr, U64HexDebug};
use crate::params::ELEMENT_BIT_SIZE;

verus! {

/// The character that stands for the digit `d`, for `d` below 16.
pub open spec fn digit_char(d: nat) -> char {
    "0123456789ABCDEF"@[d as int]
}

/// `n` in decimal, without leading zeros.
pub open spec fn decimal(n: nat) -> Seq<char>
    decreases n,
{
    if n < 10 {
        seq![digit_char(n)]
    } else {
        decimal(n / 10).push(digit_char(n % 10))
    }
}

/// `n` in hexadecimal with upper-case digits, without leading zeros.
pub open spec fn upper_hex(n: nat) -> Seq<char>
    decreases n,
{
    if n < 16 {
        seq![digit_char(n)]
    } else {
        upper_hex(n / 16).push(digit_char(n % 16))
    }
}

/// The text of an address: `0x` and its hexadecimal digits.
pub open spec fn address_text(address: u64) -> Seq<char> {
    "0x"@ + upper_hex(address as nat)
}

/// The text of the counter at `slot` with value `value`: `[slot]=value, `.
pub open spec fn entry_text(slot: nat, value: u32) -> Seq<char> {
    "["@ + decimal(slot) + "]="@ + decimal(value as nat) + ", "@
}

/// The texts of the counters other than zero among the first `upto`
/// counters, in order.
pub open spec fn entries_text(counters: Seq<u32>, upto: nat) -> Seq<char>
    decreases upto,
{
    if upto == 0 {
        Seq::empty()
    } else {
        let slot = (upto - 1) as nat;
        entries_text(counters, slot) + if counters[slot as int] != 0 {
            entry_text(slot, counters[slot as int])
        } else {
            Seq::empty()
        }
    }
}

/// Number of zero counters among the first `upto` counters.
pub open spec fn zero_count(counters: Seq<u32>, upto: nat) -> nat
    decreases upto,
{
    if upto == 0 {
        0
    } else {
        zero_count(counters, (upto - 1) as nat) + if counters[upto - 1] == 0 {
            1nat
        } else {
            0nat
        }
    }
}

/// The text of a histogram of 32 counters: the counters other than zero,
/// each with its slot, then the number of zero counters.
pub open spec fn histogram_text(counters: Seq<u32>) -> Seq<char> {
    "["@ + entries_text(counters, 32) + decimal(zero_count(counters, 32)) + " zeroes]"@
}

/// The text of the control structure: its name, then every field with its
/// value, in the order of the layout.
pub open spec fn control_text(c: ControlView) -> Seq<char> {
    "IOBuffer { single_bit_err_idx: "@ + histogram_text(c.single_bit_err_idx)
        + ", err_bits_count: "@ + histogram_text(c.err_bits_count) + ", max_bad_idx: "@ + decimal(
        c.max_bad_idx as nat,
    ) + ", min_bad_idx: "@ + decimal(c.min_bad_idx as nat) + ", write_do: "@ + decimal(
        c.write_do as nat,
    ) + ", read_do: "@ + decimal(c.read_do as nat) + ", iteration: "@ + decimal(
        c.iteration as nat,
    ) + ", done_iter_or_status: "@ + decimal(c.done_iter_or_status as nat)
        + ", value_calc_param: "@ + decimal(c.value_calc_param as nat) + " }"@
}

/// Appends the character of the digit `d`.
fn append_digit(out: &mut String, d: u64)
    requires
        d < 16,
    ensures
        final(out)@ == old(out)@.push(digit_char(d as nat)),
{
    let digits: &str = "0123456789ABCDEF";
    proof {
        reveal_strlit("0123456789ABCDEF");
    }
    let digit: &str = digits.substring_ascii(d as usize, d as usize + 1);
    out.append(digit);
    proof {
        assert(digit@ =~= seq![digit_char(d as nat)]);
        assert(out@ =~= old(out)@.push(digit_char(d as nat)));
    }
}

/// Appends `n` in decimal.
pub fn append_decimal(out: &mut String, n: u64)
    ensures
        final(out)@ == old(out)@ + decimal(n as nat),
    decreases n,
{
    if n >= 10 {
        append_decimal(out, n / 10);
    }
    append_digit(out, n % 10);
    proof {
        assert(out@ =~= old(out)@ + decimal(n as nat));
    }
}

/// Appends `n` in upper-case hexadecimal.
pub fn append_upper_hex(out: &mut String, n: u64)
    ensures
        final(out)@ == old(out)@ + upper_hex(n as nat),
    decreases n,
{
    if n >= 16 {
        append_upper_hex(out, n / 16);
    }
    append_digit(out, n % 16);
    proof {
        assert(out@ =~= old(out)@ + upper_hex(n as nat));
    }
}

impl U64HexDebug {
    /// The address as text: `0x` and its digits in upper-case hexadecimal.
    pub fn fmt(&self) -> (text: String)
        ensures
            text@ == address_text(self.0),
    {
        let mut text: String = String::from_str("0x");
        append_upper_hex(&mut text, self.0);
        text
    }
}

impl MostlyZeroArr {
    /// Appends the text of the histogram.
    pub fn append_to(&self, out: &mut String)
        ensures
            final(out)@ == old(out)@ + histogram_text(self@),
    {
        out.append("[");
        let mut zeroes: u64 = 0;
        let mut slot: usize = 0;
        while slot < ELEMENT_BIT_SIZE
            invariant
                slot <= 32,
                zeroes == zero_count(self@, slot as nat),
                zeroes <= slot,
                out@ == old(out)@ + "["@ + entries_text(self@, slot as nat),
            decreases 32 - slot,
        {
            let vali: u32 = self.0[slot];
            let ghost before = out@;
            if vali != 0 {
                out.append("[");
                append_decimal(out, slot as u64);
                out.append("]=");
                append_decimal(out, vali as u64);
                out.append(", ");
                proof {
                    assert(out@ =~= before + entry_text(slot as nat, vali));
                }
            } else {
                zeroes = zeroes + 1;
            }
            slot = slot + 1;
            proof {
                assert(out@ =~= old(out)@ + "["@ + entries_text(self@, slot as nat));
            }
        }
        append_decimal(out, zeroes);
        out.append(" zeroes]");
        proof {
            assert(out@ =~= old(out)@ + histogram_text(self@));
        }
    }

    /// The histogram as text: every counter other than zero as
    /// `[slot]=value, `, then the number of zero counters.
    pub fn fmt(&self) -> (text: String)
        ensures
            text@ == histogram_text(self@),
    {
        let mut text: String = String::new();
        self.append_to(&mut text);
        proof {
            assert(text@ =~= histogram_text(self@));
        }
        text
    }
}

/// Appends `, name: value` for a scalar field, `label` being `, name: `.
fn append_field(out: &mut String, label: &str, value: u32)
    ensures
        final(out)@ == old(out)@ + label@ + decimal(value as nat),
{
    out.append(label);
    append_decimal(out, value as u64);
}

impl IOBuffer {
    /// The control structure as text, every field with its value.
    pub fn fmt(&self) -> (text: String)
        ensures
            text@ == control_text(self@),
    {
        let mut text: String = String::from_str("IOBuffer { single_bit_err_idx: ");
        self.single_bit_err_idx.append_to(&mut text);
        text.append(", err_bits_count: ");
        self.err_bits_count.append_to(&mut text);
        append_field(&mut text, ", max_bad_idx: ", self.max_bad_idx);
        append_field(&mut text, ", min_bad_idx: ", self.min_bad_idx);
        append_field(&mut text, ", write_do: ", self.write_do);
        append_field(&mut text, ", read_do: ", self.read_do);
        append_field(&mut text, ", iteration: ", self.iteration);
        append_field(&mut text, ", done_iter_or_status: ", self.done_iter_or_status);
        append_field(&mut text, ", value_calc_param: ", self.value_calc_param);
        text.append(" }");
        proof {
            assert(text@ =~= control_text(self@));
        }
        text
    }
}

} // verus!
