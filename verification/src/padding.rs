//! Alignment helpers for per-attempt output lines.
//!
//! `gen_filler` pads a host name up to the widest one in the run, and
//! `gen_spacer` pads a sequence number up to the width of the attempt count,
//! so that the columns of the per-attempt report line up.

use vstd::prelude::*;

verus! {

/// Number of decimal digits of `n`, with zero written as one digit.
pub open spec fn spec_digit_count(n: nat) -> nat
    decreases n,
{
    if n < 10 {
        1
    } else {
        1 + spec_digit_count(n / 10)
    }
}

/// Length of the spacer between a sequence number and the host name:
/// the digit-count difference between the attempt count and the sequence
/// number, or nothing when the sequence number is the wider of the two.
pub open spec fn spec_spacer_len(count: nat, seq_num: nat) -> nat {
    if spec_digit_count(count) >= spec_digit_count(seq_num) {
        (spec_digit_count(count) - spec_digit_count(seq_num)) as nat
    } else {
        0
    }
}

proof fn lemma_digit_count_pos(n: nat)
    ensures
        spec_digit_count(n) >= 1,
{
}

/// A number no smaller than one has no more digits than its own value.
proof fn lemma_digit_count_le_self(n: nat)
    ensures
        n >= 1 ==> spec_digit_count(n) <= n,
    decreases n,
{
    if n >= 10 {
        lemma_digit_count_le_self(n / 10);
        vstd::arithmetic::div_mod::lemma_div_decreases(n as int, 10);
        vstd::arithmetic::div_mod::lemma_div_pos_is_pos(n as int, 10);
    }
}

/// Digit counts respect the order of the numbers counted.
pub proof fn lemma_digit_count_monotone(a: nat, b: nat)
    requires
        a <= b,
    ensures
        spec_digit_count(a) <= spec_digit_count(b),
    decreases b,
{
    if a < 10 {
        lemma_digit_count_pos(b);
    } else {
        vstd::arithmetic::div_mod::lemma_div_is_ordered(a as int, b as int, 10);
        lemma_digit_count_monotone(a / 10, b / 10);
    }
}

/// Whenever the sequence number does not exceed the attempt count, the spacer
/// length is exactly the difference of the two digit counts; it is clamped to
/// an empty spacer only when that difference would be negative.
pub proof fn lemma_spacer_len_in_range(count: nat, seq_num: nat)
    requires
        seq_num <= count,
    ensures
        spec_spacer_len(count, seq_num) == spec_digit_count(count) - spec_digit_count(seq_num),
{
    lemma_digit_count_monotone(seq_num, count);
}

/// Number of decimal digits of `n`, with `digit_count(0) == 1`.
pub fn digit_count(n: usize) -> (d: usize)
    ensures
        d == spec_digit_count(n as nat),
{
    let mut d: usize = 1;
    let mut m: usize = n / 10;
    proof {
        lemma_digit_count_le_self(n as nat);
    }
    while m > 0
        invariant
            m <= n,
            m > 0 ==> d + spec_digit_count(m as nat) == spec_digit_count(n as nat),
            m == 0 ==> d == spec_digit_count(n as nat),
            n >= 1 ==> spec_digit_count(n as nat) <= n,
        decreases m,
    {
        proof {
            lemma_digit_count_pos((m / 10) as nat);
            vstd::arithmetic::div_mod::lemma_div_decreases(m as int, 10);
            vstd::arithmetic::div_mod::lemma_div_nonincreasing(m as int, 10);
        }
        d = d + 1;
        m = m / 10;
    }
    d
}

/// A string of exactly `size` space characters, used to pad host names to a
/// common width.
pub fn gen_filler(size: usize) -> (filler: String)
    ensures
        filler@.len() == size,
        forall|i: int| 0 <= i < size ==> filler@[i] == ' ',
{
    proof {
        reveal_strlit(" ");
    }
    let mut filler = String::new();
    let mut written: usize = 0;
    while written < size
        invariant
            written <= size,
            filler@.len() == written,
            forall|i: int| 0 <= i < written ==> filler@[i] == ' ',
        decreases size - written,
    {
        proof {
            reveal_strlit(" ");
        }
        filler.append(" ");
        written = written + 1;
    }
    filler
}

/// Spaces that line a sequence number up against the widest one possible in
/// this run: as many as the digit-count difference between the attempt count
/// and the sequence number, and none when that difference would be negative.
pub fn gen_spacer(count: usize, seq_num: usize) -> (spacer: String)
    ensures
        spacer@.len() == spec_spacer_len(count as nat, seq_num as nat),
        forall|i: int| 0 <= i < spacer@.len() ==> spacer@[i] == ' ',
{
    let wide = digit_count(count);
    let narrow = digit_count(seq_num);
    let size = if wide >= narrow {
        wide - narrow
    } else {
        0
    };
    gen_filler(size)
}

} // verus!
