//! The random-number circuit: a pure function of 64 entropy bits and the
//! plaintext bounds `min` and `max`.
//!
//! In deployment the bits come from a distributed entropy source inside a
//! secure multi-party computation and only the final result is revealed; the
//! arithmetic itself is ordinary `u64` arithmetic and is modelled here
//! exactly, including the modulo reduction. That reduction is not perfectly
//! uniform when the range size does not divide `2^64` evenly; this bias is
//! part of the circuit's defined behaviour and is preserved, not corrected.

use vstd::prelude::*;
use vstd::arithmetic::power2::{pow2, lemma_pow2_unfold, lemma_pow2_strictly_increases, lemma2_to64};

verus! {

/// Value of the first `n` entropy bits combined by weighted sum:
/// bit `i` contributes `2^i` when it is set.
pub open spec fn accumulated(bits: Seq<bool>, n: int) -> nat
    decreases n,
{
    if n <= 0 {
        0
    } else {
        accumulated(bits, n - 1) + if bits[n - 1] {
            pow2((n - 1) as nat)
        } else {
            0nat
        }
    }
}

/// Size of the inclusive range `[min, max]`, as an unbounded integer.
pub open spec fn range_size(min: u64, max: u64) -> int {
    max - min + 1
}

/// The circuit's output as a pure function of the entropy bits and the
/// bounds: the 64-bit accumulated value, reduced by modulo onto the range
/// and shifted to start at `min`.
pub open spec fn rng_result(bits: Seq<bool>, min: u64, max: u64) -> int {
    accumulated(bits, 64) as int % range_size(min, max) + min
}

/// The first `n` entropy bits never accumulate to `pow2(n)` or more.
pub proof fn lemma_accumulated_bound(bits: Seq<bool>, n: int)
    requires
        0 <= n,
    ensures
        accumulated(bits, n) < pow2(n as nat),
    decreases n,
{
    if n == 0 {
        lemma2_to64();
    } else {
        lemma_accumulated_bound(bits, n - 1);
        lemma_pow2_unfold(n as nat);
    }
}

/// Whatever the 64 entropy bits, the result lies in `[min, max]`.
pub proof fn lemma_result_in_range(bits: Seq<bool>, min: u64, max: u64)
    requires
        min <= max,
    ensures
        min <= rng_result(bits, min, max) <= max,
{
    let acc = accumulated(bits, 64) as int;
    let size = range_size(min, max);
    assert(0 <= acc % size < size);
}

/// A single-value range leaves no choice: whatever the entropy, the result
/// is exactly `min`.
pub proof fn lemma_degenerate_range(bits: Seq<bool>, min: u64)
    ensures
        rng_result(bits, min, min) == min,
{
    let acc = accumulated(bits, 64) as int;
    assert(acc % 1 == 0);
}

/// Combines 64 entropy bits into a random value in `[min, max]`.
///
/// The result is a pure function of `(bits, min, max)`: re-running with the
/// same bits and bounds yields the same output. The pair `min == 0`,
/// `max == u64::MAX` is excluded because the range size `max - min + 1`
/// must fit in the circuit's 64-bit arithmetic.
pub fn generate_random(bits: &Vec<bool>, min: u64, max: u64) -> (result: u64)
    requires
        bits@.len() == 64,
        min <= max,
        !(min == 0 && max == u64::MAX),
    ensures
        result == rng_result(bits@, min, max),
        min <= result <= max,
{
    let mut random: u64 = 0;
    let mut power: u64 = 1;
    let mut i: usize = 0;
    proof {
        lemma2_to64();
    }
    while i < 64
        invariant
            i <= 64,
            bits@.len() == 64,
            random == accumulated(bits@, i as int),
            i < 64 ==> power == pow2(i as nat),
        decreases 64 - i,
    {
        proof {
            lemma_accumulated_bound(bits@, i as int);
            lemma_pow2_unfold((i + 1) as nat);
            if i + 1 < 64 {
                lemma_pow2_strictly_increases((i + 1) as nat, 64);
            }
            lemma2_to64();
        }
        if bits[i] {
            random = random + power;
        }
        if i < 63 {
            power = power * 2;
        }
        i = i + 1;
    }
    let size = max - min + 1;
    let result = (random % size) + min;
    proof {
        lemma_result_in_range(bits@, min, max);
    }
    result
}

} // verus!
