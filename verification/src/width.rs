//! Address widths: how many bits it takes to address a number of bytes or
//! words.
use vstd::prelude::*;
use vstd::arithmetic::power2::{
    lemma_pow2_pos, lemma_pow2_strictly_increases, lemma_pow2_unfold, pow2,
};

verus! {

/// The least width, counted from `w` on, whose power of two reaches the
/// bound.
pub open spec fn least_width_from(w: nat, bound: int) -> nat
    decreases
        (if bound > pow2(w) {
            bound - pow2(w)
        } else {
            0
        }),
    via least_width_decreases
{
    if pow2(w) >= bound {
        w
    } else {
        least_width_from(w + 1, bound)
    }
}

#[via_fn]
proof fn least_width_decreases(w: nat, bound: int) {
    lemma_pow2_unfold(w + 1);
    lemma_pow2_pos(w);
}

/// The least width of one bit or more whose power of two reaches the
/// bound.
pub open spec fn least_width(bound: int) -> nat {
    least_width_from(1, bound)
}

/// The width of the byte address of `count` 32-bit words: the least `w` of
/// one or more with `2^w >= 4 * count - 1`.
pub open spec fn byte_address_width(count: int) -> nat {
    least_width(4 * count - 1)
}

/// What makes a width the least one: its power of two reaches the bound,
/// and no smaller width from `from` on does.
pub proof fn lemma_least_width_from(from: nat, bound: int)
    ensures
        least_width_from(from, bound) >= from,
        pow2(least_width_from(from, bound)) >= bound,
        forall|v: nat| from <= v < least_width_from(from, bound) ==> pow2(v) < bound,
    decreases
        (if bound > pow2(from) {
            bound - pow2(from)
        } else {
            0
        }),
{
    if pow2(from) >= bound {
    } else {
        lemma_pow2_unfold(from + 1);
        lemma_pow2_pos(from);
        lemma_least_width_from(from + 1, bound);
    }
}

/// The address width is the minimal one: for every count of one or more,
/// `2^w >= 4 * count - 1` and `2^(w - 1) < 4 * count - 1`.
pub proof fn lemma_byte_address_width(count: int)
    requires
        count >= 1,
    ensures
        pow2(byte_address_width(count)) >= 4 * count - 1,
        byte_address_width(count) >= 2,
        pow2((byte_address_width(count) - 1) as nat) < 4 * count - 1,
{
    let bound = 4 * count - 1;
    lemma_least_width_from(1, bound);
    reveal_with_fuel(least_width_from, 2);
    lemma_pow2_unfold(1);
    assert(pow2(0) == 1) by {
        reveal(pow2);
        vstd::arithmetic::power::lemma_pow0(2);
    }
    assert(pow2(1) == 2);
    assert(least_width_from(1, bound) == least_width_from(2, bound));
    lemma_least_width_from(2, bound);
    let w = byte_address_width(count);
    if w > 2 {
        assert(pow2((w - 1) as nat) < bound);
    } else {
        assert(pow2((w - 1) as nat) == 2);
    }
}

/// The least width of one bit or more whose power of two reaches the
/// bound.
pub fn width_for(bound: i128) -> (w: i32)
    ensures
        w == least_width(bound as int),
        1 <= w <= 127,
{
    proof {
        lemma_pow2_unfold(1);
        assert(pow2(0) == 1) by {
            reveal(pow2);
            vstd::arithmetic::power::lemma_pow0(2);
        }
        vstd::arithmetic::power2::lemma2_to64();
    }
    if bound <= 2 {
        return 1;
    }
    let target: u128 = bound as u128;
    let mut p: u128 = 2;
    let mut w: i32 = 1;
    while p < target
        invariant
            1 <= w <= 127,
            p == pow2(w as nat),
            target == bound,
            target <= i128::MAX,
            least_width(bound as int) == least_width_from(w as nat, bound as int),
            w == 127 ==> p >= target,
        decreases
            (if target > p {
                target - p
            } else {
                0
            }),
    {
        proof {
            lemma_pow2_unfold((w + 1) as nat);
            lemma_pow2_pos(w as nat);
            if w + 1 == 127 {
                vstd::arithmetic::power2::lemma2_to64_rest();
                lemma_pow2_strictly_increases(64, 127);
                assert(pow2(127) == 0x8000_0000_0000_0000_0000_0000_0000_0000) by {
                    vstd::arithmetic::power2::lemma_pow2_adds(64, 63);
                    assert(pow2(64) == 0x1_0000_0000_0000_0000);
                    assert(pow2(63) == 0x8000_0000_0000_0000);
                    assert(0x1_0000_0000_0000_0000int * 0x8000_0000_0000_0000
                        == 0x8000_0000_0000_0000_0000_0000_0000_0000) by (nonlinear_arith);
                }
            }
        }
        p = p * 2;
        w = w + 1;
    }
    w
}

/// The width of the byte address of `count` 32-bit words.
pub fn register_address_width(count: usize) -> (w: i32)
    ensures
        w == byte_address_width(count as int),
        pow2(w as nat) >= 4 * count - 1,
        count >= 1 ==> pow2((w - 1) as nat) < 4 * count - 1,
{
    proof {
        lemma_least_width_from(1, 4 * count - 1);
        if count >= 1 {
            lemma_byte_address_width(count as int);
        }
    }
    width_for(4 * (count as i128) - 1)
}

} // verus!
