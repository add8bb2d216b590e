//! Block arithmetic: how many device blocks a byte buffer covers.

use vstd::arithmetic::div_mod::{
    lemma_fundamental_div_mod, lemma_fundamental_div_mod_converse, lemma_mod_pos_bound,
};
use vstd::prelude::*;

verus! {

/// Number of blocks of `block_size` bytes needed to cover `len` bytes: the
/// quotient `len / block_size` rounded up. Meaningful for `len >= 0` and
/// `block_size > 0`.
pub open spec fn blocks_for(len: int, block_size: int) -> int {
    (len + block_size - 1) / block_size
}

/// Whether `len` bytes are a whole number of blocks of `block_size` bytes.
pub open spec fn block_aligned(len: int, block_size: int) -> bool {
    len % block_size == 0
}

/// The rounded-up quotient is the plain quotient for a whole number of
/// blocks, and one more than it otherwise.
pub proof fn lemma_blocks_for_by_cases(len: int, block_size: int)
    requires
        len >= 0,
        block_size > 0,
    ensures
        block_aligned(len, block_size) ==> blocks_for(len, block_size) == len / block_size,
        !block_aligned(len, block_size) ==> blocks_for(len, block_size) == len / block_size + 1,
        0 <= len / block_size <= len,
        blocks_for(len, block_size) <= len,
{
    let q = len / block_size;
    let r = len % block_size;
    lemma_fundamental_div_mod(len, block_size);
    lemma_mod_pos_bound(len, block_size);
    assert(len == q * block_size + r) by (nonlinear_arith)
        requires
            len == block_size * q + r,
    ;
    assert(0 <= q <= len) by (nonlinear_arith)
        requires
            len == q * block_size + r,
            0 <= r < block_size,
            len >= 0,
    ;
    if r == 0 {
        lemma_fundamental_div_mod_converse(len + block_size - 1, block_size, q, block_size - 1);
    } else {
        assert(len + block_size - 1 == (q + 1) * block_size + (r - 1)) by (nonlinear_arith)
            requires
                len == q * block_size + r,
        ;
        lemma_fundamental_div_mod_converse(len + block_size - 1, block_size, q + 1, r - 1);
        assert(q + 1 <= len) by (nonlinear_arith)
            requires
                len == q * block_size + r,
                1 <= r,
                1 <= block_size,
                0 <= q,
        ;
    }
}

/// `blocks_for` is the ceiling of `len / block_size`: its blocks cover `len`
/// bytes, and one block fewer would not.
pub proof fn lemma_blocks_for_is_ceiling(len: int, block_size: int)
    requires
        len >= 0,
        block_size > 0,
    ensures
        blocks_for(len, block_size) >= 0,
        blocks_for(len, block_size) * block_size >= len,
        (blocks_for(len, block_size) - 1) * block_size < len,
{
    let q = len / block_size;
    let r = len % block_size;
    let b = blocks_for(len, block_size);
    lemma_blocks_for_by_cases(len, block_size);
    lemma_fundamental_div_mod(len, block_size);
    lemma_mod_pos_bound(len, block_size);
    assert(b * block_size >= len && (b - 1) * block_size < len) by (nonlinear_arith)
        requires
            len == block_size * q + r,
            0 <= r < block_size,
            (r == 0 && b == q) || (r != 0 && b == q + 1),
    ;
}

/// `blocks_for` is the least count that covers the buffer: any `n` blocks
/// that hold at least `len` bytes are at least `blocks_for(len, block_size)`.
pub proof fn lemma_blocks_for_is_least(len: int, block_size: int, n: int)
    requires
        len >= 0,
        block_size > 0,
        n * block_size >= len,
    ensures
        n >= blocks_for(len, block_size),
{
    let b = blocks_for(len, block_size);
    lemma_blocks_for_is_ceiling(len, block_size);
    if n < b {
        assert(n * block_size <= (b - 1) * block_size) by (nonlinear_arith)
            requires
                n <= b - 1,
                block_size > 0,
        ;
    }
}

/// The boundary cases of the rounding: an empty buffer needs no block, a
/// buffer of exactly one block needs one, and one byte more needs two.
pub proof fn lemma_blocks_for_boundaries(block_size: int)
    requires
        block_size > 0,
    ensures
        blocks_for(0, block_size) == 0,
        blocks_for(block_size, block_size) == 1,
        blocks_for(block_size + 1, block_size) == 2,
{
    lemma_fundamental_div_mod_converse(block_size - 1, block_size, 0, block_size - 1);
    lemma_fundamental_div_mod_converse(2 * block_size - 1, block_size, 1, block_size - 1);
    lemma_fundamental_div_mod_converse(2 * block_size, block_size, 2, 0);
}

/// A buffer that is a whole number of blocks is covered exactly: the blocks
/// counted for it hold `len` bytes, neither more nor fewer. Any other buffer
/// is overrun by less than one block.
pub proof fn lemma_blocks_for_span(len: int, block_size: int)
    requires
        len >= 0,
        block_size > 0,
    ensures
        block_aligned(len, block_size) ==> blocks_for(len, block_size) * block_size == len,
        !block_aligned(len, block_size) ==> len < blocks_for(len, block_size) * block_size < len
            + block_size,
{
    let q = len / block_size;
    let r = len % block_size;
    let b = blocks_for(len, block_size);
    lemma_blocks_for_by_cases(len, block_size);
    lemma_fundamental_div_mod(len, block_size);
    lemma_mod_pos_bound(len, block_size);
    assert((r == 0 ==> b * block_size == len) && (r != 0 ==> len < b * block_size < len
        + block_size)) by (nonlinear_arith)
        requires
            len == block_size * q + r,
            0 <= r < block_size,
            (r == 0 && b == q) || (r != 0 && b == q + 1),
    ;
}

/// Counts the blocks of `block_size` bytes that cover `len` bytes, rounding
/// up. No intermediate sum is formed, so every `len` is accepted.
pub fn block_count(len: usize, block_size: usize) -> (count: usize)
    requires
        block_size > 0,
    ensures
        count == blocks_for(len as int, block_size as int),
{
    proof {
        lemma_blocks_for_by_cases(len as int, block_size as int);
    }
    let whole: usize = len / block_size;
    if len % block_size == 0 {
        whole
    } else {
        whole + 1
    }
}

/// Tells whether `len` bytes are a whole number of blocks.
pub fn is_block_aligned(len: usize, block_size: usize) -> (aligned: bool)
    requires
        block_size > 0,
    ensures
        aligned == block_aligned(len as int, block_size as int),
{
    len % block_size == 0
}

} // verus!
