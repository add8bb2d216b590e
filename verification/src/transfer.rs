//! One block transfer as the adapter sees it: what is handed to the
//! controller, and how the controller's report is judged.

use crate::blocks::{block_aligned, block_count, blocks_for, is_block_aligned};
use crate::blocks::{lemma_blocks_for_by_cases, lemma_blocks_for_span};
use crate::error::DevError;
use vstd::prelude::*;

verus! {

/// Direction of a transfer, seen from the caller's buffer.
#[derive(Clone, Copy, Debug, PartialEq, Eq)]
pub enum Direction {
    /// From the device into the buffer.
    Read,
    /// From the buffer onto the device.
    Write,
}

/// A transfer made ready for the controller.
///
/// `start_block` and `block_count` are what the controller's transfer routine
/// takes beside the descriptor and the buffer. `expected` is the number of
/// blocks that cover the buffer; the transfer succeeds when the controller
/// reports exactly that many.
#[derive(Clone, Copy, Debug, PartialEq, Eq)]
pub struct Transfer {
    /// Whether the device is read or written.
    pub direction: Direction,
    /// First block of the transfer.
    pub start_block: u64,
    /// Block count in the width the controller takes: the low 32 bits of
    /// `expected`.
    pub block_count: u32,
    /// Number of blocks that cover the buffer, rounded up.
    pub expected: u64,
    /// Whether the buffer is a whole number of blocks. Where it is not, the
    /// transfer still covers the last block in full: the controller moves
    /// more bytes than the buffer was declared to hold, and the caller must
    /// have provided the room.
    pub aligned: bool,
}

/// A block count as the controller's 32-bit parameter carries it: the count
/// modulo 2^32.
pub open spec fn wire_count(blocks: int) -> u32 {
    (blocks % 0x1_0000_0000) as u32
}

/// A count that fits 32 bits reaches the controller unchanged.
pub proof fn lemma_wire_count_exact(blocks: int)
    requires
        0 <= blocks <= u32::MAX,
    ensures
        wire_count(blocks) == blocks,
{
}

impl Transfer {
    /// The transfer that serves a buffer of `buf_len` bytes at block
    /// `block_id` of a device with blocks of `block_size` bytes.
    pub open spec fn planned(
        direction: Direction,
        block_size: usize,
        block_id: u64,
        buf_len: usize,
    ) -> Transfer {
        let blocks = blocks_for(buf_len as int, block_size as int);
        Transfer {
            direction,
            start_block: block_id,
            block_count: wire_count(blocks),
            expected: blocks as u64,
            aligned: block_aligned(buf_len as int, block_size as int),
        }
    }

    /// What a transfer comes to once the controller has reported
    /// `transferred` blocks: success when that is the expected number, an
    /// I/O error otherwise.
    pub open spec fn outcome(&self, transferred: u64) -> Result<(), DevError> {
        if transferred == self.expected {
            Ok(())
        } else {
            Err(DevError::Io)
        }
    }

    /// Makes the transfer for a buffer of `buf_len` bytes at block `block_id`.
    ///
    /// The block count is `buf_len / block_size` rounded up. A buffer that is
    /// not a whole number of blocks is accepted and marked as not aligned.
    pub fn plan(direction: Direction, block_size: usize, block_id: u64, buf_len: usize) -> (t:
        Transfer)
        requires
            block_size > 0,
        ensures
            t == Transfer::planned(direction, block_size, block_id, buf_len),
    {
        let blocks: usize = block_count(buf_len, block_size);
        let aligned: bool = is_block_aligned(buf_len, block_size);
        let expected: u64 = blocks as u64;
        let wire: u32 = #[verifier::truncate]
        (expected as u32);
        proof {
            lemma_blocks_for_by_cases(buf_len as int, block_size as int);
            assert(expected as u32 == (expected % 0x1_0000_0000) as u32) by (bit_vector);
        }
        Transfer { direction, start_block: block_id, block_count: wire, expected, aligned }
    }

    /// Judges the controller's report of a finished transfer.
    ///
    /// Returns `Ok` when `transferred` is the expected number of blocks and
    /// `DevError::Io` on any other number, larger or smaller. After an error
    /// nothing is known of the buffer (on a read) or of the blocks addressed
    /// (on a write) beyond what the controller itself reported.
    pub fn finish(&self, transferred: u64) -> (r: Result<(), DevError>)
        ensures
            r == self.outcome(transferred),
    {
        if transferred == self.expected {
            Ok(())
        } else {
            Err(DevError::Io)
        }
    }
}

/// A read and a write of the same buffer length at the same block address the
/// same blocks: their transfers differ in direction only.
pub proof fn lemma_read_write_same_blocks(block_size: usize, block_id: u64, buf_len: usize)
    ensures
        Transfer::planned(Direction::Read, block_size, block_id, buf_len) == (Transfer {
            direction: Direction::Read,
            ..Transfer::planned(Direction::Write, block_size, block_id, buf_len)
        }),
{
}

/// A buffer that is a whole number of blocks is transferred exactly: the
/// expected blocks hold as many bytes as the buffer, so nothing beside the
/// buffer is touched and nothing of it is left out. Where their number fits
/// 32 bits, the controller is asked for all of them.
pub proof fn lemma_aligned_transfer_is_exact(
    direction: Direction,
    block_size: usize,
    block_id: u64,
    buf_len: usize,
)
    requires
        block_size > 0,
        buf_len as int % block_size as int == 0,
    ensures
        Transfer::planned(direction, block_size, block_id, buf_len).aligned,
        Transfer::planned(direction, block_size, block_id, buf_len).expected * block_size
            == buf_len,
        Transfer::planned(direction, block_size, block_id, buf_len).expected <= u32::MAX
            ==> Transfer::planned(direction, block_size, block_id, buf_len).block_count
            == Transfer::planned(direction, block_size, block_id, buf_len).expected,
{
    lemma_blocks_for_by_cases(buf_len as int, block_size as int);
    lemma_blocks_for_span(buf_len as int, block_size as int);
}

/// A transfer succeeds exactly when the controller reports the expected
/// number of blocks; every other report is an I/O error.
pub proof fn lemma_outcome_by_report(t: Transfer, transferred: u64)
    ensures
        transferred == t.expected <==> t.outcome(transferred) == Ok::<(), DevError>(()),
        transferred != t.expected <==> t.outcome(transferred) == Err::<(), DevError>(DevError::Io),
{
}

} // verus!
