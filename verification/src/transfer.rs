//! Chunked file-transfer engine: block accounting and progress reporting.
//!
//! A transfer copies a source file of known size to a remote sink in blocks of
//! `BLOCK_SIZE` bytes.  The engine itself performs no I/O: the caller reads one
//! block at a time, hands the number of bytes obtained to [`Transfer::on_block`],
//! and receives the cumulative byte count and the percentage to report.  After
//! the last block (immediately, for an empty file) [`Transfer::finish`] yields
//! the final completion report of exactly 100 percent.

use vstd::prelude::*;

verus! {

/// Number of bytes moved per transfer block (kept below typical channel
/// window and packet limits).
pub const BLOCK_SIZE: usize = 32700;

/// Number of blocks needed for `size` bytes: `size / BLOCK_SIZE`, rounded up.
pub open spec fn spec_block_count(size: int) -> int {
    if size % (BLOCK_SIZE as int) == 0 {
        size / (BLOCK_SIZE as int)
    } else {
        size / (BLOCK_SIZE as int) + 1
    }
}

/// Percentage reported after completing block `i` of `n` (`i` is 1-based).
pub open spec fn spec_percent(i: int, n: int) -> int
    recommends
        1 <= i <= n,
{
    i * 100 / n
}

/// The sequence of progress percentages a transfer of `size` bytes reports:
/// one entry per block, and for an empty transfer the single completion
/// report of 100.
pub open spec fn spec_progress_reports(size: int) -> Seq<int> {
    let n = spec_block_count(size);
    if n == 0 {
        seq![100int]
    } else {
        Seq::new(n as nat, |i: int| spec_percent(i + 1, n))
    }
}

/// One progress report: cumulative bytes moved so far and the percentage.
pub struct Progress {
    pub cumulative: u64,
    pub percent: u64,
}

/// Block accounting for one file transfer.
pub struct Transfer {
    /// Total size of the source in bytes.
    pub size: u64,
    /// Blocks completed so far.
    pub blocks_done: u64,
    /// Bytes moved so far.
    pub sent: u64,
    /// Total number of blocks, `spec_block_count(size)`.
    pub n_blocks: u64,
}

impl Transfer {
    /// Internal consistency of the accounting fields.
    pub open spec fn wf(self) -> bool {
        &&& self.size <= u64::MAX - BLOCK_SIZE as u64
        &&& self.n_blocks as int == spec_block_count(self.size as int)
        &&& self.n_blocks as int * BLOCK_SIZE as int <= self.size as int + BLOCK_SIZE as int
        &&& self.blocks_done <= self.n_blocks
        &&& self.sent as int <= self.blocks_done as int * BLOCK_SIZE as int
    }

    /// Plans a transfer of `size` bytes.  The bound on `size` only keeps the
    /// byte accounting inside `u64`.
    pub fn new(size: u64) -> (t: Transfer)
        requires
            size <= u64::MAX - BLOCK_SIZE as u64,
        ensures
            t.wf(),
            t.size == size,
            t.blocks_done == 0,
            t.sent == 0,
            t.n_blocks as int == spec_block_count(size as int),
    {
        let b = BLOCK_SIZE as u64;
        let n_blocks = if size % b == 0 {
            size / b
        } else {
            size / b + 1
        };
        proof {
            assert(n_blocks as int * BLOCK_SIZE as int <= size as int + BLOCK_SIZE as int) by (nonlinear_arith)
                requires
                    n_blocks as int == spec_block_count(size as int),
                    BLOCK_SIZE == 32700,
                    size >= 0,
            {
            }
        }
        Transfer { size, blocks_done: 0, sent: 0, n_blocks }
    }

    /// True once every block has been handed to `on_block`.
    pub fn is_done(&self) -> (r: bool)
        ensures
            r == (self.blocks_done == self.n_blocks),
    {
        self.blocks_done == self.n_blocks
    }

    /// Records one completed block that moved `read` bytes and returns the
    /// progress report for it.
    pub fn on_block(&mut self, read: usize) -> (p: Progress)
        requires
            old(self).wf(),
            old(self).blocks_done < old(self).n_blocks,
            read <= BLOCK_SIZE,
        ensures
            final(self).wf(),
            final(self).size == old(self).size,
            final(self).n_blocks == old(self).n_blocks,
            final(self).blocks_done == old(self).blocks_done + 1,
            final(self).sent == old(self).sent + read,
            p.cumulative == final(self).sent,
            p.percent as int == spec_percent(
                final(self).blocks_done as int,
                final(self).n_blocks as int,
            ),
            p.percent <= 100,
    {
        proof {
            let s0 = old(self).sent as int;
            let d0 = old(self).blocks_done as int;
            let n0 = old(self).n_blocks as int;
            let z0 = old(self).size as int;
            let rd = read as int;
            assert(s0 + rd <= n0 * BLOCK_SIZE as int) by (nonlinear_arith)
                requires
                    s0 <= d0 * BLOCK_SIZE as int,
                    d0 < n0,
                    rd <= BLOCK_SIZE as int,
                    BLOCK_SIZE == 32700,
            {
            }
            assert((d0 + 1) * 100 <= u64::MAX) by (nonlinear_arith)
                requires
                    d0 + 1 <= n0,
                    n0 * BLOCK_SIZE as int <= z0 + BLOCK_SIZE as int,
                    z0 <= u64::MAX - BLOCK_SIZE as int,
                    BLOCK_SIZE == 32700,
            {
            }
        }
        self.blocks_done = self.blocks_done + 1;
        self.sent = self.sent + read as u64;
        let percent = self.blocks_done * 100 / self.n_blocks;
        proof {
            let d1 = self.blocks_done as int;
            let n1 = self.n_blocks as int;
            let s1 = self.sent as int;
            assert(d1 * 100 / n1 <= 100) by (nonlinear_arith)
                requires
                    1 <= d1 <= n1,
            {
            }
            assert(s1 <= d1 * BLOCK_SIZE as int) by (nonlinear_arith)
                requires
                    s1 <= (d1 - 1) * BLOCK_SIZE as int + BLOCK_SIZE as int,
            {
            }
        }
        Progress { cumulative: self.sent, percent }
    }

    /// The final completion report, always exactly 100 percent.  An empty
    /// transfer has no blocks, so this is its only report.
    pub fn finish(&self) -> (p: u64)
        ensures
            p == 100,
    {
        100
    }
}

/// A transfer of `size` bytes makes exactly `spec_block_count(size)` per-block
/// progress reports (one per block of `BLOCK_SIZE` bytes, rounding up), and
/// the last report — the completion report, for an empty transfer — is
/// exactly 100 percent.
pub proof fn lemma_progress_report_count(size: int)
    requires
        size >= 0,
    ensures
        size > 0 ==> spec_progress_reports(size).len() == spec_block_count(size),
        size == 0 ==> spec_block_count(size) == 0 && spec_progress_reports(size) =~= seq![100int],
        spec_progress_reports(size).last() == 100,
{
    let n = spec_block_count(size);
    if size > 0 {
        assert(n > 0);
        assert(spec_progress_reports(size).last() == spec_percent(n, n));
        assert(n * 100 / n == 100) by (nonlinear_arith)
            requires
                n > 0,
        {
        }
    }
}

/// The percentage that [`Transfer::on_block`] reports for block `i` is entry
/// `i - 1` of the transfer's report sequence.
pub proof fn lemma_progress_report_index(size: int, i: int)
    requires
        size > 0,
        1 <= i <= spec_block_count(size),
    ensures
        spec_progress_reports(size)[i - 1] == spec_percent(i, spec_block_count(size)),
{
}

} // verus!
