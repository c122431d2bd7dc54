//! Size-class indexing for a two-level segregated-fit (TLSF) allocator.
//!
//! Given a block or request size, the mapping engine computes a pair of
//! indices `(fl, sl)` naming the segregated free list that a block of that
//! size belongs to: `fl` selects a power-of-two size bracket, `sl` a linear
//! subdivision within it. Sizes below [`SIZE_THRESHOLD`] are classified
//! linearly instead, since power-of-two brackets would be too coarse there.
//!
//! The supporting utilities — bit scans, alignment rounding, and a
//! word-granularity copy — are what the mapping engine and the surrounding
//! allocator's block bookkeeping rest on.

use vstd::prelude::*;

pub mod align;
pub mod bits;
pub mod copying;
pub mod mapping;

verus! {

/// Minimum block alignment in bytes; every classified size is a multiple of it.
pub const ALIGN_SIZE: u8 = 4;

/// Base-two logarithm of `ALIGN_SIZE`.
pub const ALIGN_SIZE_LOG2: u8 = 2;

/// Number of second-level subdivisions per first-level bracket; a power of two.
pub const SLI: u8 = 16;

/// Base-two logarithm of `SLI`.
pub const SLI_LOG2: u8 = 4;

/// Sizes below this bound are classified linearly, one class per alignment
/// unit; equal to `SLI * ALIGN_SIZE`, so the linear classes exactly fill the
/// second-level range of the first-level class 0.
pub const SIZE_THRESHOLD: u16 = 64;

/// Position of the highest set bit of `SIZE_THRESHOLD`. First-level indices
/// of the bracketed region are re-based by `FLI_SHIFT - 1` so that they start
/// at 1, directly after the linear region's class 0.
pub const FLI_SHIFT: u8 = 6;

/// Number of first-level classes: class 0 for the linear region, plus one
/// per power-of-two bracket from `SIZE_THRESHOLD` up to `MAX_BLOCK_SIZE`.
pub const FLI: u8 = 11;

/// Largest size accepted by the insert mapping: the largest multiple of
/// `ALIGN_SIZE` that fits in sixteen bits.
pub const MAX_BLOCK_SIZE: u16 = 65532;

/// Largest size accepted by the search mapping; kept below `MAX_BLOCK_SIZE`
/// so that the search path's round-up to the top of a subdivision cannot
/// overflow sixteen bits.
pub const MAX_REQUEST_SIZE: u16 = 63488;

/// Coordinates of one segregated free list: a first-level bracket `fl` and a
/// second-level subdivision `sl` within it. A pure value with no ownership.
#[derive(Clone, Copy, Debug, PartialEq, Eq, Structural)]
pub struct Index {
    /// First-level index, below [`FLI`].
    pub fl: u8,
    /// Second-level index, below [`SLI`].
    pub sl: u8,
}

impl Index {
    /// Every index the mapping engine produces lies within the free-list
    /// storage addressed by `(fl, sl)`.
    pub open spec fn wf(self) -> bool {
        self.fl < FLI && self.sl < SLI
    }
}

} // verus!
