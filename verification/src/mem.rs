//! Physical memory ranges, page arithmetic and the page-table planner.

use vstd::prelude::*;

pub mod addr;
pub mod mmu;

verus! {

/// A contiguous extent of physical memory: `size` bytes from `start`.
#[derive(Clone, Copy, Debug, PartialEq, Eq, Structural)]
pub struct MemoryRange {
    pub start: usize,
    pub size: usize,
}

impl MemoryRange {
    /// The first address past the range, as a mathematical integer.
    pub open spec fn end(self) -> int {
        self.start + self.size
    }

    /// Whether `addr` lies inside the range.
    pub open spec fn contains(self, addr: int) -> bool {
        self.start <= addr < self.end()
    }

    /// Whether the two ranges share at least one byte.
    pub open spec fn overlaps(self, other: MemoryRange) -> bool {
        &&& self.size > 0
        &&& other.size > 0
        &&& self.start < other.end()
        &&& other.start < self.end()
    }

    /// The `size` bytes from `start`.
    pub fn new(start: usize, size: usize) -> (r: Self)
        ensures
            r.start == start,
            r.size == size,
    {
        MemoryRange { start, size }
    }

    /// Decides whether two ranges share a byte, without overflowing on
    /// ranges that reach the top of the address space.
    pub fn intersects(&self, other: &MemoryRange) -> (r: bool)
        ensures
            r == self.overlaps(*other),
    {
        let self_below = other.start >= self.start && other.start - self.start >= self.size;
        let other_below = self.start >= other.start && self.start - other.start >= other.size;
        self.size > 0 && other.size > 0 && !self_below && !other_below
    }
}

} // verus!
