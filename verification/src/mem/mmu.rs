//! What a mapping asks for, and what can go wrong with it.

use vstd::prelude::*;
use super::MemoryRange;

pub mod boot;
pub mod bump;
pub mod paging;
pub mod table;

verus! {

/// The permissions of a mapping.
#[derive(Clone, Copy, Debug, PartialEq, Eq, Structural)]
pub struct AccessSetting {
    pub read: bool,
    pub write: bool,
    pub execute: bool,
}

impl AccessSetting {
    /// The permissions that are named.
    pub fn new(read: bool, write: bool, execute: bool) -> (r: Self)
        ensures
            r == (AccessSetting { read, write, execute }),
    {
        AccessSetting { read, write, execute }
    }

    /// Every permission that either side grants.
    pub fn union(self, other: AccessSetting) -> (r: Self)
        ensures
            r.read == (self.read || other.read),
            r.write == (self.write || other.write),
            r.execute == (self.execute || other.execute),
    {
        AccessSetting {
            read: self.read || other.read,
            write: self.write || other.write,
            execute: self.execute || other.execute,
        }
    }
}

/// How the caches treat a mapping.
#[derive(Clone, Copy, Debug, PartialEq, Eq, Structural)]
pub enum CacheSetting {
    /// Ordinary write-back memory.
    Normal,
    /// Device registers.
    Device,
    /// Memory that bypasses the caches.
    NonCacheable,
}

/// Where a mapping starts, on both sides, and how it may be used.
#[derive(Clone, Copy, Debug, PartialEq, Eq, Structural)]
pub struct MapConfig {
    pub vaddr: usize,
    pub paddr: usize,
    pub access: AccessSetting,
    pub cache: CacheSetting,
}

impl MapConfig {
    /// A mapping of `paddr` at `vaddr`.
    pub fn new(vaddr: usize, paddr: usize, access: AccessSetting, cache: CacheSetting) -> (r: Self)
        ensures
            r == (MapConfig { vaddr, paddr, access, cache }),
    {
        MapConfig { vaddr, paddr, access, cache }
    }
}

/// Why a table could not be built or extended.
#[derive(Clone, Copy, Debug, PartialEq, Eq, Structural)]
pub enum PagingError {
    /// The configuration is unusable: a range leaves the address space,
    /// a reserved range reaches into the allocator's working region, or
    /// main memory cannot hold what was already taken from it.
    Configuration,
    /// The allocator behind the table ran out of memory.
    AllocationExhausted,
    /// The table already maps part of the requested range.
    AlreadyMapped,
    /// The table was used before it was made active.
    NotInitialized,
    /// The table refused the request for another reason.
    Rejected,
}

/// A stretch of physical memory that has to be reachable from the first
/// instruction after translation is switched on.
#[derive(Clone, Copy, Debug)]
pub struct MemoryReservedRange {
    /// A label for diagnostics.
    pub name: &'static str,
    pub start: usize,
    pub size: usize,
    pub access: AccessSetting,
    pub cache: CacheSetting,
}

impl MemoryReservedRange {
    /// The bytes that the range occupies.
    pub open spec fn range(self) -> MemoryRange {
        MemoryRange { start: self.start, size: self.size }
    }
}

/// One request to the page table: map `size` bytes as `config` says.
#[derive(Clone, Copy, Debug)]
pub struct MapRegion {
    /// A label for diagnostics.
    pub name: &'static str,
    pub config: MapConfig,
    pub size: usize,
    /// Whether the table may use block mappings.
    pub allow_huge: bool,
    /// Whether the translation caches are invalidated for the range once it
    /// is mapped.
    pub flush: bool,
    /// Whether a failure of this request stops the build.
    pub required: bool,
}

impl MapRegion {
    /// Neither side of the mapping runs past the last address.
    pub open spec fn fits(self) -> bool {
        &&& self.config.vaddr + self.size <= usize::MAX
        &&& self.config.paddr + self.size <= usize::MAX
    }

    /// Decides whether the mapping stays inside the address space.
    pub fn is_within_address_space(&self) -> (r: bool)
        ensures
            r == self.fits(),
    {
        self.size <= usize::MAX - self.config.vaddr && self.size <= usize::MAX
            - self.config.paddr
    }

    /// Whether the mapping translates `vaddr`.
    pub open spec fn covers(self, vaddr: int) -> bool {
        self.config.vaddr <= vaddr < self.config.vaddr + self.size
    }

    /// The physical address that the mapping gives to `vaddr`.
    pub open spec fn phys_of(self, vaddr: int) -> int {
        self.config.paddr + (vaddr - self.config.vaddr)
    }

    /// Whether every address of `[vaddr, vaddr + size)` is translated by this
    /// mapping to the matching address of `[paddr, paddr + size)`, with the
    /// attributes of `other`.
    pub open spec fn serves(self, other: MapRegion) -> bool {
        &&& self.config.vaddr <= other.config.vaddr
        &&& other.config.vaddr + other.size <= self.config.vaddr + self.size
        &&& self.phys_of(other.config.vaddr as int) == other.config.paddr
        &&& self.config.access == other.config.access
        &&& self.config.cache == other.config.cache
    }
}

} // verus!
