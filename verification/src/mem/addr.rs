//! Page-granular address arithmetic.

use vstd::prelude::*;

verus! {

/// The platform page size in bytes.
pub const PAGE_SIZE: usize = 0x1000;

/// The page-aligned address at or below `addr`.
pub open spec fn page_floor(addr: int) -> int {
    addr - addr % 0x1000
}

/// The page-aligned address at or above `addr`.
pub open spec fn page_ceil(addr: int) -> int {
    if addr % 0x1000 == 0 {
        addr
    } else {
        addr - addr % 0x1000 + 0x1000
    }
}

/// `memory_addr::align_down_4k` clears the low twelve bits of `addr`. Its
/// documentation promises the greatest multiple of 4096 that is not above
/// `addr`; the three clauses say exactly that.
pub assume_specification[ memory_addr::align_down_4k ](addr: usize) -> (r: usize)
    ensures
        r <= addr,
        r % 0x1000 == 0,
        addr - r < 0x1000,
;

/// `memory_addr::align_up_4k` adds 4096, takes one off and clears the low
/// twelve bits. The addition overflows in the last page of the address
/// space, so those inputs are excluded; elsewhere the result is the smallest
/// multiple of 4096 that is not below `addr`.
pub assume_specification[ memory_addr::align_up_4k ](addr: usize) -> (r: usize)
    requires
        addr + 0x1000 <= usize::MAX,
    ensures
        r >= addr,
        r % 0x1000 == 0,
        r - addr < 0x1000,
;

/// Rounds an address down to the start of its page.
pub fn page_align_down(addr: usize) -> (r: usize)
    ensures
        r == page_floor(addr as int),
        r <= addr < r + PAGE_SIZE,
        r % PAGE_SIZE == 0,
{
    memory_addr::align_down_4k(addr)
}

/// Rounds a size up to whole pages. `None` when the rounded value does not
/// fit in a machine word.
pub fn page_align_up(size: usize) -> (r: Option<usize>)
    ensures
        r is Some <==> page_ceil(size as int) <= usize::MAX,
        r matches Some(v) ==> v == page_ceil(size as int),
{
    if size > usize::MAX - PAGE_SIZE {
        if size % PAGE_SIZE == 0 {
            Some(size)
        } else {
            None
        }
    } else {
        Some(memory_addr::align_up_4k(size))
    }
}

} // verus!
