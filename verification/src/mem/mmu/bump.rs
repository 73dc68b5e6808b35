//! The allocator of the time before translation is on.

use vstd::prelude::*;

verus! {

/// A bump allocator over a fixed stretch of physical memory. It hands out
/// addresses in rising order and never takes one back.
pub struct BeforeMMUPageAllocator {
    end: usize,
    iter: usize,
}

/// The first multiple of `align` that is not below `addr`.
pub open spec fn round_up(addr: int, align: int) -> int {
    if addr % align == 0 {
        addr
    } else {
        addr - addr % align + align
    }
}

impl BeforeMMUPageAllocator {
    #[verifier::type_invariant]
    spec fn inv(self) -> bool {
        self.iter <= self.end
    }

    /// The address from which the next allocation is served.
    pub closed spec fn cursor(self) -> usize {
        self.iter
    }

    /// The first address that is never handed out.
    pub closed spec fn limit(self) -> usize {
        self.end
    }

    /// An allocator over the `size` bytes at `start`. A stretch that would
    /// run past the last address is cut off there.
    pub fn new(start: usize, size: usize) -> (r: Self)
        ensures
            r.cursor() == start,
            r.limit() == (if start + size <= usize::MAX {
                start + size
            } else {
                usize::MAX as int
            }),
    {
        let end = if size <= usize::MAX - start {
            start + size
        } else {
            usize::MAX
        };
        BeforeMMUPageAllocator { iter: start, end }
    }

    /// Hands out `size` bytes at the first multiple of `align` that the
    /// cursor has not passed, and moves the cursor behind them. Nothing is
    /// handed out, and nothing changes, where that would reach past the
    /// limit or where `align` is zero.
    pub fn allocate(&mut self, size: usize, align: usize) -> (r: Option<usize>)
        ensures
            final(self).limit() == old(self).limit(),
            old(self).cursor() <= old(self).limit(),
            r is Some <==> align > 0 && round_up(old(self).cursor() as int, align as int) + size
                <= old(self).limit(),
            r matches Some(addr) ==> addr == round_up(old(self).cursor() as int, align as int)
                && final(self).cursor() == addr + size,
            r matches Some(addr) ==> addr % align == 0 && old(self).cursor() <= addr < old(
                self,
            ).cursor() + align && addr + size <= old(self).limit(),
            r is None ==> final(self).cursor() == old(self).cursor(),
    {
        proof {
            use_type_invariant(&*self);
        }
        if align == 0 {
            return None;
        }
        proof {
            lemma_round_up(self.iter as int, align as int);
        }
        let rest = self.iter % align;
        let pad = if rest == 0 {
            0
        } else {
            align - rest
        };
        let room = self.end - self.iter;
        if pad > room || size > room - pad {
            return None;
        }
        let addr = self.iter + pad;
        self.iter = addr + size;
        Some(addr)
    }

    /// Takes memory back: nothing happens, memory is never reclaimed here.
    pub fn dealloc(&mut self, addr: usize, size: usize, align: usize)
        ensures
            final(self).cursor() == old(self).cursor(),
            final(self).limit() == old(self).limit(),
    {
    }

    /// The physical address behind a virtual one: the same address, since
    /// translation is off.
    pub fn virt_to_phys(&self, addr: usize) -> (r: usize)
        ensures
            r == addr,
    {
        addr
    }

    /// The virtual address of a physical one: the same address, since
    /// translation is off.
    pub fn phys_to_virt(&self, phys: usize) -> (r: usize)
        ensures
            r == phys,
    {
        phys
    }
}

/// Rounding up gives a multiple of the alignment that lies less than one
/// alignment step above the address.
pub proof fn lemma_round_up(addr: int, align: int)
    requires
        0 <= addr,
        0 < align,
    ensures
        round_up(addr, align) % align == 0,
        addr <= round_up(addr, align) < addr + align,
{
    let r = round_up(addr, align);
    if addr % align != 0 {
        vstd::arithmetic::div_mod::lemma_fundamental_div_mod(addr, align);
        vstd::arithmetic::div_mod::lemma_mod_multiples_basic(addr / align + 1, align);
        assert(r == (addr / align + 1) * align) by (nonlinear_arith)
            requires
                r == addr - addr % align + align,
                addr == align * (addr / align) + addr % align,
        ;
    }
}

} // verus!
