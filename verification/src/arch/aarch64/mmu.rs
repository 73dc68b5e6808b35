//! Switching translation on.
//!
//! The steps have a fixed order: the attribute table and the translation
//! control register are written and a barrier makes them take effect, both
//! translation base registers receive the root of the boot table, then
//! translation and the caches are enabled, the stack pointer and the return
//! address move up by the virtual offset, and the translation caches are
//! cleared.

use vstd::prelude::*;
use super::registers::{mair_el1_attributes, sctlr_el1_enable, tcr_el1_fields};
use crate::mem::mmu::boot::{new_boot_table, BootTableConfig};
use crate::mem::mmu::table::PageTableHandle;
use crate::mem::mmu::{CacheSetting, PagingError};

verus! {

/// The value of the attribute table: device memory in slot 0, write-back
/// memory in slot 1, uncached memory in slot 2.
pub const MAIR_VALUE: u64 = 0x44_ff_04;

/// The value of the translation control register: both regimes walk tables
/// of 4 KiB pages over 48 bits of virtual address, inner shareable and
/// write-back, with 48 bits of physical address.
pub const TCR_VALUE: u64 = 0x5_b510_3510;

/// The bits of the system control register that enable translation, the
/// data cache and the instruction cache.
pub const SCTLR_ENABLE: u64 = 0x1005;

/// The size field of both translation regimes: 64 less the 48 bits of a
/// virtual address.
pub const REGION_SIZE_FIELD: u64 = 16;

/// The slot of the attribute table that a cache policy uses.
pub open spec fn attr_index(cache: CacheSetting) -> u64 {
    match cache {
        CacheSetting::Device => 0,
        CacheSetting::Normal => 1,
        CacheSetting::NonCacheable => 2,
    }
}

/// The attribute byte that the architecture defines for a cache policy.
pub open spec fn attr_encoding(cache: CacheSetting) -> u64 {
    match cache {
        CacheSetting::Device => 0x04,
        CacheSetting::Normal => 0xff,
        CacheSetting::NonCacheable => 0x44,
    }
}

/// The byte in slot `index` of an attribute table.
pub open spec fn mair_slot(mair: u64, index: u64) -> u64 {
    (mair >> (8 * index)) & 0xff
}

/// The field of `bits` bits at bit `low` of a register value.
pub open spec fn field(value: u64, low: u64, bits: u64) -> u64 {
    (value >> low) & (((1u64 << bits) - 1) as u64)
}

/// One step of switching translation on.
#[derive(Clone, Copy, Debug, PartialEq, Eq, Structural)]
pub enum MmuStep {
    /// Write the attribute table.
    WriteMair(u64),
    /// Write the translation control register.
    WriteTcr(u64),
    /// Wait until the writes before have taken effect.
    Barrier,
    /// Load the base of the high regime.
    WriteTtbr1(usize),
    /// Load the base of the low regime.
    WriteTtbr0(usize),
    /// Set these bits in the system control register.
    SetSctlr(u64),
    /// Add this offset to the stack pointer and to the return address.
    Relocate(usize),
    /// Drop every cached translation.
    FlushTlb,
}

/// The steps that switch translation on with the table at `root`, in order.
pub open spec fn enable_steps(root: usize, va_offset: usize) -> Seq<MmuStep> {
    seq![
        MmuStep::WriteMair(MAIR_VALUE),
        MmuStep::WriteTcr(TCR_VALUE),
        MmuStep::Barrier,
        MmuStep::WriteTtbr1(root),
        MmuStep::WriteTtbr0(root),
        MmuStep::SetSctlr(SCTLR_ENABLE),
        MmuStep::Relocate(va_offset),
        MmuStep::FlushTlb,
        MmuStep::Barrier,
    ]
}

/// The attribute table.
pub fn mair_value() -> (v: u64)
    ensures
        v == MAIR_VALUE,
{
    mair_el1_attributes()
}

/// The translation control value.
pub fn tcr_value() -> (v: u64)
    ensures
        v == TCR_VALUE,
{
    let v = tcr_el1_fields(REGION_SIZE_FIELD, REGION_SIZE_FIELD);
    assert(0x5_b500_3500u64 | (16u64 & 0x3f) | ((16u64 & 0x3f) << 16) == 0x5_b510_3510u64)
        by (bit_vector);
    v
}

/// The slot of the attribute table that a cache policy uses.
pub fn attribute_index(cache: CacheSetting) -> (r: u64)
    ensures
        r == attr_index(cache),
        mair_slot(MAIR_VALUE, r) == attr_encoding(cache),
{
    proof {
        lemma_attribute_table(cache);
    }
    match cache {
        CacheSetting::Device => 0,
        CacheSetting::Normal => 1,
        CacheSetting::NonCacheable => 2,
    }
}

/// The attribute table holds, in the slot of each cache policy, the byte
/// that the architecture defines for it.
pub proof fn lemma_attribute_table(cache: CacheSetting)
    ensures
        mair_slot(MAIR_VALUE, attr_index(cache)) == attr_encoding(cache),
{
    assert((0x44_ff_04u64 >> (8u64 * 0)) & 0xff == 0x04) by (bit_vector);
    assert((0x44_ff_04u64 >> (8u64 * 1)) & 0xff == 0xff) by (bit_vector);
    assert((0x44_ff_04u64 >> (8u64 * 2)) & 0xff == 0x44) by (bit_vector);
}

/// The translation control value, field by field: both regimes cover 48
/// bits of virtual address with pages of 4 KiB, walk their tables as inner
/// shareable write-back memory, and neither has its walks disabled;
/// physical addresses have 48 bits.
pub proof fn lemma_translation_control()
    ensures
        field(TCR_VALUE, 0, 6) == 16,
        field(TCR_VALUE, 7, 1) == 0,
        field(TCR_VALUE, 8, 2) == 1,
        field(TCR_VALUE, 10, 2) == 1,
        field(TCR_VALUE, 12, 2) == 3,
        field(TCR_VALUE, 14, 2) == 0,
        field(TCR_VALUE, 16, 6) == 16,
        field(TCR_VALUE, 23, 1) == 0,
        field(TCR_VALUE, 24, 2) == 1,
        field(TCR_VALUE, 26, 2) == 1,
        field(TCR_VALUE, 28, 2) == 3,
        field(TCR_VALUE, 30, 2) == 2,
        field(TCR_VALUE, 32, 3) == 5,
{
    assert((0x5_b510_3510u64 >> 0) & (((1u64 << 6) - 1) as u64) == 16) by (bit_vector);
    assert((0x5_b510_3510u64 >> 7) & (((1u64 << 1) - 1) as u64) == 0) by (bit_vector);
    assert((0x5_b510_3510u64 >> 8) & (((1u64 << 2) - 1) as u64) == 1) by (bit_vector);
    assert((0x5_b510_3510u64 >> 10) & (((1u64 << 2) - 1) as u64) == 1) by (bit_vector);
    assert((0x5_b510_3510u64 >> 12) & (((1u64 << 2) - 1) as u64) == 3) by (bit_vector);
    assert((0x5_b510_3510u64 >> 14) & (((1u64 << 2) - 1) as u64) == 0) by (bit_vector);
    assert((0x5_b510_3510u64 >> 16) & (((1u64 << 6) - 1) as u64) == 16) by (bit_vector);
    assert((0x5_b510_3510u64 >> 23) & (((1u64 << 1) - 1) as u64) == 0) by (bit_vector);
    assert((0x5_b510_3510u64 >> 24) & (((1u64 << 2) - 1) as u64) == 1) by (bit_vector);
    assert((0x5_b510_3510u64 >> 26) & (((1u64 << 2) - 1) as u64) == 1) by (bit_vector);
    assert((0x5_b510_3510u64 >> 28) & (((1u64 << 2) - 1) as u64) == 3) by (bit_vector);
    assert((0x5_b510_3510u64 >> 30) & (((1u64 << 2) - 1) as u64) == 2) by (bit_vector);
    assert((0x5_b510_3510u64 >> 32) & (((1u64 << 3) - 1) as u64) == 5) by (bit_vector);
}

/// The translation unit of one core.
pub struct MMU {
    va_offset: usize,
}

impl MMU {
    /// The offset that the core runs with.
    pub closed spec fn offset(self) -> usize {
        self.va_offset
    }

    /// A unit on which translation is off.
    pub fn new() -> (r: MMU)
        ensures
            r.offset() == 0,
    {
        MMU { va_offset: 0 }
    }

    /// The first step of switching translation on: plans the boot table and
    /// takes over the configuration's offset. An unusable configuration is
    /// refused and changes nothing.
    pub fn enable(&mut self, config: BootTableConfig) -> (r: Result<PageTableHandle, PagingError>)
        ensures
            r is Ok <==> config.valid(),
            r matches Err(e) ==> e == PagingError::Configuration,
            r is Err ==> final(self).offset() == old(self).offset(),
            r matches Ok(table) ==> table@ == config.table() && table@.wf(),
            r is Ok ==> final(self).offset() == config.va_offset,
    {
        let table = new_boot_table(config)?;
        self.va_offset = config.va_offset;
        Ok(table)
    }

    /// The remaining steps, once the boot table stands at `root`.
    pub fn program(&self, root: usize) -> (steps: Vec<MmuStep>)
        ensures
            steps@ == enable_steps(root, self.offset()),
    {
        let mut steps: Vec<MmuStep> = Vec::new();
        steps.push(MmuStep::WriteMair(mair_value()));
        steps.push(MmuStep::WriteTcr(tcr_value()));
        steps.push(MmuStep::Barrier);
        steps.push(MmuStep::WriteTtbr1(root));
        steps.push(MmuStep::WriteTtbr0(root));
        steps.push(MmuStep::SetSctlr(sctlr_el1_enable()));
        steps.push(MmuStep::Relocate(self.va_offset));
        steps.push(MmuStep::FlushTlb);
        steps.push(MmuStep::Barrier);
        steps
    }

    /// The offset that the core runs with.
    pub fn va_offset(&self) -> (r: usize)
        ensures
            r == self.offset(),
    {
        self.va_offset
    }
}

} // verus!
