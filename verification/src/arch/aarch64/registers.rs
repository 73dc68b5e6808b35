//! The values that the boot code writes to system registers.
//!
//! The bit fields come from the `aarch64_cpu` crate. Each function below
//! combines the fields of one register write and states the resulting bits,
//! so that the code built on them is verified against plain numbers.

use vstd::prelude::*;
use aarch64_cpu::registers::{
    CNTHCTL_EL2, HCR_EL2, MAIR_EL1, SCR_EL3, SCTLR_EL1, SPSR_EL2, SPSR_EL3, SPSel, TCR_EL1,
};

verus! {

/// The attribute table: slot 0 is device memory without gathering or
/// reordering but with early write acknowledgement (`0x04`), slot 1 is
/// write-back memory that allocates on reads and writes, inner and outer
/// (`0xff`), slot 2 is memory that is not cached, inner and outer (`0x44`).
/// The fields are `MAIR_EL1::Attr0_Device`, `Attr1_Normal_Inner`,
/// `Attr1_Normal_Outer`, `Attr2_Normal_Inner` and `Attr2_Normal_Outer`.
#[verifier::external_body]
pub(crate) fn mair_el1_attributes() -> (v: u64)
    ensures
        v == 0x44_ff_04,
{
    (MAIR_EL1::Attr0_Device::nonGathering_nonReordering_EarlyWriteAck
        + MAIR_EL1::Attr1_Normal_Inner::WriteBack_NonTransient_ReadWriteAlloc
        + MAIR_EL1::Attr1_Normal_Outer::WriteBack_NonTransient_ReadWriteAlloc
        + MAIR_EL1::Attr2_Normal_Inner::NonCacheable
        + MAIR_EL1::Attr2_Normal_Outer::NonCacheable).value
}

/// The translation control fields of one regime, by `TCR_EL1`: walks
/// enabled (`EPD0`, `EPD1`: 0), a granule of 4 KiB (`TG0` at bit 14: 0;
/// `TG1` at bit 30: 2), inner shareable (`SH0` at bit 12, `SH1` at bit 28:
/// 3), write-back walks that allocate on reads and writes (`ORGN0` at bit
/// 10, `IRGN0` at bit 8, `ORGN1` at bit 26, `IRGN1` at bit 24: 1), and
/// physical addresses of 48 bits (`IPS` at bit 32: 5). The region sizes go
/// to `T0SZ` (bits 0 to 5) and `T1SZ` (bits 16 to 21), cut to six bits.
#[verifier::external_body]
pub(crate) fn tcr_el1_fields(t0sz: u64, t1sz: u64) -> (v: u64)
    ensures
        v == 0x5_b500_3500 | (t0sz & 0x3f) | ((t1sz & 0x3f) << 16),
{
    let low = TCR_EL1::EPD0::EnableTTBR0Walks + TCR_EL1::TG0::KiB_4 + TCR_EL1::SH0::Inner
        + TCR_EL1::ORGN0::WriteBack_ReadAlloc_WriteAlloc_Cacheable
        + TCR_EL1::IRGN0::WriteBack_ReadAlloc_WriteAlloc_Cacheable + TCR_EL1::T0SZ.val(t0sz);
    let high = TCR_EL1::EPD1::EnableTTBR1Walks + TCR_EL1::TG1::KiB_4 + TCR_EL1::SH1::Inner
        + TCR_EL1::ORGN1::WriteBack_ReadAlloc_WriteAlloc_Cacheable
        + TCR_EL1::IRGN1::WriteBack_ReadAlloc_WriteAlloc_Cacheable + TCR_EL1::T1SZ.val(t1sz);
    (TCR_EL1::IPS::Bits_48 + low + high).value
}

/// The bits of `SCTLR_EL1` that switch on translation (`M`, bit 0), the data
/// cache (`C`, bit 2) and the instruction cache (`I`, bit 12).
#[verifier::external_body]
pub(crate) fn sctlr_el1_enable() -> (v: u64)
    ensures
        v == 0x1005,
{
    (SCTLR_EL1::M::Enable + SCTLR_EL1::C::Cacheable + SCTLR_EL1::I::Cacheable).value
}

/// `SPSel::SP::ELx`: each exception level uses its own stack pointer.
#[verifier::external_body]
pub(crate) fn spsel_elx() -> (v: u64)
    ensures
        v == 1,
{
    SPSel::SP::ELx.value
}

/// `SCR_EL3` for a non-secure EL2 in AArch64 state with the `HVC`
/// instruction enabled: `NS` (bit 0), `HCE` (bit 8) and `RW` (bit 10).
#[verifier::external_body]
pub(crate) fn scr_el3_lower_aarch64() -> (v: u64)
    ensures
        v == 0x501,
{
    (SCR_EL3::NS::NonSecure + SCR_EL3::HCE::HvcEnabled + SCR_EL3::RW::NextELIsAarch64).value
}

/// `SPSR_EL3` for a return to EL1 on its own stack pointer (`M`: 5) with
/// debug exceptions, `SError`, `IRQ` and `FIQ` masked (bits 9, 8, 7, 6).
#[verifier::external_body]
pub(crate) fn spsr_el3_to_el1h() -> (v: u64)
    ensures
        v == 0x3c5,
{
    (SPSR_EL3::M::EL1h + SPSR_EL3::D::Masked + SPSR_EL3::A::Masked + SPSR_EL3::I::Masked
        + SPSR_EL3::F::Masked).value
}

/// `SPSR_EL2` for a return to EL1 on its own stack pointer (`M`: 5) with
/// debug exceptions, `SError`, `IRQ` and `FIQ` masked (bits 9, 8, 7, 6).
#[verifier::external_body]
pub(crate) fn spsr_el2_to_el1h() -> (v: u64)
    ensures
        v == 0x3c5,
{
    (SPSR_EL2::M::EL1h + SPSR_EL2::D::Masked + SPSR_EL2::A::Masked + SPSR_EL2::I::Masked
        + SPSR_EL2::F::Masked).value
}

/// The bits of `CNTHCTL_EL2` that let EL1 read the physical counter
/// (`EL1PCTEN`, bit 0) and use the physical timer (`EL1PCEN`, bit 1).
#[verifier::external_body]
pub(crate) fn cnthctl_el2_el1_access() -> (v: u64)
    ensures
        v == 0x3,
{
    (CNTHCTL_EL2::EL1PCEN::SET + CNTHCTL_EL2::EL1PCTEN::SET).value
}

/// `HCR_EL2::RW::EL1IsAarch64`: bit 31, EL1 runs in AArch64 state.
#[verifier::external_body]
pub(crate) fn hcr_el2_el1_aarch64() -> (v: u64)
    ensures
        v == 0x8000_0000,
{
    HCR_EL2::RW::EL1IsAarch64.value
}

} // verus!
