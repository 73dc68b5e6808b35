//! The way down to EL1.
//!
//! A core may come out of reset at EL3, EL2 or EL1. The kernel runs at EL1,
//! so a core that starts higher prepares the lower levels and returns into
//! EL1 at the kernel's entry point.

use vstd::prelude::*;
use super::registers::{
    cnthctl_el2_el1_access, hcr_el2_el1_aarch64, scr_el3_lower_aarch64, spsel_elx,
    spsr_el2_to_el1h, spsr_el3_to_el1h,
};

verus! {

/// A system register that the drop to EL1 touches.
#[derive(Clone, Copy, Debug, PartialEq, Eq, Structural)]
pub enum SysReg {
    SPSel,
    SpEl0,
    SpEl1,
    ScrEl3,
    SpsrEl3,
    ElrEl3,
    CnthctlEl2,
    CntvoffEl2,
    HcrEl2,
    SpsrEl2,
    ElrEl2,
}

/// One step of the drop to EL1.
#[derive(Clone, Copy, Debug, PartialEq, Eq, Structural)]
pub enum ElStep {
    /// Write `value` to the register.
    Write { reg: SysReg, value: u64 },
    /// Set the bits of `bits` in the register and leave the others.
    SetBits { reg: SysReg, bits: u64 },
    /// Write the address of the boot entry point to the register.
    WriteEntry { reg: SysReg },
    /// Write the current stack pointer to the register.
    WriteStackPointer { reg: SysReg },
    /// Put the saved boot argument back into the first argument register.
    RestoreArgument,
    /// Return from the exception, into the level that was prepared.
    ExceptionReturn,
}

/// What every core does first: each level gets its own stack pointer, and
/// the one of EL0 is cleared.
pub open spec fn common_steps() -> Seq<ElStep> {
    seq![
        ElStep::Write { reg: SysReg::SPSel, value: 1 },
        ElStep::Write { reg: SysReg::SpEl0, value: 0 },
    ]
}

/// What a core at EL3 does on top: EL2 is non-secure, runs in AArch64
/// state and may use `HVC`; the return goes to EL1 with all interrupts
/// masked, at the boot entry point.
pub open spec fn el3_steps() -> Seq<ElStep> {
    seq![
        ElStep::Write { reg: SysReg::ScrEl3, value: 0x501 },
        ElStep::Write { reg: SysReg::SpsrEl3, value: 0x3c5 },
        ElStep::WriteEntry { reg: SysReg::ElrEl3 },
    ]
}

/// What a core at EL2 or above does last: EL1 gets the timers without
/// traps or offset, runs in AArch64 state and inherits the stack pointer;
/// the return goes to EL1 with all interrupts masked, at the boot entry
/// point.
pub open spec fn el2_steps() -> Seq<ElStep> {
    seq![
        ElStep::SetBits { reg: SysReg::CnthctlEl2, bits: 0x3 },
        ElStep::Write { reg: SysReg::CntvoffEl2, value: 0 },
        ElStep::Write { reg: SysReg::HcrEl2, value: 0x8000_0000 },
        ElStep::Write { reg: SysReg::SpsrEl2, value: 0x3c5 },
        ElStep::WriteStackPointer { reg: SysReg::SpEl1 },
        ElStep::RestoreArgument,
        ElStep::WriteEntry { reg: SysReg::ElrEl2 },
        ElStep::ExceptionReturn,
    ]
}

/// The steps that take a core from exception level `current_el` to EL1.
pub open spec fn el1_steps(current_el: u64) -> Seq<ElStep> {
    if current_el >= 2 {
        if current_el == 3 {
            common_steps() + el3_steps() + el2_steps()
        } else {
            common_steps() + el2_steps()
        }
    } else {
        common_steps()
    }
}

/// Plans the drop from exception level `current_el` to EL1. A core that is
/// at EL1 already only sets up its stack pointers.
pub fn switch_to_el1(current_el: u64) -> (steps: Vec<ElStep>)
    ensures
        steps@ == el1_steps(current_el),
{
    let mut steps: Vec<ElStep> = Vec::new();
    steps.push(ElStep::Write { reg: SysReg::SPSel, value: spsel_elx() });
    steps.push(ElStep::Write { reg: SysReg::SpEl0, value: 0 });
    if current_el >= 2 {
        if current_el == 3 {
            steps.push(ElStep::Write { reg: SysReg::ScrEl3, value: scr_el3_lower_aarch64() });
            steps.push(ElStep::Write { reg: SysReg::SpsrEl3, value: spsr_el3_to_el1h() });
            steps.push(ElStep::WriteEntry { reg: SysReg::ElrEl3 });
        }
        steps.push(ElStep::SetBits { reg: SysReg::CnthctlEl2, bits: cnthctl_el2_el1_access() });
        steps.push(ElStep::Write { reg: SysReg::CntvoffEl2, value: 0 });
        steps.push(ElStep::Write { reg: SysReg::HcrEl2, value: hcr_el2_el1_aarch64() });
        steps.push(ElStep::Write { reg: SysReg::SpsrEl2, value: spsr_el2_to_el1h() });
        steps.push(ElStep::WriteStackPointer { reg: SysReg::SpEl1 });
        steps.push(ElStep::RestoreArgument);
        steps.push(ElStep::WriteEntry { reg: SysReg::ElrEl2 });
        steps.push(ElStep::ExceptionReturn);
    }
    steps
}

} // verus!
