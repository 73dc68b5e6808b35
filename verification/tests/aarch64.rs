use sparreal_kernel::arch::aarch64::boot::{switch_to_el1, ElStep, SysReg};
use sparreal_kernel::arch::aarch64::context::{
    cpu_context_set_pc, cpu_context_set_sp, cpu_context_size, cpu_context_sp, restore_pc_is_elr,
    restore_pc_is_lr, store_pc_is_elr, store_pc_is_lr, tcb_switch, Context, Cpu, Stack,
    TaskControlBlock,
};
use sparreal_kernel::arch::aarch64::mmu::{attribute_index, mair_value, tcr_value, MmuStep, MMU};
use sparreal_kernel::mem::mmu::boot::BootTableConfig;
use sparreal_kernel::mem::mmu::{CacheSetting, PagingError};
use sparreal_kernel::mem::MemoryRange;

#[test]
fn register_values() {
    assert_eq!(mair_value(), 0x44_ff_04);
    assert_eq!(tcr_value(), 0x5_b510_3510);
    assert_eq!(attribute_index(CacheSetting::Device), 0);
    assert_eq!(attribute_index(CacheSetting::Normal), 1);
    assert_eq!(attribute_index(CacheSetting::NonCacheable), 2);
    assert_eq!((mair_value() >> 8) & 0xff, 0xff);
}

fn config(va_offset: usize) -> BootTableConfig {
    BootTableConfig {
        main_memory: MemoryRange::new(0x4000_0000, 0x1000_0000),
        main_memory_heap_offset: 0x20_0000,
        hart_stack_size: 0x20_0000,
        reserved_memory: [None; 24],
        va_offset,
    }
}

#[test]
fn mmu_enable_steps_in_order() {
    let mut mmu = MMU::new();
    assert_eq!(mmu.va_offset(), 0);
    let table = mmu.enable(config(0xFFFF_0000_0000_0000));
    assert!(table.is_ok());
    assert_eq!(mmu.va_offset(), 0xFFFF_0000_0000_0000);
    assert_eq!(
        mmu.program(0x4020_0000),
        vec![
            MmuStep::WriteMair(0x44_ff_04),
            MmuStep::WriteTcr(0x5_b510_3510),
            MmuStep::Barrier,
            MmuStep::WriteTtbr1(0x4020_0000),
            MmuStep::WriteTtbr0(0x4020_0000),
            MmuStep::SetSctlr(0x1005),
            MmuStep::Relocate(0xFFFF_0000_0000_0000),
            MmuStep::FlushTlb,
            MmuStep::Barrier,
        ]
    );
}

#[test]
fn mmu_keeps_its_offset_when_the_configuration_is_refused() {
    let mut mmu = MMU::new();
    mmu.enable(config(0x1000)).unwrap();
    let mut bad = config(0x2000);
    bad.hart_stack_size = 0x2000_0000;
    assert!(matches!(mmu.enable(bad), Err(PagingError::Configuration)));
    assert_eq!(mmu.va_offset(), 0x1000);
}

fn write(reg: SysReg, value: u64) -> ElStep {
    ElStep::Write { reg, value }
}

#[test]
fn drop_to_el1_from_each_level() {
    let common = vec![write(SysReg::SPSel, 1), write(SysReg::SpEl0, 0)];
    let el2 = vec![
        ElStep::SetBits { reg: SysReg::CnthctlEl2, bits: 0x3 },
        write(SysReg::CntvoffEl2, 0),
        write(SysReg::HcrEl2, 0x8000_0000),
        write(SysReg::SpsrEl2, 0x3c5),
        ElStep::WriteStackPointer { reg: SysReg::SpEl1 },
        ElStep::RestoreArgument,
        ElStep::WriteEntry { reg: SysReg::ElrEl2 },
        ElStep::ExceptionReturn,
    ];
    let el3 = vec![
        write(SysReg::ScrEl3, 0x501),
        write(SysReg::SpsrEl3, 0x3c5),
        ElStep::WriteEntry { reg: SysReg::ElrEl3 },
    ];
    assert_eq!(switch_to_el1(0), common);
    assert_eq!(switch_to_el1(1), common);
    assert_eq!(switch_to_el1(2), [common.clone(), el2.clone()].concat());
    assert_eq!(switch_to_el1(3), [common.clone(), el3, el2.clone()].concat());
    assert_eq!(switch_to_el1(4), [common, el2].concat());
}

fn numbered_cpu(sp: u64) -> Cpu {
    let mut x = [0u64; 31];
    for (i, r) in x.iter_mut().enumerate() {
        *r = 0x100 + i as u64;
    }
    Cpu { x, sp, spsr: 0x3c5, elr: 0xe000 }
}

#[test]
fn context_layout_on_the_stack() {
    let mut stack = Stack::new(0x8000, vec![0xdead; 64]);
    let mut cpu = numbered_cpu(0x8000 + 64 * 8);
    assert!(store_pc_is_lr(&mut cpu, &mut stack));
    let at = 0x8000 + 64 * 8 - 272;
    assert_eq!(cpu.sp, at);
    assert_eq!(cpu.x[9], at);
    assert_eq!(cpu.x[10], 0x100 + 30);
    let first = 64 - 34;
    assert!(stack.words[..first].iter().all(|w| *w == 0xdead));
    assert_eq!(stack.words[first], at);
    assert_eq!(stack.words[first + 1], 0x100 + 30);
    assert_eq!(stack.words[first + 2], 0x3c5);
    for i in 0..31 {
        assert_eq!(stack.words[first + 3 + i], 0x100 + i as u64);
    }
    let ctx = stack.read_context(at).unwrap();
    assert_eq!(cpu_context_sp(&ctx), at);
    assert_eq!(ctx.pc, 0x11e);
    assert_eq!(ctx.lr, 0x11e);
    assert_eq!(ctx.spsr, 0x3c5);
    assert_eq!(ctx.x[0], 0x100);
    assert_eq!(ctx.x[29], 0x11d);
    assert_eq!(cpu_context_size(), 272);
    assert_eq!(cpu_context_size(), std::mem::size_of::<Context>());
}

#[test]
fn save_and_restore_round_trip() {
    let mut stack = Stack::new(0x8000, vec![0; 40]);
    let before = numbered_cpu(0x8000 + 40 * 8);
    let mut cpu = before;
    assert!(store_pc_is_lr(&mut cpu, &mut stack));
    cpu.x = [0; 31];
    cpu.spsr = 0;
    assert!(restore_pc_is_lr(&mut cpu, &stack));
    assert_eq!(cpu.x, before.x);
    assert_eq!(cpu.sp, before.sp);
    assert_eq!(cpu.spsr, before.spsr);
    assert_eq!(cpu.x[30], before.x[30]);
}

#[test]
fn exception_save_and_restore_round_trip() {
    let mut stack = Stack::new(0x8000, vec![0; 40]);
    let before = numbered_cpu(0x8000 + 40 * 8);
    let mut cpu = before;
    assert!(store_pc_is_elr(&mut cpu, &mut stack));
    assert_eq!(stack.read_context(cpu.sp).unwrap().pc, 0xe000);
    cpu.x = [0; 31];
    cpu.elr = 0;
    assert!(restore_pc_is_elr(&mut cpu, &stack));
    assert_eq!(cpu.x, before.x);
    assert_eq!(cpu.elr, 0xe000);
    assert_eq!(cpu.sp, before.sp);
}

#[test]
fn save_needs_room_and_restore_needs_a_context() {
    let mut stack = Stack::new(0x8000, vec![7; 40]);
    let mut cpu = numbered_cpu(0x8000 + 33 * 8);
    assert!(!store_pc_is_lr(&mut cpu, &mut stack));
    assert_eq!(cpu.sp, 0x8000 + 33 * 8);
    assert!(stack.words.iter().all(|w| *w == 7));
    let mut low = numbered_cpu(100);
    assert!(!store_pc_is_lr(&mut low, &mut stack));
    let mut odd = numbered_cpu(0x8000 + 7 * 8 + 4);
    assert!(!restore_pc_is_lr(&mut odd, &stack));
    let mut late = numbered_cpu(0x8000 + 7 * 8);
    assert!(!restore_pc_is_lr(&mut late, &stack));
    let mut fits = numbered_cpu(0x8000 + 6 * 8);
    assert!(restore_pc_is_lr(&mut fits, &stack));
    assert_eq!(fits.x, [7; 31]);
    assert_eq!(stack.frame_index(0x8000 + 6 * 8), Some(6));
    assert_eq!(stack.frame_index(0x7ff8), None);
}

#[test]
fn new_task_starts_at_its_entry() {
    let mut stack = Stack::new(0x2_0000, vec![0; 64]);
    let at = 0x2_0000 + 30 * 8;
    let mut ctx = stack.read_context(at).unwrap();
    cpu_context_set_sp(&mut ctx, at);
    cpu_context_set_pc(&mut ctx, 0x4008_0000);
    assert_eq!(ctx.pc, 0x4008_0000);
    assert_eq!(ctx.lr, 0x4008_0000);
    assert!(stack.write_context(at, &ctx));
    assert!(!stack.write_context(at + 8, &ctx));
    let mut cpu = numbered_cpu(at);
    assert!(restore_pc_is_lr(&mut cpu, &stack));
    assert_eq!(cpu.x[30], 0x4008_0000);
    assert_eq!(cpu.sp, 0x2_0000 + 64 * 8);
}

#[test]
fn switch_there_and_back() {
    let mut a = TaskControlBlock { sp: 0, stack: Stack::new(0x1_0000, vec![0; 128]) };
    let mut b = TaskControlBlock { sp: 0, stack: Stack::new(0x2_0000, vec![0; 128]) };
    let mut entry = b.stack.read_context(0x2_0000 + 94 * 8).unwrap();
    cpu_context_set_sp(&mut entry, 0x2_0000 + 94 * 8);
    cpu_context_set_pc(&mut entry, 0xb000);
    assert!(b.stack.write_context(0x2_0000 + 94 * 8, &entry));
    b.sp = 0x2_0000 + 94 * 8;

    let before = numbered_cpu(0x1_0000 + 100 * 8);
    let mut cpu = before;
    assert!(tcb_switch(&mut cpu, &mut a, &b));
    assert_eq!(a.sp, before.sp - 272);
    assert_eq!(cpu.x[30], 0xb000);
    assert_eq!(cpu.sp, 0x2_0000 + 128 * 8);

    cpu.x[5] = 55;
    assert!(tcb_switch(&mut cpu, &mut b, &a));
    assert_eq!(cpu.x, before.x);
    assert_eq!(cpu.sp, before.sp);
    assert_eq!(cpu.spsr, before.spsr);
    assert_eq!(b.sp, 0x2_0000 + 128 * 8 - 272);
    assert_eq!(b.stack.read_context(b.sp).unwrap().x[5], 55);
}

#[test]
fn switch_that_cannot_complete_changes_nothing() {
    let mut a = TaskControlBlock { sp: 0, stack: Stack::new(0x1_0000, vec![1; 64]) };
    let b = TaskControlBlock { sp: 0x2_0004, stack: Stack::new(0x2_0000, vec![2; 64]) };
    let before = numbered_cpu(0x1_0000 + 64 * 8);
    let mut cpu = before;
    assert!(!tcb_switch(&mut cpu, &mut a, &b));
    assert_eq!(cpu.x, before.x);
    assert_eq!(cpu.sp, before.sp);
    assert_eq!(a.sp, 0);
    assert!(a.stack.words.iter().all(|w| *w == 1));
}

#[test]
fn context_dump_has_rows_of_four() {
    let mut x = [0u64; 30];
    for (i, r) in x.iter_mut().enumerate() {
        *r = (i as u64) << (2 * i);
    }
    x[29] = u64::MAX;
    let ctx = Context { sp: 0x4100_0000, pc: 0x4008_0123, spsr: 0x3c5, x, lr: 0 };
    let mut expected = String::from("Context:\n");
    for (r, chunk) in x.chunks(4).enumerate() {
        for (i, v) in chunk.iter().enumerate() {
            expected += &format!("  x{:<3}: {:#18x}", r * 4 + i, v);
        }
        expected += "\n";
    }
    expected += &format!("  lr  : {:#x}\n", ctx.lr);
    expected += &format!("  spsr: {:#18x}\n", ctx.spsr);
    expected += &format!("  pc  : {:#x}\n", ctx.pc);
    expected += &format!("  sp  : {:#x}\n", ctx.sp);
    assert_eq!(ctx.describe(), expected);
    assert!(ctx.describe().contains("  x0  :                0x0  x1  :                0x4"));
    assert!(ctx.describe().contains("  x28 : "));
    assert!(ctx.describe().contains("  x29 : 0xffffffffffffffff\n  lr  : 0x0\n"));
    assert!(ctx.describe().ends_with("  spsr:              0x3c5\n  pc  : 0x40080123\n  sp  : 0x41000000\n"));
}
