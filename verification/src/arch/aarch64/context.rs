//! A task's registers on its stack, and the switch between two tasks.
//!
//! A task that gives up the processor pushes its registers onto its own
//! stack and leaves the resulting stack pointer in its control block. A
//! task that takes over loads its stack pointer from there and pops its
//! registers. The block on the stack is a [`Context`]: 34 words, at the
//! lowest address the stack pointer, then the program counter and the saved
//! status, then `x0` to `x29`, then the link register.

use vstd::prelude::*;
use vstd::string::{StrSliceExecFns, StringExecFns};
use crate::util::boot::{
    blanks, boot_debug_hex, decimal_digits, hex_text, write_blanks, write_decimal,
};

verus! {

/// The number of 64-bit words of a saved context.
pub const CONTEXT_WORDS: usize = 34;

/// The size of a saved context in bytes.
pub const CONTEXT_SIZE: u64 = 272;

/// The registers of a task that is not running.
#[derive(Clone, Copy, Debug)]
pub struct Context {
    /// The address of the context itself: the task's stack pointer.
    pub sp: u64,
    /// Where the task goes on.
    pub pc: u64,
    /// The saved program status.
    pub spsr: u64,
    /// `x0` to `x29`.
    pub x: [u64; 30],
    /// The link register, `x30`.
    pub lr: u64,
}

impl Context {
    /// The context as it lies in memory, lowest address first.
    pub open spec fn words(self) -> Seq<u64> {
        seq![self.sp, self.pc, self.spsr] + self.x@ + seq![self.lr]
    }
}

/// The registers of a running core, as far as a switch touches them.
#[derive(Clone, Copy, Debug)]
pub struct Cpu {
    /// `x0` to `x30`; `x30` is the link register.
    pub x: [u64; 31],
    /// The stack pointer.
    pub sp: u64,
    /// The saved program status register.
    pub spsr: u64,
    /// The exception link register.
    pub elr: u64,
}

/// The mathematical state of a [`Cpu`].
pub struct CpuState {
    pub x: Seq<u64>,
    pub sp: u64,
    pub spsr: u64,
    pub elr: u64,
}

impl View for Cpu {
    type V = CpuState;

    open spec fn view(&self) -> CpuState {
        CpuState { x: self.x@, sp: self.sp, spsr: self.spsr, elr: self.elr }
    }
}

/// The words of the context that a core leaves at `at` when it saves
/// itself with `pc` as the place to go on.
pub open spec fn frame_of(cpu: CpuState, at: u64, pc: u64) -> Seq<u64> {
    seq![at, pc, cpu.spsr] + cpu.x
}

impl CpuState {
    /// The core after it saved itself at `at`: the stack pointer is there,
    /// and the two scratch registers hold the stack pointer and `pc`.
    pub open spec fn after_store(self, at: u64, pc: u64) -> CpuState {
        CpuState { sp: at, x: self.x.update(9, at).update(10, pc), ..self }
    }

    /// The core after it took its registers from `frame`, which lay at its
    /// stack pointer.
    pub open spec fn after_restore(self, frame: Seq<u64>) -> CpuState {
        CpuState {
            x: frame.subrange(3, 34),
            spsr: frame[2],
            sp: (self.sp + CONTEXT_SIZE) as u64,
            ..self
        }
    }
}

/// The memory of one stack: word `i` lies at the address `base + 8 * i`.
pub struct Stack {
    pub base: u64,
    pub words: Vec<u64>,
}

impl Stack {
    /// The index of the word at `addr`, where a whole context at `addr`
    /// lies inside the stack, on a word boundary, and ends below the last
    /// address.
    pub open spec fn slot(self, addr: u64) -> Option<int> {
        if addr >= self.base && (addr - self.base) % 8 == 0 && (addr - self.base) / 8 + 34
            <= self.words@.len() && addr + CONTEXT_SIZE <= u64::MAX {
            Some((addr - self.base) / 8)
        } else {
            None
        }
    }

    /// The 34 words at `addr`.
    pub open spec fn frame(self, addr: u64) -> Seq<u64> {
        self.words@.subrange((addr - self.base) / 8, (addr - self.base) / 8 + 34)
    }

    /// The stack whose lowest word lies at `base`.
    pub fn new(base: u64, words: Vec<u64>) -> (r: Self)
        ensures
            r.base == base,
            r.words@ == words@,
    {
        Stack { base, words }
    }

    /// Decides where a context at `addr` lies.
    pub fn frame_index(&self, addr: u64) -> (r: Option<usize>)
        ensures
            r is Some <==> self.slot(addr) is Some,
            r matches Some(i) ==> self.slot(addr) == Some(i as int),
    {
        if addr < self.base || addr > u64::MAX - CONTEXT_SIZE {
            return None;
        }
        let offset = addr - self.base;
        if offset % 8 != 0 {
            return None;
        }
        let index = offset / 8;
        let len = self.words.len();
        if len < CONTEXT_WORDS || index > (len - CONTEXT_WORDS) as u64 {
            return None;
        }
        Some(index as usize)
    }

    /// Reads the context at `addr`.
    pub fn read_context(&self, addr: u64) -> (r: Option<Context>)
        ensures
            r is Some <==> self.slot(addr) is Some,
            r matches Some(ctx) ==> ctx.words() == self.frame(addr),
    {
        let index = self.frame_index(addr)?;
        assert(self.words.len() == self.words@.len());
        let mut x: [u64; 30] = [0;30];
        let mut i: usize = 0;
        while i < 30
            invariant
                i <= 30,
                index + 34 <= self.words@.len() <= usize::MAX,
                forall|k: int| 0 <= k < i ==> x@[k] == self.words@[index + 3 + k],
            decreases 30 - i,
        {
            x[i] = self.words[index + 3 + i];
            i += 1;
        }
        let ctx = Context {
            sp: self.words[index],
            pc: self.words[index + 1],
            spsr: self.words[index + 2],
            x,
            lr: self.words[index + 33],
        };
        assert(ctx.words() == self.frame(addr));
        Some(ctx)
    }

    /// Writes `ctx` to `addr` and leaves every other word alone. Nothing is
    /// written where the context does not fit.
    pub fn write_context(&mut self, addr: u64, ctx: &Context) -> (r: bool)
        ensures
            r == old(self).slot(addr) is Some,
            final(self).base == old(self).base,
            r ==> final(self).words@ == old(self).words@.take(old(self).slot(addr)->0)
                + ctx.words() + old(self).words@.skip(old(self).slot(addr)->0 + 34),
            !r ==> final(self).words@ == old(self).words@,
    {
        let index = match self.frame_index(addr) {
            Some(i) => i,
            None => {
                return false;
            },
        };
        assert(self.words.len() == self.words@.len());
        self.words.set(index, ctx.sp);
        self.words.set(index + 1, ctx.pc);
        self.words.set(index + 2, ctx.spsr);
        let mut i: usize = 0;
        while i < 30
            invariant
                i <= 30,
                index + 34 <= self.words@.len() <= usize::MAX,
                self.words@.len() == old(self).words@.len(),
                self.base == old(self).base,
                self.words@[index as int] == ctx.sp,
                self.words@[index + 1] == ctx.pc,
                self.words@[index + 2] == ctx.spsr,
                forall|k: int| 0 <= k < i ==> self.words@[index + 3 + k] == ctx.x@[k],
                forall|k: int|
                    0 <= k < self.words@.len() && (k < index || k >= index + 34)
                        ==> self.words@[k] == old(self).words@[k],
            decreases 30 - i,
        {
            self.words.set(index + 3 + i, ctx.x[i]);
            i += 1;
        }
        self.words.set(index + 33, ctx.lr);
        assert(self.words@ == old(self).words@.take(index as int) + ctx.words() + old(self).words@.skip(index + 34));
        true
    }
}

/// What the scheduler keeps of a task for the switch: the saved stack
/// pointer and the stack it points into.
pub struct TaskControlBlock {
    pub sp: u64,
    pub stack: Stack,
}

/// The size of a context in bytes.
pub fn cpu_context_size() -> (r: usize)
    ensures
        r == CONTEXT_SIZE,
{
    272
}

/// The stack pointer of a saved task.
pub fn cpu_context_sp(ctx: &Context) -> (r: u64)
    ensures
        r == ctx.sp,
{
    ctx.sp
}

/// Gives a saved task another stack pointer.
pub fn cpu_context_set_sp(ctx: &mut Context, sp: u64)
    ensures
        *final(ctx) == (Context { sp, ..*old(ctx) }),
{
    ctx.sp = sp;
}

/// Makes a saved task go on at `pc`: the program counter and the link
/// register both point there, so that the task arrives at `pc` whichever
/// way it is resumed.
pub fn cpu_context_set_pc(ctx: &mut Context, pc: u64)
    ensures
        *final(ctx) == (Context { pc, lr: pc, ..*old(ctx) }),
{
    ctx.pc = pc;
    ctx.lr = pc;
}

/// Pushes the core's registers as a context with `pc` as the place to go
/// on. Nothing happens where the context does not fit below the stack
/// pointer.
fn push_context(cpu: &mut Cpu, stack: &mut Stack, pc: u64) -> (ok: bool)
    ensures
        ok == (old(cpu).sp >= CONTEXT_SIZE && old(stack).slot(
            (old(cpu).sp - CONTEXT_SIZE) as u64,
        ) is Some),
        final(stack).base == old(stack).base,
        ok ==> ({
            let at = (old(cpu).sp - CONTEXT_SIZE) as u64;
            let index = old(stack).slot(at)->0;
            &&& final(stack).words@ == old(stack).words@.take(index) + frame_of(
                old(cpu)@,
                at,
                pc,
            ) + old(stack).words@.skip(index + 34)
            &&& final(cpu)@ == old(cpu)@.after_store(at, pc)
        }),
        !ok ==> final(stack).words@ == old(stack).words@ && final(cpu)@ == old(cpu)@,
{
    if cpu.sp < CONTEXT_SIZE {
        return false;
    }
    let at = cpu.sp - CONTEXT_SIZE;
    let mut x: [u64; 30] = [0;30];
    let mut i: usize = 0;
    while i < 30
        invariant
            i <= 30,
            forall|k: int| 0 <= k < i ==> x@[k] == cpu.x@[k],
        decreases 30 - i,
    {
        x[i] = cpu.x[i];
        i += 1;
    }
    let ctx = Context { sp: at, pc, spsr: cpu.spsr, x, lr: cpu.x[30] };
    assert(ctx.words() == frame_of(cpu@, at, pc));
    if !stack.write_context(at, &ctx) {
        return false;
    }
    cpu.sp = at;
    cpu.x[9] = at;
    cpu.x[10] = pc;
    true
}

/// Pops the context at the stack pointer into the core's registers and
/// returns the place to go on that it names. Nothing happens where no
/// whole context lies at the stack pointer.
fn pop_context(cpu: &mut Cpu, stack: &Stack) -> (r: Option<u64>)
    ensures
        r is Some <==> stack.slot(old(cpu).sp) is Some,
        r matches Some(pc) ==> pc == stack.frame(old(cpu).sp)[1] && final(cpu)@ == old(cpu)@.after_restore(stack.frame(old(cpu).sp)),
        r is None ==> final(cpu)@ == old(cpu)@,
{
    let index = stack.frame_index(cpu.sp)?;
    assert(stack.words.len() == stack.words@.len());
    let ghost frame = stack.frame(cpu.sp);
    let pc = stack.words[index + 1];
    cpu.spsr = stack.words[index + 2];
    let mut i: usize = 0;
    while i < 31
        invariant
            i <= 31,
            index + 34 <= stack.words@.len() <= usize::MAX,
            cpu.sp == old(cpu).sp,
            cpu.elr == old(cpu).elr,
            cpu.spsr == stack.words@[index + 2],
            forall|k: int| 0 <= k < i ==> cpu.x@[k] == stack.words@[index + 3 + k],
        decreases 31 - i,
    {
        cpu.x[i] = stack.words[index + 3 + i];
        i += 1;
    }
    cpu.sp = cpu.sp + CONTEXT_SIZE;
    assert(cpu.x@ == frame.subrange(3, 34));
    Some(pc)
}

/// Saves the core on its stack, to go on where the link register points.
pub fn store_pc_is_lr(cpu: &mut Cpu, stack: &mut Stack) -> (ok: bool)
    ensures
        ok == (old(cpu).sp >= CONTEXT_SIZE && old(stack).slot(
            (old(cpu).sp - CONTEXT_SIZE) as u64,
        ) is Some),
        final(stack).base == old(stack).base,
        ok ==> ({
            let at = (old(cpu).sp - CONTEXT_SIZE) as u64;
            let index = old(stack).slot(at)->0;
            &&& final(stack).words@ == old(stack).words@.take(index) + frame_of(
                old(cpu)@,
                at,
                old(cpu).x[30],
            ) + old(stack).words@.skip(index + 34)
            &&& final(cpu)@ == old(cpu)@.after_store(at, old(cpu).x[30])
        }),
        !ok ==> final(stack).words@ == old(stack).words@ && final(cpu)@ == old(cpu)@,
{
    let pc = cpu.x[30];
    push_context(cpu, stack, pc)
}

/// Saves the core on its stack, to go on where the exception came from.
pub fn store_pc_is_elr(cpu: &mut Cpu, stack: &mut Stack) -> (ok: bool)
    ensures
        ok == (old(cpu).sp >= CONTEXT_SIZE && old(stack).slot(
            (old(cpu).sp - CONTEXT_SIZE) as u64,
        ) is Some),
        final(stack).base == old(stack).base,
        ok ==> ({
            let at = (old(cpu).sp - CONTEXT_SIZE) as u64;
            let index = old(stack).slot(at)->0;
            &&& final(stack).words@ == old(stack).words@.take(index) + frame_of(
                old(cpu)@,
                at,
                old(cpu).elr,
            ) + old(stack).words@.skip(index + 34)
            &&& final(cpu)@ == old(cpu)@.after_store(at, old(cpu).elr)
        }),
        !ok ==> final(stack).words@ == old(stack).words@ && final(cpu)@ == old(cpu)@,
{
    let pc = cpu.elr;
    push_context(cpu, stack, pc)
}

/// Takes the core's registers from the context at its stack pointer. The
/// core goes on where the restored link register points.
pub fn restore_pc_is_lr(cpu: &mut Cpu, stack: &Stack) -> (ok: bool)
    ensures
        ok == stack.slot(old(cpu).sp) is Some,
        ok ==> final(cpu)@ == old(cpu)@.after_restore(stack.frame(old(cpu).sp)),
        !ok ==> final(cpu)@ == old(cpu)@,
{
    pop_context(cpu, stack).is_some()
}

/// Takes the core's registers from the context at its stack pointer, and
/// the exception link register from the context's program counter. The
/// core goes on there when it returns from the exception.
pub fn restore_pc_is_elr(cpu: &mut Cpu, stack: &Stack) -> (ok: bool)
    ensures
        ok == stack.slot(old(cpu).sp) is Some,
        ok ==> final(cpu)@ == (CpuState {
            elr: stack.frame(old(cpu).sp)[1],
            ..old(cpu)@.after_restore(stack.frame(old(cpu).sp))
        }),
        !ok ==> final(cpu)@ == old(cpu)@,
{
    match pop_context(cpu, stack) {
        Some(pc) => {
            cpu.elr = pc;
            true
        },
        None => false,
    }
}

/// Hands the core from one task to another.
///
/// The core's registers go onto the stack of `prev` as a context that goes
/// on where the link register points, and the resulting stack pointer goes
/// into `prev`; then the core takes the stack pointer of `next` and its
/// registers from the context that lies there. Where the context of `prev`
/// does not fit, or none lies at the stack pointer of `next`, nothing
/// happens at all.
pub fn tcb_switch(cpu: &mut Cpu, prev: &mut TaskControlBlock, next: &TaskControlBlock) -> (ok: bool)
    ensures
        ok == (old(cpu).sp >= CONTEXT_SIZE && old(prev).stack.slot(
            (old(cpu).sp - CONTEXT_SIZE) as u64,
        ) is Some && next.stack.slot(next.sp) is Some),
        final(prev).stack.base == old(prev).stack.base,
        ok ==> ({
            let at = (old(cpu).sp - CONTEXT_SIZE) as u64;
            let index = old(prev).stack.slot(at)->0;
            let frame = frame_of(old(cpu)@, at, old(cpu).x[30]);
            &&& final(prev).sp == at
            &&& final(prev).stack.words@ == old(prev).stack.words@.take(index) + frame + old(prev).stack.words@.skip(index + 34)
            &&& final(cpu)@ == (CpuState {
                sp: next.sp,
                ..old(cpu)@.after_store(at, old(cpu).x[30])
            }).after_restore(next.stack.frame(next.sp))
        }),
        !ok ==> final(cpu)@ == old(cpu)@ && final(prev).sp == old(prev).sp && final(prev).stack.words@ == old(prev).stack.words@,
{
    if next.stack.frame_index(next.sp).is_none() {
        return false;
    }
    if !store_pc_is_lr(cpu, &mut prev.stack) {
        return false;
    }
    prev.sp = cpu.sp;
    cpu.sp = next.sp;
    let resumed = restore_pc_is_lr(cpu, &next.stack);
    assert(resumed);
    true
}

/// A context that was written is read back as it was written.
pub proof fn lemma_frame_after_store(words: Seq<u64>, index: int, frame: Seq<u64>)
    requires
        0 <= index,
        index + 34 <= words.len(),
        frame.len() == 34,
    ensures
        (words.take(index) + frame + words.skip(index + 34)).subrange(index, index + 34)
            == frame,
        (words.take(index) + frame + words.skip(index + 34)).len() == words.len(),
{
}

/// Saving and restoring give the task back what it had: a core that saves
/// itself and later takes its registers from the very context it left
/// finds `x0` to `x30`, the saved status and the stack pointer as they were
/// before the save, and the context names the place to go on that was
/// saved.
pub proof fn lemma_save_restore_round_trip(cpu: CpuState, pc: u64)
    requires
        cpu.x.len() == 31,
        cpu.sp >= CONTEXT_SIZE,
    ensures
        ({
            let at = (cpu.sp - CONTEXT_SIZE) as u64;
            let frame = frame_of(cpu, at, pc);
            let back = cpu.after_store(at, pc).after_restore(frame);
            &&& frame.len() == 34
            &&& frame[1] == pc
            &&& back.x == cpu.x
            &&& back.spsr == cpu.spsr
            &&& back.sp == cpu.sp
        }),
{
    let at = (cpu.sp - CONTEXT_SIZE) as u64;
    let frame = frame_of(cpu, at, pc);
    assert(frame.subrange(3, 34) == cpu.x);
}

/// A task that is switched out and later switched in again goes on as it
/// was. The context that the switch leaves in the stack's memory, read
/// back from there by a core whose stack pointer is the one that the switch
/// left in the task's control block, gives that core `x0` to `x30`, the
/// saved status and the stack pointer of the moment before the switch; and
/// the core goes on where the task's link register pointed, which is where
/// the switch was called from.
pub proof fn lemma_switch_out_then_in(
    cpu: CpuState,
    words: Seq<u64>,
    index: int,
    later: CpuState,
)
    requires
        cpu.x.len() == 31,
        cpu.sp >= CONTEXT_SIZE,
        0 <= index,
        index + 34 <= words.len(),
        later.sp == cpu.sp - CONTEXT_SIZE,
    ensures
        ({
            let at = (cpu.sp - CONTEXT_SIZE) as u64;
            let frame = frame_of(cpu, at, cpu.x[30]);
            let memory = words.take(index) + frame + words.skip(index + 34);
            let back = later.after_restore(memory.subrange(index, index + 34));
            &&& memory.len() == words.len()
            &&& memory.subrange(index, index + 34) == frame
            &&& back.x == cpu.x
            &&& back.spsr == cpu.spsr
            &&& back.sp == cpu.sp
            &&& back.x[30] == cpu.x[30]
        }),
{
    let at = (cpu.sp - CONTEXT_SIZE) as u64;
    let frame = frame_of(cpu, at, cpu.x[30]);
    lemma_frame_after_store(words, index, frame);
    assert(frame.subrange(3, 34) == cpu.x);
}

/// The width of a register's number in a dump.
pub const NUMBER_WIDTH: usize = 3;

/// The width of a register's value in a dump.
pub const VALUE_WIDTH: usize = 18;

/// The number of registers in a row of a dump.
pub const ROW: usize = 4;

/// `v` in hexadecimal, moved to the right edge of a column of
/// [`VALUE_WIDTH`] characters.
pub open spec fn value_text(v: u64) -> Seq<char> {
    blanks(VALUE_WIDTH - hex_text(v as nat).len()) + hex_text(v as nat)
}

/// One register of a dump: its number at the left edge of a column of
/// [`NUMBER_WIDTH`] characters, and its value.
pub open spec fn register_text(number: nat, v: u64) -> Seq<char> {
    "  x"@ + decimal_digits(number) + blanks(NUMBER_WIDTH - decimal_digits(number).len())
        + ": "@ + value_text(v)
}

/// The first `upto` registers of a dump, four to a row.
pub open spec fn registers_text(x: Seq<u64>, upto: nat) -> Seq<char>
    decreases upto,
{
    if upto == 0 {
        Seq::empty()
    } else {
        registers_text(x, (upto - 1) as nat) + register_text((upto - 1) as nat, x[upto - 1]) + (
        if upto % ROW as nat == 0 || upto == x.len() {
            "\n"@
        } else {
            Seq::empty()
        })
    }
}

/// The dump of a context: a heading, `x0` to `x29` in rows of four, then
/// the link register, the saved status, the program counter and the stack
/// pointer, each on a line of its own.
pub open spec fn context_text(ctx: Context) -> Seq<char> {
    "Context:\n"@ + registers_text(ctx.x@, 30) + "  lr  : "@ + hex_text(ctx.lr as nat) + "\n"@
        + "  spsr: "@ + value_text(ctx.spsr) + "\n"@ + "  pc  : "@ + hex_text(ctx.pc as nat)
        + "\n"@ + "  sp  : "@ + hex_text(ctx.sp as nat) + "\n"@
}

/// Appends `v` in hexadecimal at the right edge of its column.
fn write_value(w: &mut String, v: u64)
    ensures
        final(w)@ == old(w)@ + value_text(v),
{
    let mut text = String::new();
    boot_debug_hex(&mut text, v);
    assert(text@ == hex_text(v as nat));
    let len = text.as_str().unicode_len();
    if len < VALUE_WIDTH {
        write_blanks(w, VALUE_WIDTH - len);
    } else {
        assert(blanks(VALUE_WIDTH - hex_text(v as nat).len()) == Seq::<char>::empty());
        assert(w@ + Seq::<char>::empty() == w@);
    }
    w.append(text.as_str());
}

/// Appends one register of a dump.
fn write_register(w: &mut String, number: usize, v: u64)
    ensures
        final(w)@ == old(w)@ + register_text(number as nat, v),
{
    w.append("  x");
    let mut digits = String::new();
    write_decimal(&mut digits, number);
    assert(digits@ == decimal_digits(number as nat));
    let len = digits.as_str().unicode_len();
    w.append(digits.as_str());
    if len < NUMBER_WIDTH {
        write_blanks(w, NUMBER_WIDTH - len);
    } else {
        assert(blanks(NUMBER_WIDTH - decimal_digits(number as nat).len()) == Seq::<
            char,
        >::empty());
        assert(w@ + Seq::<char>::empty() == w@);
    }
    w.append(": ");
    write_value(w, v);
}

impl Context {
    /// The context as text, for the log.
    pub fn describe(&self) -> (text: String)
        ensures
            text@ == context_text(*self),
    {
        let mut text = String::from_str("Context:\n");
        let ghost head = text@;
        let mut i: usize = 0;
        assert(head + registers_text(self.x@, 0) == head);
        while i < 30
            invariant
                i <= 30,
                self.x@.len() == 30,
                text@ == head + registers_text(self.x@, i as nat),
            decreases 30 - i,
        {
            write_register(&mut text, i, self.x[i]);
            i += 1;
            if i % ROW == 0 || i == 30 {
                text.append("\n");
            }
        }
        text.append("  lr  : ");
        boot_debug_hex(&mut text, self.lr);
        text.append("\n");
        text.append("  spsr: ");
        write_value(&mut text, self.spsr);
        text.append("\n");
        text.append("  pc  : ");
        boot_debug_hex(&mut text, self.pc);
        text.append("\n");
        text.append("  sp  : ");
        boot_debug_hex(&mut text, self.sp);
        text.append("\n");
        text
    }
}

} // verus!
