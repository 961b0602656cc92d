//! Mathematical model of the virtual CPU.
//!
//! A [`CpuState`] is the ghost image of the machine: sequences for the
//! register file, the memory, and the call stack, together with the
//! program counter and the stack pointer.  [`step`] says what one
//! fetch-decode-execute round does to such a state, and [`step_n`]
//! iterates it.  The executable interpreter in [`crate::cpu`] is proved
//! to follow these functions exactly.

use vstd::prelude::*;

verus! {

/// Number of general-purpose registers; register 15 doubles as the carry flag.
pub const REG_COUNT: usize = 16;

/// Bytes of addressable memory.
pub const MEM_SIZE: usize = 4096;

/// Number of return-address slots on the call stack.
pub const STACK_SIZE: usize = 16;

/// A fatal condition that ends a run.
///
/// Every fault is final: the machine stops and leaves its state for the
/// caller to inspect.
#[derive(Clone, Copy, Debug, PartialEq, Eq, Structural)]
pub enum Fault {
    /// The program counter ran past the last pair of memory cells.
    OutOfBoundsFetch,
    /// A call instruction arrived while all stack slots were in use.
    StackOverflow,
    /// A return instruction arrived while no call was pending.
    StackUnderflow,
    /// No instruction pattern matched; carries the raw instruction word.
    Unimplemented(u16),
}

/// Ghost image of the whole machine state.
#[verifier::ext_equal]
pub ghost struct CpuState {
    /// The sixteen 8-bit registers.
    pub regs: Seq<u8>,
    /// The 4096 memory cells.
    pub mem: Seq<u8>,
    /// Index into `mem` of the next instruction to fetch.
    pub pc: nat,
    /// Return addresses of the calls now in progress, in slots `0 .. sp`.
    pub stack: Seq<u16>,
    /// Number of calls now in progress.
    pub sp: nat,
}

impl CpuState {
    /// The shape every reachable machine state has.
    pub open spec fn wf(self) -> bool {
        &&& self.regs.len() == REG_COUNT
        &&& self.mem.len() == MEM_SIZE
        &&& self.stack.len() == STACK_SIZE
        &&& self.sp <= STACK_SIZE
    }
}

/// The instruction word at `pc`: two consecutive memory cells combined
/// big-endian.
pub open spec fn opcode_at(mem: Seq<u8>, pc: nat) -> u16
    recommends
        pc + 1 < mem.len(),
{
    ((mem[pc as int] as u16) << 8) | (mem[pc as int + 1] as u16)
}

/// Top nibble of an instruction word: the opcode class.
pub open spec fn op_class(op: u16) -> u16 {
    (op >> 12) & 0xF
}

/// Second nibble: the first operand register index.
pub open spec fn op_x(op: u16) -> u16 {
    (op >> 8) & 0xF
}

/// Third nibble: the second operand register index.
pub open spec fn op_y(op: u16) -> u16 {
    (op >> 4) & 0xF
}

/// Bottom nibble: the opcode sub-selector.
pub open spec fn op_sub(op: u16) -> u16 {
    op & 0xF
}

/// Low twelve bits: a memory address operand.
pub open spec fn op_addr(op: u16) -> u16 {
    op & 0xFFF
}

/// The register file after adding register `y` into register `x`:
/// slot `x` takes the 8-bit wrapped sum and slot 15 takes the carry,
/// in that order, so a carry write to slot 15 wins over the sum.
pub open spec fn regs_after_add(regs: Seq<u8>, x: int, y: int) -> Seq<u8>
    recommends
        regs.len() == REG_COUNT,
        0 <= x < REG_COUNT,
        0 <= y < REG_COUNT,
{
    let sum = regs[x] + regs[y];
    let flag: u8 = if sum >= 256 {
        1u8
    } else {
        0u8
    };
    regs.update(x, (sum % 256) as u8).update(15, flag)
}

/// What a run looks like after some number of rounds.
#[verifier::ext_equal]
pub ghost enum Outcome {
    /// The machine can still fetch another instruction from this state.
    Running(CpuState),
    /// A halt instruction ended the run normally, leaving this state.
    Halted(CpuState),
    /// A fault ended the run, leaving this state.
    Faulted(Fault, CpuState),
}

/// One fetch-decode-execute round.
///
/// The program counter is advanced past the instruction before the
/// instruction acts, so a call only has to assign its target and the
/// address it pushes is already the one of the next instruction.
/// Patterns are tried in the fixed priority order: halt, add-with-carry,
/// call, return, and otherwise the instruction is unimplemented.
pub open spec fn step(s: CpuState) -> Outcome
    recommends
        s.wf(),
{
    if s.pc + 1 >= MEM_SIZE {
        Outcome::Faulted(Fault::OutOfBoundsFetch, s)
    } else {
        let op = opcode_at(s.mem, s.pc);
        let t = CpuState { pc: s.pc + 2, ..s };
        if op_class(op) == 0 && op_x(op) == 0 && op_y(op) == 0 && op_sub(op) == 0 {
            Outcome::Halted(t)
        } else if op_class(op) == 0x8 && op_sub(op) == 0x4 {
            Outcome::Running(
                CpuState { regs: regs_after_add(t.regs, op_x(op) as int, op_y(op) as int), ..t },
            )
        } else if op_class(op) == 0x2 {
            if t.sp >= STACK_SIZE {
                Outcome::Faulted(Fault::StackOverflow, t)
            } else {
                Outcome::Running(
                    CpuState {
                        stack: t.stack.update(t.sp as int, t.pc as u16),
                        sp: t.sp + 1,
                        pc: op_addr(op) as nat,
                        ..t
                    },
                )
            }
        } else if op_class(op) == 0 && op_x(op) == 0 && op_y(op) == 0xE && op_sub(op) == 0xE {
            if t.sp == 0 {
                Outcome::Faulted(Fault::StackUnderflow, t)
            } else {
                Outcome::Running(
                    CpuState { sp: (t.sp - 1) as nat, pc: t.stack[t.sp as int - 1] as nat, ..t },
                )
            }
        } else {
            Outcome::Faulted(Fault::Unimplemented(op), t)
        }
    }
}

/// Progress made at stack level `i`, for the termination measure of the
/// run loop.
///
/// With only add, call, return, and halt, every program stops: at each
/// stack level control only moves forward.  An add advances the program
/// counter, a call moves the level's resume address (the pushed return
/// address) past the call site before work continues one level deeper,
/// and a return trades a pending slot for the very address it stored.
/// So the tuple of these per-level values, read from the bottom of the
/// stack out to the active level, shrinks lexicographically at every
/// round.  Pending slots score one more than the active level does when
/// it resumes at the stored address, which makes a return itself a
/// strict step down.
pub open spec fn level_measure(s: CpuState, i: int) -> int {
    if i < s.sp {
        2 * (0x11000 - s.stack[i]) + 1
    } else if i == s.sp {
        if s.pc <= 0x10000 {
            2 * (0x11000 - s.pc)
        } else {
            0
        }
    } else {
        (2 * 0x11000 + 2) as int
    }
}

/// The machine after `n` rounds from `s`; a halt or a fault is kept as is.
pub open spec fn step_n(s: CpuState, n: nat) -> Outcome
    decreases n,
{
    if n == 0 {
        Outcome::Running(s)
    } else {
        match step_n(s, (n - 1) as nat) {
            Outcome::Running(t) => step(t),
            done => done,
        }
    }
}

} // verus!
