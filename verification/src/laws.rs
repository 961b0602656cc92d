//! Proved laws of the instruction set, stated over [`crate::model`].

use vstd::prelude::*;

use crate::model::CpuState;
use crate::model::Fault;
use crate::model::MEM_SIZE;
use crate::model::Outcome;
use crate::model::REG_COUNT;
use crate::model::STACK_SIZE;
use crate::model::op_addr;
use crate::model::op_class;
use crate::model::opcode_at;
use crate::model::regs_after_add;
use crate::model::step;
use crate::model::step_n;

verus! {

/// Adding register `y` into register `x` leaves the 8-bit wrapped sum in
/// `x` and sets register 15 to 1 exactly when the true sum reaches 256,
/// whenever neither operand is the flag register itself.
pub proof fn lemma_add_sets_sum_and_carry(regs: Seq<u8>, x: int, y: int)
    requires
        regs.len() == REG_COUNT,
        0 <= x < 15,
        0 <= y < 15,
    ensures
        regs_after_add(regs, x, y)[x] == (regs[x] + regs[y]) % 256,
        regs_after_add(regs, x, y)[15] == (if regs[x] + regs[y] >= 256 {
            1u8
        } else {
            0u8
        }),
{
}

/// A call with room on the stack pushes the address of the following
/// instruction and deepens the stack by one; a call with all sixteen
/// slots in use faults with a stack overflow and changes nothing beyond
/// the already advanced program counter.  Sixteen nested calls therefore
/// go through, and a seventeenth faults.
pub proof fn lemma_call_descends_until_stack_full(s: CpuState)
    requires
        s.wf(),
        s.pc + 1 < MEM_SIZE,
        op_class(opcode_at(s.mem, s.pc)) == 0x2,
    ensures
        s.sp < STACK_SIZE ==> step(s) == Outcome::Running(
            CpuState {
                stack: s.stack.update(s.sp as int, (s.pc + 2) as u16),
                sp: s.sp + 1,
                pc: op_addr(opcode_at(s.mem, s.pc)) as nat,
                ..s
            },
        ),
        s.sp == STACK_SIZE ==> step(s) == Outcome::Faulted(
            Fault::StackOverflow,
            CpuState { pc: s.pc + 2, ..s },
        ),
{
    let op = opcode_at(s.mem, s.pc);
    assert(op_class(op) == 0x2 ==> (op >> 12) & 0xF != 0 && (op >> 12) & 0xF != 0x8)
        by (bit_vector);
}

/// A call followed immediately by a return brings the program counter
/// back to the instruction just after the call and leaves the stack
/// pointer, the registers, and the memory as they were; only the stack
/// slot the call wrote keeps the pushed return address.
pub proof fn lemma_call_then_return_round_trip(s: CpuState)
    requires
        s.wf(),
        s.pc + 1 < MEM_SIZE,
        s.sp < STACK_SIZE,
        op_class(opcode_at(s.mem, s.pc)) == 0x2,
        op_addr(opcode_at(s.mem, s.pc)) + 1 < MEM_SIZE,
        s.mem[op_addr(opcode_at(s.mem, s.pc)) as int] == 0x00,
        s.mem[op_addr(opcode_at(s.mem, s.pc)) as int + 1] == 0xEE,
    ensures
        step_n(s, 2) == Outcome::Running(
            CpuState {
                stack: s.stack.update(s.sp as int, (s.pc + 2) as u16),
                pc: s.pc + 2,
                ..s
            },
        ),
{
    let op = opcode_at(s.mem, s.pc);
    lemma_call_descends_until_stack_full(s);
    let target = op_addr(op) as nat;
    let called = CpuState {
        stack: s.stack.update(s.sp as int, (s.pc + 2) as u16),
        sp: s.sp + 1,
        pc: target,
        ..s
    };
    assert(step_n(s, 0) == Outcome::Running(s));
    assert(step_n(s, 1) == Outcome::Running(called));
    assert(opcode_at(called.mem, called.pc) == 0x00EE) by {
        assert(((0x00u8 as u16) << 8) | (0xEEu8 as u16) == 0x00EE) by (bit_vector);
    }
    assert((0x00EEu16 >> 12) & 0xF == 0 && (0x00EEu16 >> 8) & 0xF == 0 && (0x00EEu16 >> 4) & 0xF
        == 0xE && 0x00EEu16 & 0xF == 0xE) by (bit_vector);
    let back = CpuState {
        stack: s.stack.update(s.sp as int, (s.pc + 2) as u16),
        pc: s.pc + 2,
        ..s
    };
    assert(step(called) == Outcome::Running(back));
}

/// A return while no call is pending faults with a stack underflow and
/// changes nothing beyond the already advanced program counter.
pub proof fn lemma_return_on_empty_stack_faults(s: CpuState)
    requires
        s.wf(),
        s.pc + 1 < MEM_SIZE,
        opcode_at(s.mem, s.pc) == 0x00EE,
        s.sp == 0,
    ensures
        step(s) == Outcome::Faulted(Fault::StackUnderflow, CpuState { pc: s.pc + 2, ..s }),
{
    assert((0x00EEu16 >> 12) & 0xF == 0 && (0x00EEu16 >> 8) & 0xF == 0 && (0x00EEu16 >> 4) & 0xF
        == 0xE && 0x00EEu16 & 0xF == 0xE) by (bit_vector);
}

/// The all-zero instruction word halts the machine: the round ends the
/// run and touches no register, memory cell, or stack slot; only the
/// program counter has moved past the instruction.
pub proof fn lemma_halt_stops_the_machine(s: CpuState)
    requires
        s.wf(),
        s.pc + 1 < MEM_SIZE,
        opcode_at(s.mem, s.pc) == 0,
    ensures
        step(s) == Outcome::Halted(CpuState { pc: s.pc + 2, ..s }),
{
    assert((0u16 >> 12) & 0xF == 0 && (0u16 >> 8) & 0xF == 0 && (0u16 >> 4) & 0xF == 0 && 0u16
        & 0xF == 0) by (bit_vector);
}

/// Once a run has halted or faulted, further rounds change nothing: the
/// machine makes no access of any kind after the round that stopped it.
pub proof fn lemma_stopped_machine_stays_stopped(s: CpuState, n: nat, m: nat)
    requires
        !(step_n(s, n) is Running),
        n <= m,
    ensures
        step_n(s, m) == step_n(s, n),
    decreases m - n,
{
    if m > n {
        lemma_stopped_machine_stays_stopped(s, n, (m - 1) as nat);
    }
}

} // verus!
