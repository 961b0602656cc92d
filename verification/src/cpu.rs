//! The executable interpreter.
//!
//! [`Cpu`] holds the machine state in fixed-size buffers.  A caller
//! builds a zeroed machine with [`Cpu::new`], writes a program and any
//! starting register values through [`Cpu::write_memory`] and
//! [`Cpu::set_register`], and then lets [`Cpu::run`] execute it.  Every
//! method is specified against the ghost state of [`crate::model`].

use vstd::prelude::*;

use crate::model::CpuState;
use crate::model::Fault;
use crate::model::MEM_SIZE;
use crate::model::REG_COUNT;
use crate::model::STACK_SIZE;
use crate::model::level_measure;
use crate::model::opcode_at;
use crate::model::regs_after_add;
use crate::model::step;
use crate::model::step_n;
use crate::model::Outcome;

verus! {

/// The virtual CPU: sixteen 8-bit registers, 4096 bytes of memory, and a
/// sixteen-slot stack of return addresses.
pub struct Cpu {
    registers: [u8; 16],
    program_counter: usize,
    memory: [u8; 4096],
    stack: [u16; 16],
    stack_pointer: usize,
}

impl View for Cpu {
    type V = CpuState;

    closed spec fn view(&self) -> CpuState {
        CpuState {
            regs: self.registers@,
            mem: self.memory@,
            pc: self.program_counter as nat,
            stack: self.stack@,
            sp: self.stack_pointer as nat,
        }
    }
}

impl Cpu {
    /// A machine with every register, memory cell, and stack slot zero,
    /// the program counter at the start of memory, and no call pending.
    pub fn new() -> (cpu: Cpu)
        ensures
            cpu@.wf(),
            cpu@.pc == 0,
            cpu@.sp == 0,
            forall|i: int| 0 <= i < REG_COUNT ==> cpu@.regs[i] == 0,
            forall|i: int| 0 <= i < MEM_SIZE ==> cpu@.mem[i] == 0,
            forall|i: int| 0 <= i < STACK_SIZE ==> cpu@.stack[i] == 0,
    {
        Cpu {
            registers: [0u8; 16],
            program_counter: 0,
            memory: [0u8; 4096],
            stack: [0u16; 16],
            stack_pointer: 0,
        }
    }

    /// Write `value` into register `index`; the loader's half of §6's
    /// construction contract.
    pub fn set_register(&mut self, index: usize, value: u8)
        requires
            old(self)@.wf(),
            index < REG_COUNT,
        ensures
            final(self)@.wf(),
            final(self)@ == (CpuState {
                regs: old(self)@.regs.update(index as int, value),
                ..old(self)@
            }),
    {
        self.registers[index] = value;
    }

    /// Read register `index`.
    pub fn register(&self, index: usize) -> (value: u8)
        requires
            self@.wf(),
            index < REG_COUNT,
        ensures
            value == self@.regs[index as int],
    {
        self.registers[index]
    }

    /// Write `value` into the memory cell at `addr`; this is how a
    /// program is loaded before a run.
    pub fn write_memory(&mut self, addr: usize, value: u8)
        requires
            old(self)@.wf(),
            addr < MEM_SIZE,
        ensures
            final(self)@.wf(),
            final(self)@ == (CpuState {
                mem: old(self)@.mem.update(addr as int, value),
                ..old(self)@
            }),
    {
        self.memory[addr] = value;
    }

    /// Read the memory cell at `addr`.
    pub fn read_memory(&self, addr: usize) -> (value: u8)
        requires
            self@.wf(),
            addr < MEM_SIZE,
        ensures
            value == self@.mem[addr as int],
    {
        self.memory[addr]
    }

    /// The return address stored in stack slot `index`.
    pub fn stack_slot(&self, index: usize) -> (value: u16)
        requires
            self@.wf(),
            index < STACK_SIZE,
        ensures
            value == self@.stack[index as int],
    {
        self.stack[index]
    }

    /// Where the next instruction would be fetched from.
    pub fn program_counter(&self) -> (pc: usize)
        ensures
            pc == self@.pc,
    {
        self.program_counter
    }

    /// How many calls are in progress.
    pub fn stack_pointer(&self) -> (sp: usize)
        ensures
            sp == self@.sp,
    {
        self.stack_pointer
    }

    /// Fetch the big-endian instruction word at the program counter
    /// without moving it.
    pub fn read_opcode(&self) -> (op: u16)
        requires
            self@.wf(),
            self@.pc + 1 < MEM_SIZE,
        ensures
            op == opcode_at(self@.mem, self@.pc),
    {
        let p = self.program_counter;
        let op_byte1 = self.memory[p];
        let op_byte2 = self.memory[p + 1];
        ((op_byte1 as u16) << 8) | (op_byte2 as u16)
    }

    /// Add register `y` into register `x` with 8-bit wraparound, and
    /// write the carry into register 15: 1 on overflow, 0 otherwise.
    /// The carry write clobbers register 15 even when `x` or `y` is 15.
    pub fn add_xy(&mut self, x: u8, y: u8)
        requires
            old(self)@.wf(),
            x < REG_COUNT,
            y < REG_COUNT,
        ensures
            final(self)@.wf(),
            final(self)@ == (CpuState {
                regs: regs_after_add(old(self)@.regs, x as int, y as int),
                ..old(self)@
            }),
    {
        let arg1 = self.registers[x as usize];
        let arg2 = self.registers[y as usize];

        let sum: u16 = arg1 as u16 + arg2 as u16;
        self.registers[x as usize] = (sum % 256) as u8;

        if sum >= 256 {
            self.registers[15] = 1;
        } else {
            self.registers[15] = 0;
        }
    }

    /// Enter the subroutine at `addr`: push the current program counter
    /// (the return address) onto the stack and jump.  Fails with
    /// [`Fault::StackOverflow`], leaving the state unchanged, exactly
    /// when all stack slots are already in use.
    pub fn call(&mut self, addr: u16) -> (result: Result<(), Fault>)
        requires
            old(self)@.wf(),
            old(self)@.pc < 0x10000,
        ensures
            final(self)@.wf(),
            old(self)@.sp < STACK_SIZE ==> result == Ok::<(), Fault>(()) && final(self)@
                == (CpuState {
                stack: old(self)@.stack.update(old(self)@.sp as int, old(self)@.pc as u16),
                sp: old(self)@.sp + 1,
                pc: addr as nat,
                ..old(self)@
            }),
            old(self)@.sp >= STACK_SIZE ==> result == Err::<(), Fault>(Fault::StackOverflow)
                && final(self)@ == old(self)@,
    {
        let sp = self.stack_pointer;
        if sp >= STACK_SIZE {
            return Err(Fault::StackOverflow);
        }
        self.stack[sp] = self.program_counter as u16;
        self.stack_pointer = sp + 1;
        self.program_counter = addr as usize;
        Ok(())
    }

    /// Fetch, decode, and execute instructions until a halt instruction
    /// or a fault.
    ///
    /// On `Ok`, some number of rounds of [`step`] turned the starting
    /// state into a halt that left the machine exactly as returned; on
    /// `Err`, they ended in that fault instead.  With only these four
    /// instructions every program stops eventually: the loop carries
    /// the termination measure of [`level_measure`], so `run` always
    /// returns.
    pub fn run(&mut self) -> (result: Result<(), Fault>)
        requires
            old(self)@.wf(),
        ensures
            final(self)@.wf(),
            match result {
                Ok(()) => exists|n: nat| step_n(old(self)@, n) == Outcome::Halted(final(self)@),
                Err(fault) => exists|n: nat|
                    step_n(old(self)@, n) == Outcome::Faulted(fault, final(self)@),
            },
    {
        let ghost start = self@;
        let ghost mut rounds: nat = 0;
        loop
            invariant
                self@.wf(),
                start == old(self)@,
                step_n(start, rounds) == Outcome::Running(self@),
            decreases
                level_measure(self@, 0),
                level_measure(self@, 1),
                level_measure(self@, 2),
                level_measure(self@, 3),
                level_measure(self@, 4),
                level_measure(self@, 5),
                level_measure(self@, 6),
                level_measure(self@, 7),
                level_measure(self@, 8),
                level_measure(self@, 9),
                level_measure(self@, 10),
                level_measure(self@, 11),
                level_measure(self@, 12),
                level_measure(self@, 13),
                level_measure(self@, 14),
                level_measure(self@, 15),
                level_measure(self@, 16),
        {
            if self.program_counter >= MEM_SIZE - 1 {
                proof {
                    assert(step_n(start, rounds + 1) == Outcome::Faulted(
                        Fault::OutOfBoundsFetch,
                        self@,
                    ));
                }
                return Err(Fault::OutOfBoundsFetch);
            }
            let ghost pre = self@;
            let opcode = self.read_opcode();
            self.program_counter = self.program_counter + 2;

            let c = (opcode >> 12) & 0xF;
            let x = (opcode >> 8) & 0xF;
            let y = (opcode >> 4) & 0xF;
            let d = opcode & 0xF;
            let nnn = opcode & 0xFFF;

            proof {
                assert((opcode >> 8) & 0xF < 16 && (opcode >> 4) & 0xF < 16) by (bit_vector);
                assert(self@ == (CpuState { pc: pre.pc + 2, ..pre }));
            }

            if c == 0 && x == 0 && y == 0 && d == 0 {
                proof {
                    assert(step_n(start, rounds + 1) == Outcome::Halted(self@));
                }
                return Ok(());
            } else if c == 0x8 && d == 0x4 {
                self.add_xy(x as u8, y as u8);
                proof {
                    rounds = rounds + 1;
                    assert(step(pre) == Outcome::Running(self@));
                    assert(step_n(start, rounds) == Outcome::Running(self@));
                }
            } else if c == 0x2 {
                match self.call(nnn) {
                    Ok(()) => {
                        proof {
                            rounds = rounds + 1;
                            assert(step(pre) == Outcome::Running(self@));
                            assert(step_n(start, rounds) == Outcome::Running(self@));
                        }
                    },
                    Err(fault) => {
                        proof {
                            assert(step_n(start, rounds + 1) == Outcome::Faulted(fault, self@));
                        }
                        return Err(fault);
                    },
                }
            } else if c == 0 && x == 0 && y == 0xE && d == 0xE {
                match self.ret() {
                    Ok(()) => {
                        proof {
                            rounds = rounds + 1;
                            assert(step(pre) == Outcome::Running(self@));
                            assert(step_n(start, rounds) == Outcome::Running(self@));
                        }
                    },
                    Err(fault) => {
                        proof {
                            assert(step_n(start, rounds + 1) == Outcome::Faulted(fault, self@));
                        }
                        return Err(fault);
                    },
                }
            } else {
                proof {
                    assert(step_n(start, rounds + 1) == Outcome::Faulted(
                        Fault::Unimplemented(opcode),
                        self@,
                    ));
                }
                return Err(Fault::Unimplemented(opcode));
            }
        }
    }

    /// Leave the current subroutine: pop the youngest return address
    /// into the program counter.  Fails with [`Fault::StackUnderflow`],
    /// leaving the state unchanged, exactly when no call is pending.
    pub fn ret(&mut self) -> (result: Result<(), Fault>)
        requires
            old(self)@.wf(),
        ensures
            final(self)@.wf(),
            old(self)@.sp == 0 ==> result == Err::<(), Fault>(Fault::StackUnderflow)
                && final(self)@ == old(self)@,
            old(self)@.sp > 0 ==> result == Ok::<(), Fault>(()) && final(self)@ == (CpuState {
                sp: (old(self)@.sp - 1) as nat,
                pc: old(self)@.stack[old(self)@.sp as int - 1] as nat,
                ..old(self)@
            }),
    {
        if self.stack_pointer == 0 {
            return Err(Fault::StackUnderflow);
        }
        self.stack_pointer = self.stack_pointer - 1;
        let call_addr = self.stack[self.stack_pointer];
        self.program_counter = call_addr as usize;
        Ok(())
    }
}

} // verus!
