//! `SYSCALL` and the COP0 instructions: the moves from and to the status,
//! cause and exception-PC registers, and the return from an exception.

use vstd::prelude::*;
use crate::cpu::state::Exception;
use crate::cpu::Cpu;
use crate::fault::Fault;
use crate::instruction::Instruction;

verus! {

impl Cpu {
    /// Why `MFC0` cannot run, if it cannot.
    pub(crate) fn mfc0_fault(&self, instruction: Instruction) -> (r: Option<Fault>)
        ensures
            r == self@.mfc0_fault(instruction),
    {
        match instruction.d().0 {
            12 | 13 | 14 => None,
            index => Some(Fault::UnhandledCop0Register { index }),
        }
    }

    /// Why `MTC0` cannot run in the present state, if it cannot.
    pub(crate) fn mtc0_fault(&self, instruction: Instruction) -> (r: Option<Fault>)
        requires
            self.inv(),
        ensures
            r == self@.mtc0_fault(instruction),
    {
        let value = self.reg(instruction.t());
        match instruction.d().0 {
            12 => None,
            3 | 5 | 6 | 7 | 9 | 11 | 13 => {
                if value != 0 {
                    Some(Fault::UnhandledCop0Write { index: instruction.d().0, value })
                } else {
                    None
                }
            },
            index => Some(Fault::UnhandledCop0Register { index }),
        }
    }

    /// Why the COP0 instruction cannot run in the present state, if it cannot.
    pub(crate) fn cop0_fault(&self, instruction: Instruction) -> (r: Option<Fault>)
        requires
            self.inv(),
        ensures
            r == self@.cop0_fault(instruction),
    {
        match instruction.cop_opcode() {
            0b00000 => self.mfc0_fault(instruction),
            0b00100 => self.mtc0_fault(instruction),
            0b10000 => {
                if instruction.subfunction() == 0b010000 {
                    None
                } else {
                    Some(Fault::UnhandledInstruction { word: instruction.0 })
                }
            },
            _ => Some(Fault::UnhandledInstruction { word: instruction.0 }),
        }
    }

    pub(crate) fn op_syscall(&mut self, instruction: Instruction)
        requires
            old(self).inv(),
        ensures
            final(self).inv(),
            final(self)@ == old(self)@.op_syscall(instruction),
    {
        self.exception(Exception::SysCall);
    }

    pub(crate) fn op_cop0(&mut self, instruction: Instruction)
        requires
            old(self).inv(),
            old(self)@.cop0_fault(instruction) is None,
        ensures
            final(self).inv(),
            final(self)@ == old(self)@.op_cop0(instruction),
    {
        match instruction.cop_opcode() {
            0b00000 => self.op_mfc0(instruction),
            0b00100 => self.op_mtc0(instruction),
            0b10000 => self.op_rfe(instruction),
            _ => {},
        }
    }

    pub(crate) fn op_mtc0(&mut self, instruction: Instruction)
        requires
            old(self).inv(),
            old(self)@.mtc0_fault(instruction) is None,
        ensures
            final(self).inv(),
            final(self)@ == old(self)@.op_mtc0(instruction),
    {
        let cpu_r = instruction.t();
        let cop_r = instruction.d();

        let v = self.reg(cpu_r);

        self.handle_load_delay();

        match cop_r.0 {
            12 => self.sr = v,
            // The breakpoint registers and CAUSE only ever take zero
            _ => {},
        }
    }

    pub(crate) fn op_mfc0(&mut self, instruction: Instruction)
        requires
            old(self).inv(),
            old(self)@.mfc0_fault(instruction) is None,
        ensures
            final(self).inv(),
            final(self)@ == old(self)@.op_mfc0(instruction),
    {
        let cpu_r = instruction.t();
        let cop_r = instruction.d().0;

        let v = match cop_r {
            12 => self.sr,
            13 => self.cause,
            _ => self.epc,
        };

        self.handle_load_delay_chain(cpu_r, v);
    }

    /// Return from exception.
    pub(crate) fn op_rfe(&mut self, instruction: Instruction)
        requires
            old(self).inv(),
        ensures
            final(self).inv(),
            final(self)@ == old(self)@.op_rfe(instruction),
    {
        let sr = self.sr;

        self.handle_load_delay();

        self.sr = (sr & 0xffff_ffc0) | (((sr & 0x3f) >> 2) | (sr & 0x30));
    }
}

} // verus!
