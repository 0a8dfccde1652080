//! Jumps and branches. Each writes `next_pc`, so the instruction in the
//! delay slot, which `pc` already points at, runs before the target.

use vstd::prelude::*;
use crate::cpu::arith::as_signed;
use crate::cpu::Cpu;
use crate::instruction::{Instruction, RegisterIndex};

verus! {

impl Cpu {
    pub(crate) fn op_j(&mut self, instruction: Instruction)
        requires
            old(self).inv(),
        ensures
            final(self).inv(),
            final(self)@ == old(self)@.op_j(instruction),
    {
        let i = instruction.imm_jump();

        self.next_pc = (self.pc & 0xf000_0000) | (i << 2);
        self.branch = true;

        self.handle_load_delay();
    }

    pub(crate) fn op_jal(&mut self, instruction: Instruction)
        requires
            old(self).inv(),
        ensures
            final(self).inv(),
            final(self)@ == old(self)@.op_jal(instruction),
    {
        let ra = self.next_pc;

        self.op_j(instruction);

        self.set_reg(RegisterIndex(31), ra);
    }

    pub(crate) fn op_jr(&mut self, instruction: Instruction)
        requires
            old(self).inv(),
        ensures
            final(self).inv(),
            final(self)@ == old(self)@.op_jr(instruction),
    {
        let s = instruction.s();

        self.next_pc = self.reg(s);
        self.branch = true;

        self.handle_load_delay();
    }

    pub(crate) fn op_jalr(&mut self, instruction: Instruction)
        requires
            old(self).inv(),
        ensures
            final(self).inv(),
            final(self)@ == old(self)@.op_jalr(instruction),
    {
        let d = instruction.d();
        let s = instruction.s();

        let ra = self.next_pc;
        self.next_pc = self.reg(s);
        self.branch = true;

        self.handle_load_delay();

        self.set_reg(d, ra);
    }

    pub(crate) fn op_beq(&mut self, instruction: Instruction)
        requires
            old(self).inv(),
        ensures
            final(self).inv(),
            final(self)@ == old(self)@.op_beq(instruction),
    {
        let i = instruction.imm_se();
        let t = instruction.t();
        let s = instruction.s();

        if self.reg(s) == self.reg(t) {
            self.branch(i);
        }

        self.handle_load_delay();
    }

    pub(crate) fn op_bne(&mut self, instruction: Instruction)
        requires
            old(self).inv(),
        ensures
            final(self).inv(),
            final(self)@ == old(self)@.op_bne(instruction),
    {
        let i = instruction.imm_se();
        let t = instruction.t();
        let s = instruction.s();

        if self.reg(s) != self.reg(t) {
            self.branch(i);
        }

        self.handle_load_delay();
    }

    pub(crate) fn op_blez(&mut self, instruction: Instruction)
        requires
            old(self).inv(),
        ensures
            final(self).inv(),
            final(self)@ == old(self)@.op_blez(instruction),
    {
        let i = instruction.imm_se();
        let s = instruction.s();

        let v = as_signed(self.reg(s));

        if v <= 0 {
            self.branch(i);
        }

        self.handle_load_delay();
    }

    pub(crate) fn op_bgtz(&mut self, instruction: Instruction)
        requires
            old(self).inv(),
        ensures
            final(self).inv(),
            final(self)@ == old(self)@.op_bgtz(instruction),
    {
        let i = instruction.imm_se();
        let s = instruction.s();

        let v = as_signed(self.reg(s));

        if v > 0 {
            self.branch(i);
        }

        self.handle_load_delay();
    }

    /// `BLTZ`, `BGEZ`, `BLTZAL` and `BGEZAL`, told apart by bits [20:16].
    pub(crate) fn op_bxx(&mut self, instruction: Instruction)
        requires
            old(self).inv(),
        ensures
            final(self).inv(),
            final(self)@ == old(self)@.op_bxx(instruction),
    {
        let i = instruction.imm_se();
        let s = instruction.s();

        let is_link = ((instruction.0 >> 17) & 0xf) == 0x8;
        let is_greater = (instruction.0 >> 16) & 1 != 0;

        let v = as_signed(self.reg(s));

        // The test is "less than zero", turned round for the greater-or-equal forms.
        let test = (v < 0) != is_greater;

        self.handle_load_delay();

        if is_link {
            let ra = self.next_pc;
            self.set_reg(RegisterIndex(31), ra);
        }

        if test {
            self.branch(i);
        }
    }
}

} // verus!
