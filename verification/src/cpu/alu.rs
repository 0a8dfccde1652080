//! Shifts, logic, comparisons, additions, the divider and the moves from and to HI and LO.

use vstd::prelude::*;
use crate::cpu::arith::{as_signed, as_unsigned, divide};
use crate::cpu::state::Exception;
use crate::cpu::Cpu;
use crate::instruction::Instruction;

verus! {

impl Cpu {
    pub(crate) fn op_sll(&mut self, instruction: Instruction)
        requires
            old(self).inv(),
        ensures
            final(self).inv(),
            final(self)@ == old(self)@.op_sll(instruction),
    {
        let i = instruction.shift_imm();
        let t = instruction.t();
        let d = instruction.d();

        let v = self.reg(t) << i;

        self.handle_load_delay();

        self.set_reg(d, v)
    }

    pub(crate) fn op_srl(&mut self, instruction: Instruction)
        requires
            old(self).inv(),
        ensures
            final(self).inv(),
            final(self)@ == old(self)@.op_srl(instruction),
    {
        let i = instruction.shift_imm();
        let t = instruction.t();
        let d = instruction.d();

        let v = self.reg(t) >> i;

        self.handle_load_delay();

        self.set_reg(d, v)
    }

    pub(crate) fn op_sra(&mut self, instruction: Instruction)
        requires
            old(self).inv(),
        ensures
            final(self).inv(),
            final(self)@ == old(self)@.op_sra(instruction),
    {
        let i = instruction.shift_imm();
        let t = instruction.t();
        let d = instruction.d();

        let v = (self.reg(t) as i32) >> i;

        self.handle_load_delay();

        self.set_reg(d, v as u32)
    }

    pub(crate) fn op_lui(&mut self, instruction: Instruction)
        requires
            old(self).inv(),
        ensures
            final(self).inv(),
            final(self)@ == old(self)@.op_lui(instruction),
    {
        let i = instruction.imm();
        let t = instruction.t();

        let v = i << 16;

        self.handle_load_delay();

        self.set_reg(t, v);
    }

    pub(crate) fn op_ori(&mut self, instruction: Instruction)
        requires
            old(self).inv(),
        ensures
            final(self).inv(),
            final(self)@ == old(self)@.op_ori(instruction),
    {
        let i = instruction.imm();
        let t = instruction.t();
        let s = instruction.s();

        let v = self.reg(s) | i;

        self.handle_load_delay();

        self.set_reg(t, v)
    }

    pub(crate) fn op_andi(&mut self, instruction: Instruction)
        requires
            old(self).inv(),
        ensures
            final(self).inv(),
            final(self)@ == old(self)@.op_andi(instruction),
    {
        let i = instruction.imm();
        let t = instruction.t();
        let s = instruction.s();

        let v = self.reg(s) & i;

        self.handle_load_delay();

        self.set_reg(t, v)
    }

    pub(crate) fn op_or(&mut self, instruction: Instruction)
        requires
            old(self).inv(),
        ensures
            final(self).inv(),
            final(self)@ == old(self)@.op_or(instruction),
    {
        let d = instruction.d();
        let s = instruction.s();
        let t = instruction.t();

        let v = self.reg(s) | self.reg(t);

        self.handle_load_delay();

        self.set_reg(d, v)
    }

    pub(crate) fn op_and(&mut self, instruction: Instruction)
        requires
            old(self).inv(),
        ensures
            final(self).inv(),
            final(self)@ == old(self)@.op_and(instruction),
    {
        let d = instruction.d();
        let t = instruction.t();
        let s = instruction.s();

        let v = self.reg(s) & self.reg(t);

        self.handle_load_delay();

        self.set_reg(d, v)
    }

    pub(crate) fn op_slti(&mut self, instruction: Instruction)
        requires
            old(self).inv(),
        ensures
            final(self).inv(),
            final(self)@ == old(self)@.op_slti(instruction),
    {
        let i = as_signed(instruction.imm_se());
        let s = instruction.s();
        let t = instruction.t();

        let v = as_signed(self.reg(s)) < i;

        self.handle_load_delay();

        self.set_reg(t, v as u32);
    }

    pub(crate) fn op_sltiu(&mut self, instruction: Instruction)
        requires
            old(self).inv(),
        ensures
            final(self).inv(),
            final(self)@ == old(self)@.op_sltiu(instruction),
    {
        let i = instruction.imm_se();
        let s = instruction.s();
        let t = instruction.t();

        let v = self.reg(s) < i;

        self.handle_load_delay();

        self.set_reg(t, v as u32);
    }

    pub(crate) fn op_slt(&mut self, instruction: Instruction)
        requires
            old(self).inv(),
        ensures
            final(self).inv(),
            final(self)@ == old(self)@.op_slt(instruction),
    {
        let s = instruction.s();
        let t = instruction.t();
        let d = instruction.d();

        let s = as_signed(self.reg(s));
        let t = as_signed(self.reg(t));

        let v = s < t;

        self.handle_load_delay();

        self.set_reg(d, v as u32);
    }

    pub(crate) fn op_sltu(&mut self, instruction: Instruction)
        requires
            old(self).inv(),
        ensures
            final(self).inv(),
            final(self)@ == old(self)@.op_sltu(instruction),
    {
        let s = instruction.s();
        let t = instruction.t();
        let d = instruction.d();

        let v = self.reg(s) < self.reg(t);

        self.handle_load_delay();

        self.set_reg(d, v as u32);
    }

    pub(crate) fn op_add(&mut self, instruction: Instruction)
        requires
            old(self).inv(),
        ensures
            final(self).inv(),
            final(self)@ == old(self)@.op_add(instruction),
    {
        let d = instruction.d();
        let t = instruction.t();
        let s = instruction.s();

        let s = as_signed(self.reg(s));
        let t = as_signed(self.reg(t));

        match s.checked_add(t) {
            Some(v) => {
                self.handle_load_delay();
                self.set_reg(d, as_unsigned(v))
            },
            None => self.exception(Exception::Overflow),
        };
    }

    pub(crate) fn op_addi(&mut self, instruction: Instruction)
        requires
            old(self).inv(),
        ensures
            final(self).inv(),
            final(self)@ == old(self)@.op_addi(instruction),
    {
        let i = as_signed(instruction.imm_se());
        let t = instruction.t();
        let s = instruction.s();

        let s = as_signed(self.reg(s));

        match s.checked_add(i) {
            Some(v) => {
                self.handle_load_delay();
                self.set_reg(t, as_unsigned(v))
            },
            None => self.exception(Exception::Overflow),
        };
    }

    pub(crate) fn op_addiu(&mut self, instruction: Instruction)
        requires
            old(self).inv(),
        ensures
            final(self).inv(),
            final(self)@ == old(self)@.op_addiu(instruction),
    {
        let i = instruction.imm_se();
        let t = instruction.t();
        let s = instruction.s();

        let v = self.reg(s).wrapping_add(i);

        self.handle_load_delay();

        self.set_reg(t, v)
    }

    pub(crate) fn op_addu(&mut self, instruction: Instruction)
        requires
            old(self).inv(),
        ensures
            final(self).inv(),
            final(self)@ == old(self)@.op_addu(instruction),
    {
        let d = instruction.d();
        let t = instruction.t();
        let s = instruction.s();

        let v = self.reg(s).wrapping_add(self.reg(t));

        self.handle_load_delay();

        self.set_reg(d, v)
    }

    pub(crate) fn op_subu(&mut self, instruction: Instruction)
        requires
            old(self).inv(),
        ensures
            final(self).inv(),
            final(self)@ == old(self)@.op_subu(instruction),
    {
        let d = instruction.d();
        let t = instruction.t();
        let s = instruction.s();

        let v = self.reg(s).wrapping_sub(self.reg(t));

        self.handle_load_delay();

        self.set_reg(d, v)
    }

    pub(crate) fn op_div(&mut self, instruction: Instruction)
        requires
            old(self).inv(),
        ensures
            final(self).inv(),
            final(self)@ == old(self)@.op_div(instruction),
    {
        let s = instruction.s();
        let t = instruction.t();

        let dividend = self.reg(s);
        let n = as_signed(dividend);
        let d = as_signed(self.reg(t));

        self.handle_load_delay();

        if d == 0 {
            // Division by zero, results are bogus
            self.hi = dividend;
            if n >= 0 {
                self.lo = 0xffff_ffff;
            } else {
                self.lo = 1;
            }
        } else if dividend == 0x8000_0000 && d == -1 {
            // The quotient does not fit 32 bits
            self.hi = 0;
            self.lo = 0x8000_0000;
        } else {
            let (quotient, remainder) = divide(n, d);
            self.hi = as_unsigned(remainder);
            self.lo = as_unsigned(quotient);
        }
    }

    pub(crate) fn op_divu(&mut self, instruction: Instruction)
        requires
            old(self).inv(),
        ensures
            final(self).inv(),
            final(self)@ == old(self)@.op_divu(instruction),
    {
        let s = instruction.s();
        let t = instruction.t();

        let n = self.reg(s);
        let d = self.reg(t);

        self.handle_load_delay();

        if d == 0 {
            // Division by zero, results are bogus
            self.hi = n;
            self.lo = 0xffff_ffff;
        } else {
            self.hi = n % d;
            self.lo = n / d;
        }
    }

    pub(crate) fn op_mfhi(&mut self, instruction: Instruction)
        requires
            old(self).inv(),
        ensures
            final(self).inv(),
            final(self)@ == old(self)@.op_mfhi(instruction),
    {
        let d = instruction.d();

        let hi = self.hi;

        self.handle_load_delay();

        self.set_reg(d, hi);
    }

    pub(crate) fn op_mthi(&mut self, instruction: Instruction)
        requires
            old(self).inv(),
        ensures
            final(self).inv(),
            final(self)@ == old(self)@.op_mthi(instruction),
    {
        let s = instruction.s();

        self.hi = self.reg(s);

        self.handle_load_delay();
    }

    pub(crate) fn op_mflo(&mut self, instruction: Instruction)
        requires
            old(self).inv(),
        ensures
            final(self).inv(),
            final(self)@ == old(self)@.op_mflo(instruction),
    {
        let d = instruction.d();

        let lo = self.lo;

        self.handle_load_delay();

        self.set_reg(d, lo);
    }

    pub(crate) fn op_mtlo(&mut self, instruction: Instruction)
        requires
            old(self).inv(),
        ensures
            final(self).inv(),
            final(self)@ == old(self)@.op_mtlo(instruction),
    {
        let s = instruction.s();

        self.lo = self.reg(s);

        self.handle_load_delay();
    }
}

} // verus!
