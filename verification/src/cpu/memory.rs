//! Loads and stores. A load puts its value in flight; a store goes through
//! the interconnect at once. With the caches isolated neither does anything.

use vstd::prelude::*;
use crate::cpu::arith::extend_byte;
use crate::cpu::state::Exception;
use crate::cpu::Cpu;
use crate::endian::{low_byte, low_half};
use crate::fault::Fault;
use crate::instruction::Instruction;
use crate::interconnect::Interconnect;
use crate::map::Width;

verus! {

impl Cpu {
    /// Why the load instruction cannot run in the present state, if it cannot.
    pub(crate) fn load_fault(&self, instruction: Instruction, width: Width) -> (r: Option<Fault>)
        requires
            self.inv(),
        ensures
            r == self@.load_fault(instruction, width),
    {
        let addr = self.reg(instruction.s()).wrapping_add(instruction.imm_se());
        if self.sr & 0x1_0000 != 0 || addr % width.bytes() != 0 {
            None
        } else {
            Interconnect::load_fault(width, addr)
        }
    }

    /// Why the store instruction cannot run in the present state, if it cannot.
    pub(crate) fn store_fault(&self, instruction: Instruction, width: Width) -> (r: Option<Fault>)
        requires
            self.inv(),
        ensures
            r == self@.store_fault(instruction, width),
    {
        let addr = self.reg(instruction.s()).wrapping_add(instruction.imm_se());
        let v = self.reg(instruction.t());
        if self.sr & 0x1_0000 != 0 || addr % width.bytes() != 0 {
            None
        } else {
            let value = match width {
                Width::Byte => low_byte(v) as u32,
                Width::Half => low_half(v) as u32,
                Width::Word => v,
            };
            Interconnect::store_fault(width, addr, value)
        }
    }

    pub(crate) fn op_lb(&mut self, instruction: Instruction)
        requires
            old(self).inv(),
            old(self)@.load_fault(instruction, Width::Byte) is None,
        ensures
            final(self).inv(),
            final(self)@ == old(self)@.op_lb(instruction),
    {
        if self.sr & 0x1_0000 != 0 {
            // Cache is isolated, ignore the load
            return ;
        }
        let i = instruction.imm_se();
        let t = instruction.t();
        let s = instruction.s();

        let addr = self.reg(s).wrapping_add(i);

        let v = self.load8(addr);

        self.handle_load_delay_chain(t, extend_byte(v));
    }

    pub(crate) fn op_lbu(&mut self, instruction: Instruction)
        requires
            old(self).inv(),
            old(self)@.load_fault(instruction, Width::Byte) is None,
        ensures
            final(self).inv(),
            final(self)@ == old(self)@.op_lbu(instruction),
    {
        if self.sr & 0x1_0000 != 0 {
            // Cache is isolated, ignore the load
            return ;
        }
        let i = instruction.imm_se();
        let t = instruction.t();
        let s = instruction.s();

        let addr = self.reg(s).wrapping_add(i);

        let v = self.load8(addr);

        self.handle_load_delay_chain(t, v as u32);
    }

    pub(crate) fn op_lw(&mut self, instruction: Instruction)
        requires
            old(self).inv(),
            old(self)@.load_fault(instruction, Width::Word) is None,
        ensures
            final(self).inv(),
            final(self)@ == old(self)@.op_lw(instruction),
    {
        if self.sr & 0x1_0000 != 0 {
            // Cache is isolated, ignore the load
            return ;
        }
        let i = instruction.imm_se();
        let t = instruction.t();
        let s = instruction.s();

        let addr = self.reg(s).wrapping_add(i);
        if addr % 4 == 0 {
            let v = self.load32(addr);

            self.handle_load_delay_chain(t, v);
        } else {
            self.exception(Exception::LoadAddressError);
        }
    }

    pub(crate) fn op_sb(&mut self, instruction: Instruction)
        requires
            old(self).inv(),
            old(self)@.store_fault(instruction, Width::Byte) is None,
        ensures
            final(self).inv(),
            final(self)@ == old(self)@.op_sb(instruction),
    {
        if self.sr & 0x1_0000 != 0 {
            // Cache is isolated, ignore the store
            return ;
        }
        let i = instruction.imm_se();
        let t = instruction.t();
        let s = instruction.s();

        let addr = self.reg(s).wrapping_add(i);
        let v = self.reg(t);

        self.handle_load_delay();

        self.store8(addr, low_byte(v));
    }

    pub(crate) fn op_sh(&mut self, instruction: Instruction)
        requires
            old(self).inv(),
            old(self)@.store_fault(instruction, Width::Half) is None,
        ensures
            final(self).inv(),
            final(self)@ == old(self)@.op_sh(instruction),
    {
        if self.sr & 0x1_0000 != 0 {
            // Cache is isolated, ignore the store
            return ;
        }
        let i = instruction.imm_se();
        let t = instruction.t();
        let s = instruction.s();

        let addr = self.reg(s).wrapping_add(i);
        let v = self.reg(t);
        if addr % 2 == 0 {
            self.handle_load_delay();

            self.store16(addr, low_half(v));
        } else {
            self.exception(Exception::StoreAddressError);
        }
    }

    pub(crate) fn op_sw(&mut self, instruction: Instruction)
        requires
            old(self).inv(),
            old(self)@.store_fault(instruction, Width::Word) is None,
        ensures
            final(self).inv(),
            final(self)@ == old(self)@.op_sw(instruction),
    {
        if self.sr & 0x1_0000 != 0 {
            // Cache is isolated, ignore the store
            return ;
        }
        let i = instruction.imm_se();
        let t = instruction.t();
        let s = instruction.s();

        let addr = self.reg(s).wrapping_add(i);
        let v = self.reg(t);
        if addr % 4 == 0 {
            self.handle_load_delay();

            self.store32(addr, v);
        } else {
            self.exception(Exception::StoreAddressError);
        }
    }
}

} // verus!
