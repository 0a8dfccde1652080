//! The CPU: 32 registers, three program counters that make the branch delay
//! slot, a one-place mailbox that makes the load delay slot, and the part of
//! COP0 that exceptions need.

use vstd::prelude::*;
use crate::fault::Fault;
use crate::instruction::{Instruction, Opcode, RegisterIndex};
use crate::interconnect::Interconnect;
use crate::map::Width;

pub mod alu;
pub mod arith;
pub mod cop0;
pub mod jump;
pub mod laws;
pub mod memory;
pub mod state;

use crate::cpu::state::{CpuState, Exception};

verus! {

/// The CPU, with the interconnect that it owns.
pub struct Cpu {
    /// Address of the next instruction to fetch.
    pc: u32,
    /// Address of the instruction that is executing.
    curr_pc: u32,
    /// Address that is fetched after `pc`.
    next_pc: u32,
    regs: [u32; 32],
    inter: Interconnect,
    /// The load in flight.
    load: Option<(RegisterIndex, u32)>,
    hi: u32,
    lo: u32,
    /// COP0 register 12, the status register.
    sr: u32,
    /// COP0 register 13.
    cause: u32,
    /// COP0 register 14.
    epc: u32,
    branch: bool,
    delay_slot: bool,
}

impl View for Cpu {
    type V = CpuState;

    closed spec fn view(&self) -> CpuState {
        CpuState {
            pc: self.pc,
            current_pc: self.curr_pc,
            next_pc: self.next_pc,
            regs: self.regs@,
            hi: self.hi,
            lo: self.lo,
            pending_load: self.load,
            sr: self.sr,
            cause: self.cause,
            epc: self.epc,
            branch_taken: self.branch,
            in_delay_slot: self.delay_slot,
            mem: self.inter@,
        }
    }
}

impl Cpu {
    /// Register 0 holds zero, a load in flight is bound for a register that
    /// exists, and the memory behind the interconnect has its full size.
    pub open spec fn inv(&self) -> bool {
        self@.wf()
    }

    /// A CPU in its reset state, about to fetch the first word of the BIOS.
    pub fn new(inter: Interconnect) -> (cpu: Cpu)
        requires
            inter.inv(),
        ensures
            cpu.inv(),
            cpu@ == CpuState::reset(inter@),
    {
        let mut regs = [0xdead_beefu32; 32];
        regs[0] = 0;
        let cpu = Cpu {
            pc: 0xbfc0_0000,
            curr_pc: 0xbfc0_0000,
            next_pc: 0xbfc0_0004,
            regs,
            inter,
            load: None,
            hi: 0,
            lo: 0,
            sr: 0,
            cause: 0,
            epc: 0,
            branch: false,
            delay_slot: false,
        };
        assert(cpu@.regs =~= CpuState::reset(inter@).regs);
        cpu
    }

    /// Address of the next instruction to fetch.
    pub fn pc(&self) -> (v: u32)
        ensures
            v == self@.pc,
    {
        self.pc
    }

    /// Address of the instruction that ran last.
    pub fn current_pc(&self) -> (v: u32)
        ensures
            v == self@.current_pc,
    {
        self.curr_pc
    }

    /// Address that is fetched after `pc`.
    pub fn next_pc(&self) -> (v: u32)
        ensures
            v == self@.next_pc,
    {
        self.next_pc
    }

    /// The HI register: the remainder of the last division.
    pub fn hi(&self) -> (v: u32)
        ensures
            v == self@.hi,
    {
        self.hi
    }

    /// The LO register: the quotient of the last division.
    pub fn lo(&self) -> (v: u32)
        ensures
            v == self@.lo,
    {
        self.lo
    }

    /// COP0 register 12, the status register.
    pub fn sr(&self) -> (v: u32)
        ensures
            v == self@.sr,
    {
        self.sr
    }

    /// COP0 register 13.
    pub fn cause(&self) -> (v: u32)
        ensures
            v == self@.cause,
    {
        self.cause
    }

    /// COP0 register 14.
    pub fn epc(&self) -> (v: u32)
        ensures
            v == self@.epc,
    {
        self.epc
    }

    /// The load in flight: the register it is bound for, and the value.
    pub fn pending_load(&self) -> (v: Option<(RegisterIndex, u32)>)
        ensures
            v == self@.pending_load,
    {
        self.load
    }

    /// Whether the instruction that ran last was a branch or jump that was taken.
    pub fn branch_taken(&self) -> (v: bool)
        ensures
            v == self@.branch_taken,
    {
        self.branch
    }

    /// Whether the instruction that ran last sat in a branch delay slot.
    pub fn in_delay_slot(&self) -> (v: bool)
        ensures
            v == self@.in_delay_slot,
    {
        self.delay_slot
    }

    /// The interconnect, to look at memory.
    pub fn interconnect(&self) -> (inter: &Interconnect)
        ensures
            inter@ == self@.mem,
    {
        &self.inter
    }

    /// Reads a register.
    pub fn reg(&self, index: RegisterIndex) -> (v: u32)
        requires
            index.0 < 32,
        ensures
            v == self@.reg(index),
    {
        self.regs[index.0 as usize]
    }

    /// Writes a register. Register 0 stays zero whatever is written to it.
    pub fn set_reg(&mut self, index: RegisterIndex, val: u32)
        requires
            old(self).inv(),
            index.0 < 32,
        ensures
            final(self).inv(),
            final(self)@ == old(self)@.set_reg(index, val),
    {
        self.regs[index.0 as usize] = val;
        self.regs[0] = 0;
        assert(self.regs@ =~= old(self)@.set_reg(index, val).regs);
    }

    /// Why the next step cannot run, if it cannot. `None` is what
    /// `run_next_instruction` asks for.
    pub fn next_fault(&self) -> (r: Option<Fault>)
        requires
            self.inv(),
        ensures
            r == self@.step_fault(),
    {
        match Interconnect::load_fault(Width::Word, self.pc) {
            Some(fault) => Some(fault),
            None => {
                let instruction = Instruction(self.load32(self.pc));
                proof {
                    self@.lemma_fault_ignores_counters(instruction);
                }
                self.execute_fault(instruction)
            },
        }
    }

    /// Runs one instruction: fetches the word at `pc`, moves the program
    /// counters and branch flags on, and executes the word.
    pub fn run_next_instruction(&mut self)
        requires
            old(self).inv(),
            old(self)@.step_fault() is None,
        ensures
            final(self).inv(),
            final(self)@ == old(self)@.step(),
            final(self)@.regs[0] == 0,
    {
        self.curr_pc = self.pc;
        self.pc = self.next_pc;
        self.next_pc = self.pc.wrapping_add(4);

        let instruction = Instruction(self.load32(self.curr_pc));

        self.delay_slot = self.branch;
        self.branch = false;

        self.decode_and_execute(instruction);
    }

    pub(crate) fn load8(&self, addr: u32) -> (v: u8)
        requires
            self.inv(),
            crate::interconnect::load_fault(Width::Byte, addr) is None,
        ensures
            v == self@.mem.load8(addr),
    {
        self.inter.load8(addr)
    }

    pub(crate) fn load32(&self, addr: u32) -> (v: u32)
        requires
            self.inv(),
            crate::interconnect::load_fault(Width::Word, addr) is None,
        ensures
            v == self@.mem.load32(addr),
    {
        self.inter.load32(addr)
    }

    pub(crate) fn store8(&mut self, addr: u32, val: u8)
        requires
            old(self).inv(),
            crate::interconnect::store_fault(Width::Byte, addr, val as u32) is None,
        ensures
            final(self).inv(),
            final(self)@ == (CpuState { mem: old(self)@.mem.store8(addr, val), ..old(self)@ }),
    {
        self.inter.store8(addr, val);
    }

    pub(crate) fn store16(&mut self, addr: u32, val: u16)
        requires
            old(self).inv(),
            crate::interconnect::store_fault(Width::Half, addr, val as u32) is None,
        ensures
            final(self).inv(),
            final(self)@ == (CpuState { mem: old(self)@.mem.store16(addr, val), ..old(self)@ }),
    {
        self.inter.store16(addr, val);
    }

    pub(crate) fn store32(&mut self, addr: u32, val: u32)
        requires
            old(self).inv(),
            crate::interconnect::store_fault(Width::Word, addr, val) is None,
        ensures
            final(self).inv(),
            final(self)@ == (CpuState { mem: old(self)@.mem.store32(addr, val), ..old(self)@ }),
    {
        self.inter.store32(addr, val);
    }

    /// Why the instruction cannot run in the present state, if it cannot.
    pub fn execute_fault(&self, instruction: Instruction) -> (r: Option<Fault>)
        requires
            self.inv(),
        ensures
            r == self@.execute_fault(instruction),
    {
        reveal(CpuState::execute_fault);
        match instruction.decode() {
            None => Some(Fault::UnhandledInstruction { word: instruction.0 }),
            Some(Opcode::Lb) | Some(Opcode::Lbu) => self.load_fault(instruction, Width::Byte),
            Some(Opcode::Lw) => self.load_fault(instruction, Width::Word),
            Some(Opcode::Sb) => self.store_fault(instruction, Width::Byte),
            Some(Opcode::Sh) => self.store_fault(instruction, Width::Half),
            Some(Opcode::Sw) => self.store_fault(instruction, Width::Word),
            Some(Opcode::Cop0) => self.cop0_fault(instruction),
            Some(_) => None,
        }
    }

    /// Decodes the instruction and runs it.
    pub fn decode_and_execute(&mut self, instruction: Instruction)
        requires
            old(self).inv(),
            old(self)@.execute_fault(instruction) is None,
        ensures
            final(self).inv(),
            final(self)@ == old(self)@.execute(instruction),
            final(self)@.regs[0] == 0,
    {
        reveal(CpuState::execute_fault);
        reveal(CpuState::execute);
        match instruction.decode() {
            None => {},
            Some(Opcode::Sll) => self.op_sll(instruction),
            Some(Opcode::Srl) => self.op_srl(instruction),
            Some(Opcode::Sra) => self.op_sra(instruction),
            Some(Opcode::Jr) => self.op_jr(instruction),
            Some(Opcode::Jalr) => self.op_jalr(instruction),
            Some(Opcode::Syscall) => self.op_syscall(instruction),
            Some(Opcode::Mfhi) => self.op_mfhi(instruction),
            Some(Opcode::Mthi) => self.op_mthi(instruction),
            Some(Opcode::Mflo) => self.op_mflo(instruction),
            Some(Opcode::Mtlo) => self.op_mtlo(instruction),
            Some(Opcode::Div) => self.op_div(instruction),
            Some(Opcode::Divu) => self.op_divu(instruction),
            Some(Opcode::Add) => self.op_add(instruction),
            Some(Opcode::Addu) => self.op_addu(instruction),
            Some(Opcode::Subu) => self.op_subu(instruction),
            Some(Opcode::And) => self.op_and(instruction),
            Some(Opcode::Or) => self.op_or(instruction),
            Some(Opcode::Slt) => self.op_slt(instruction),
            Some(Opcode::Sltu) => self.op_sltu(instruction),
            Some(Opcode::Bxx) => self.op_bxx(instruction),
            Some(Opcode::J) => self.op_j(instruction),
            Some(Opcode::Jal) => self.op_jal(instruction),
            Some(Opcode::Beq) => self.op_beq(instruction),
            Some(Opcode::Bne) => self.op_bne(instruction),
            Some(Opcode::Blez) => self.op_blez(instruction),
            Some(Opcode::Bgtz) => self.op_bgtz(instruction),
            Some(Opcode::Addi) => self.op_addi(instruction),
            Some(Opcode::Addiu) => self.op_addiu(instruction),
            Some(Opcode::Slti) => self.op_slti(instruction),
            Some(Opcode::Sltiu) => self.op_sltiu(instruction),
            Some(Opcode::Andi) => self.op_andi(instruction),
            Some(Opcode::Ori) => self.op_ori(instruction),
            Some(Opcode::Lui) => self.op_lui(instruction),
            Some(Opcode::Cop0) => self.op_cop0(instruction),
            Some(Opcode::Lb) => self.op_lb(instruction),
            Some(Opcode::Lw) => self.op_lw(instruction),
            Some(Opcode::Lbu) => self.op_lbu(instruction),
            Some(Opcode::Sb) => self.op_sb(instruction),
            Some(Opcode::Sh) => self.op_sh(instruction),
            Some(Opcode::Sw) => self.op_sw(instruction),
        }
    }

    /// Lets the load in flight land, before an instruction that is no load
    /// writes its own result.
    pub(crate) fn handle_load_delay(&mut self)
        requires
            old(self).inv(),
        ensures
            final(self).inv(),
            final(self)@ == old(self)@.commit_load(),
    {
        if let Some((load_reg, v)) = self.load {
            self.set_reg(load_reg, v);
            self.load = None;
        }
    }

    /// Puts a new load in flight. The older one lands, unless it is bound
    /// for the same register.
    pub(crate) fn handle_load_delay_chain(&mut self, new_load_reg: RegisterIndex, new_v: u32)
        requires
            old(self).inv(),
            new_load_reg.0 < 32,
        ensures
            final(self).inv(),
            final(self)@ == old(self)@.chain_load(new_load_reg, new_v),
    {
        if let Some((load_reg, v)) = self.load {
            if new_load_reg.0 != load_reg.0 {
                self.set_reg(load_reg, v);
            }
        }
        self.load = Some((new_load_reg, new_v))
    }

    /// Enters an exception.
    pub(crate) fn exception(&mut self, cause: Exception)
        requires
            old(self).inv(),
        ensures
            final(self).inv(),
            final(self)@ == old(self)@.raise(cause),
    {
        let handler: u32 = match self.sr & 0x40_0000 != 0 {
            true => 0xbfc0_0180,
            false => 0x8000_0080,
        };

        self.sr = (self.sr & 0xffff_ffc0) | (((self.sr & 0xf) << 2) | (self.sr & 0x30));

        self.cause = cause.code() << 2;
        self.epc = self.curr_pc;

        if self.delay_slot {
            self.epc = self.epc.wrapping_sub(4);
            self.cause = self.cause | 0x8000_0000;
        }

        self.pc = handler;
        self.next_pc = self.pc.wrapping_add(4);
        self.load = None;
    }

    /// Branches by `offset` instructions, relative to the delay slot.
    pub(crate) fn branch(&mut self, offset: u32)
        requires
            old(self).inv(),
        ensures
            final(self).inv(),
            final(self)@ == old(self)@.branch(offset),
    {
        let offset = offset << 2;

        self.next_pc = self.pc.wrapping_add(offset);
        self.branch = true;
    }
}

} // verus!
