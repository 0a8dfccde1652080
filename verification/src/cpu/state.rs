//! The architectural state of the CPU as a mathematical value, and what
//! each instruction makes of it.

use vstd::prelude::*;
use crate::cpu::arith::{div_trunc, rem_trunc, sign_extend_8, signed, unsigned};
use crate::fault::Fault;
use crate::instruction::{Instruction, Opcode, RegisterIndex};
use crate::interconnect::{load_fault, store_fault, Memory};
use crate::map::Width;

verus! {

/// The exceptions that a guest program can raise.
#[derive(Clone, Copy, Debug, PartialEq, Eq)]
pub enum Exception {
    /// A load from an address that is not aligned to the width of the load.
    LoadAddressError,
    /// A store to an address that is not aligned to the width of the store.
    StoreAddressError,
    /// The `SYSCALL` instruction.
    SysCall,
    /// A signed addition whose sum does not fit 32 bits.
    Overflow,
}

impl Exception {
    /// The number that stands for the exception in the CAUSE register.
    pub open spec fn spec_code(self) -> u32 {
        match self {
            Exception::LoadAddressError => 4,
            Exception::StoreAddressError => 5,
            Exception::SysCall => 8,
            Exception::Overflow => 12,
        }
    }

    /// The number that stands for the exception in the CAUSE register.
    #[verifier::when_used_as_spec(spec_code)]
    pub fn code(self) -> (r: u32)
        ensures
            r == self.spec_code(),
    {
        match self {
            Exception::LoadAddressError => 4,
            Exception::StoreAddressError => 5,
            Exception::SysCall => 8,
            Exception::Overflow => 12,
        }
    }
}

/// Everything that an instruction can read or change.
pub struct CpuState {
    /// Address of the next instruction to fetch.
    pub pc: u32,
    /// Address of the instruction that is executing.
    pub current_pc: u32,
    /// Address that is fetched after `pc`. Branches and jumps write it.
    pub next_pc: u32,
    /// The 32 general-purpose registers. Register 0 is always zero.
    pub regs: Seq<u32>,
    pub hi: u32,
    pub lo: u32,
    /// A load in flight: the register it is bound for, and the value.
    pub pending_load: Option<(RegisterIndex, u32)>,
    /// COP0 register 12, the status register.
    pub sr: u32,
    /// COP0 register 13.
    pub cause: u32,
    /// COP0 register 14.
    pub epc: u32,
    /// The instruction that is executing is a branch or jump that wrote `next_pc`.
    pub branch_taken: bool,
    /// The instruction that is executing sits in the delay slot of such a branch.
    pub in_delay_slot: bool,
    pub mem: Memory,
}

impl CpuState {
    /// Register 0 holds zero, a load in flight is bound for a register that
    /// exists, and the memory has its full size.
    pub open spec fn wf(self) -> bool {
        &&& self.regs.len() == 32
        &&& self.regs[0] == 0
        &&& self.pending_load matches Some((index, _)) ==> index.0 < 32
        &&& self.mem.wf()
    }

    /// The state after reset, over the given memory.
    pub open spec fn reset(mem: Memory) -> CpuState {
        CpuState {
            pc: 0xbfc0_0000,
            current_pc: 0xbfc0_0000,
            next_pc: 0xbfc0_0004,
            regs: Seq::new(
                32,
                |i: int|
                    if i == 0 {
                        0u32
                    } else {
                        0xdead_beefu32
                    },
            ),
            hi: 0,
            lo: 0,
            pending_load: None,
            sr: 0,
            cause: 0,
            epc: 0,
            branch_taken: false,
            in_delay_slot: false,
            mem,
        }
    }

    /// What the register holds.
    pub open spec fn reg(self, index: RegisterIndex) -> u32 {
        self.regs[index.0 as int]
    }

    /// A register write. One to register 0 is dropped.
    pub open spec fn set_reg(self, index: RegisterIndex, value: u32) -> CpuState {
        if index.0 == 0 {
            self
        } else {
            CpuState { regs: self.regs.update(index.0 as int, value), ..self }
        }
    }

    /// The load in flight, if there is one, lands in its register.
    pub open spec fn commit_load(self) -> CpuState {
        match self.pending_load {
            Some((index, value)) => CpuState { pending_load: None, ..self.set_reg(index, value) },
            None => self,
        }
    }

    /// A new load takes the place of the one in flight. The older one lands
    /// in its register, unless both are bound for the same register: then
    /// the older value is lost.
    pub open spec fn chain_load(self, index: RegisterIndex, value: u32) -> CpuState {
        let landed = match self.pending_load {
            Some((older, older_value)) => if older.0 != index.0 {
                self.set_reg(older, older_value)
            } else {
                self
            },
            None => self,
        };
        CpuState { pending_load: Some((index, value)), ..landed }
    }

    /// Bit 16 of SR: the caches are isolated, and loads and stores do nothing.
    pub open spec fn cache_isolated(self) -> bool {
        self.sr & 0x1_0000 != 0
    }

    /// The exception vector, which bit 22 of SR selects.
    pub open spec fn handler(self) -> u32 {
        if self.sr & 0x40_0000 != 0 {
            0xbfc0_0180
        } else {
            0x8000_0080
        }
    }

    /// Entry into an exception. The mode stack in SR[5:0] is pushed, CAUSE
    /// takes the code, EPC the address to restart at (the branch, if the
    /// instruction sits in a delay slot, and then CAUSE[31] is set), the
    /// fetch goes on at the handler, and the load in flight is lost.
    pub open spec fn raise(self, exception: Exception) -> CpuState {
        CpuState {
            sr: (self.sr & 0xffff_ffc0) | (((self.sr & 0xf) << 2) | (self.sr & 0x30)),
            cause: if self.in_delay_slot {
                (exception.spec_code() << 2) | 0x8000_0000
            } else {
                exception.spec_code() << 2
            },
            epc: if self.in_delay_slot {
                self.current_pc.wrapping_sub(4)
            } else {
                self.current_pc
            },
            pc: self.handler(),
            next_pc: self.handler().wrapping_add(4),
            pending_load: None,
            ..self
        }
    }

    /// A branch relative to `pc`, which is the address of the delay slot.
    pub open spec fn branch(self, offset: u32) -> CpuState {
        CpuState { next_pc: self.pc.wrapping_add(offset << 2), branch_taken: true, ..self }
    }

    /// The address that a load or store works on: register `rs` plus the
    /// sign-extended immediate.
    pub open spec fn address(self, i: Instruction) -> u32 {
        self.reg(i.spec_s()).wrapping_add(i.spec_imm_se())
    }

    /// `SLL`: `rd` takes `rt` shifted left by the shift amount.
    pub open spec fn op_sll(self, i: Instruction) -> CpuState {
        self.commit_load().set_reg(i.spec_d(), self.reg(i.spec_t()) << i.spec_shift_imm())
    }

    /// `SRL`: `rd` takes `rt` shifted right by the shift amount, zeros coming in.
    pub open spec fn op_srl(self, i: Instruction) -> CpuState {
        self.commit_load().set_reg(i.spec_d(), self.reg(i.spec_t()) >> i.spec_shift_imm())
    }

    /// The arithmetic shift is the shift of `rt` read as a signed number.
    pub open spec fn op_sra(self, i: Instruction) -> CpuState {
        self.commit_load().set_reg(
            i.spec_d(),
            ((self.reg(i.spec_t()) as i32) >> i.spec_shift_imm()) as u32,
        )
    }

    /// `LUI`: `rt` takes the immediate in its upper half, zeros in the lower.
    pub open spec fn op_lui(self, i: Instruction) -> CpuState {
        self.commit_load().set_reg(i.spec_t(), i.spec_imm() << 16)
    }

    /// `ORI`: `rt` takes `rs` or-ed with the zero-extended immediate.
    pub open spec fn op_ori(self, i: Instruction) -> CpuState {
        self.commit_load().set_reg(i.spec_t(), self.reg(i.spec_s()) | i.spec_imm())
    }

    /// `ANDI`: `rt` takes `rs` and-ed with the zero-extended immediate.
    pub open spec fn op_andi(self, i: Instruction) -> CpuState {
        self.commit_load().set_reg(i.spec_t(), self.reg(i.spec_s()) & i.spec_imm())
    }

    /// `OR`: `rd` takes `rs` or-ed with `rt`.
    pub open spec fn op_or(self, i: Instruction) -> CpuState {
        self.commit_load().set_reg(i.spec_d(), self.reg(i.spec_s()) | self.reg(i.spec_t()))
    }

    /// `AND`: `rd` takes `rs` and-ed with `rt`.
    pub open spec fn op_and(self, i: Instruction) -> CpuState {
        self.commit_load().set_reg(i.spec_d(), self.reg(i.spec_s()) & self.reg(i.spec_t()))
    }

    /// `SLTI`: `rt` takes 1 if `rs` is less than the sign-extended immediate,
    /// both read as signed numbers, and 0 if not.
    pub open spec fn op_slti(self, i: Instruction) -> CpuState {
        self.commit_load().set_reg(
            i.spec_t(),
            if signed(self.reg(i.spec_s())) < signed(i.spec_imm_se()) {
                1
            } else {
                0
            },
        )
    }

    /// `SLTIU`: as `SLTI`, with both read as unsigned numbers.
    pub open spec fn op_sltiu(self, i: Instruction) -> CpuState {
        self.commit_load().set_reg(
            i.spec_t(),
            if self.reg(i.spec_s()) < i.spec_imm_se() {
                1
            } else {
                0
            },
        )
    }

    /// `SLT`: `rd` takes 1 if `rs` is less than `rt`, both read as signed
    /// numbers, and 0 if not.
    pub open spec fn op_slt(self, i: Instruction) -> CpuState {
        self.commit_load().set_reg(
            i.spec_d(),
            if signed(self.reg(i.spec_s())) < signed(self.reg(i.spec_t())) {
                1
            } else {
                0
            },
        )
    }

    /// `SLTU`: as `SLT`, with both read as unsigned numbers.
    pub open spec fn op_sltu(self, i: Instruction) -> CpuState {
        self.commit_load().set_reg(
            i.spec_d(),
            if self.reg(i.spec_s()) < self.reg(i.spec_t()) {
                1
            } else {
                0
            },
        )
    }

    /// The sum that `ADD` forms, as a number.
    pub open spec fn add_sum(self, i: Instruction) -> int {
        signed(self.reg(i.spec_s())) + signed(self.reg(i.spec_t()))
    }

    /// The sum that `ADDI` forms, as a number.
    pub open spec fn addi_sum(self, i: Instruction) -> int {
        signed(self.reg(i.spec_s())) + signed(i.spec_imm_se())
    }

    /// A sum that fits 32 bits is written to `rd`. One that does not raises
    /// `Overflow`, and no register changes.
    pub open spec fn op_add(self, i: Instruction) -> CpuState {
        if i32::MIN <= self.add_sum(i) <= i32::MAX {
            self.commit_load().set_reg(i.spec_d(), unsigned(self.add_sum(i)))
        } else {
            self.raise(Exception::Overflow)
        }
    }

    /// As `ADD`, with the sign-extended immediate and `rt` as the target.
    pub open spec fn op_addi(self, i: Instruction) -> CpuState {
        if i32::MIN <= self.addi_sum(i) <= i32::MAX {
            self.commit_load().set_reg(i.spec_t(), unsigned(self.addi_sum(i)))
        } else {
            self.raise(Exception::Overflow)
        }
    }

    /// `ADDIU`: `rt` takes `rs` plus the sign-extended immediate, wrapping.
    pub open spec fn op_addiu(self, i: Instruction) -> CpuState {
        self.commit_load().set_reg(i.spec_t(), self.reg(i.spec_s()).wrapping_add(i.spec_imm_se()))
    }

    /// `ADDU`: `rd` takes `rs` plus `rt`, wrapping.
    pub open spec fn op_addu(self, i: Instruction) -> CpuState {
        self.commit_load().set_reg(
            i.spec_d(),
            self.reg(i.spec_s()).wrapping_add(self.reg(i.spec_t())),
        )
    }

    /// `SUBU`: `rd` takes `rs` minus `rt`, wrapping.
    pub open spec fn op_subu(self, i: Instruction) -> CpuState {
        self.commit_load().set_reg(
            i.spec_d(),
            self.reg(i.spec_s()).wrapping_sub(self.reg(i.spec_t())),
        )
    }

    /// Signed division of `rs` by `rt`: the quotient, rounded toward zero,
    /// goes to LO and the remainder to HI. A division by zero leaves the
    /// dividend in HI and -1 or 1 in LO, by the sign of the dividend; the one
    /// quotient that does not fit, of the least number by -1, leaves zero in
    /// HI and the least number in LO.
    pub open spec fn op_div(self, i: Instruction) -> CpuState {
        let n = signed(self.reg(i.spec_s()));
        let d = signed(self.reg(i.spec_t()));
        if d == 0 {
            CpuState {
                hi: self.reg(i.spec_s()),
                lo: if n >= 0 {
                    0xffff_ffff
                } else {
                    1
                },
                ..self.commit_load()
            }
        } else if n == i32::MIN && d == -1 {
            CpuState { hi: 0, lo: 0x8000_0000, ..self.commit_load() }
        } else {
            CpuState {
                hi: unsigned(rem_trunc(n, d)),
                lo: unsigned(div_trunc(n, d)),
                ..self.commit_load()
            }
        }
    }

    /// Unsigned division of `rs` by `rt`. A division by zero leaves the
    /// dividend in HI and all ones in LO.
    pub open spec fn op_divu(self, i: Instruction) -> CpuState {
        let n = self.reg(i.spec_s());
        let d = self.reg(i.spec_t());
        if d == 0 {
            CpuState { hi: n, lo: 0xffff_ffff, ..self.commit_load() }
        } else {
            CpuState { hi: n % d, lo: n / d, ..self.commit_load() }
        }
    }

    /// `MFHI`: `rd` takes HI.
    pub open spec fn op_mfhi(self, i: Instruction) -> CpuState {
        self.commit_load().set_reg(i.spec_d(), self.hi)
    }

    /// `MTHI`: HI takes `rs`.
    pub open spec fn op_mthi(self, i: Instruction) -> CpuState {
        CpuState { hi: self.reg(i.spec_s()), ..self.commit_load() }
    }

    /// `MFLO`: `rd` takes LO.
    pub open spec fn op_mflo(self, i: Instruction) -> CpuState {
        self.commit_load().set_reg(i.spec_d(), self.lo)
    }

    /// `MTLO`: LO takes `rs`.
    pub open spec fn op_mtlo(self, i: Instruction) -> CpuState {
        CpuState { lo: self.reg(i.spec_s()), ..self.commit_load() }
    }

    /// Where `J` and `JAL` go: the 26-bit target, shifted left by two, within
    /// the 256 MiB segment of the delay slot.
    pub open spec fn jump_target(self, i: Instruction) -> u32 {
        (self.pc & 0xf000_0000) | (i.spec_imm_jump() << 2)
    }

    /// `J`: the fetch after the delay slot goes to the jump target.
    pub open spec fn op_j(self, i: Instruction) -> CpuState {
        CpuState { next_pc: self.jump_target(i), branch_taken: true, ..self.commit_load() }
    }

    /// `JAL` links: register 31 takes the address after the delay slot.
    pub open spec fn op_jal(self, i: Instruction) -> CpuState {
        self.op_j(i).set_reg(RegisterIndex(31), self.next_pc)
    }

    /// `JR`: the fetch after the delay slot goes to the address in `rs`.
    pub open spec fn op_jr(self, i: Instruction) -> CpuState {
        CpuState { next_pc: self.reg(i.spec_s()), branch_taken: true, ..self.commit_load() }
    }

    /// `JALR` links in `rd`.
    pub open spec fn op_jalr(self, i: Instruction) -> CpuState {
        CpuState {
            next_pc: self.reg(i.spec_s()),
            branch_taken: true,
            ..self.commit_load().set_reg(i.spec_d(), self.next_pc)
        }
    }

    /// A conditional branch: taken or not, the load in flight lands.
    pub open spec fn branch_if(self, taken: bool, i: Instruction) -> CpuState {
        if taken {
            self.branch(i.spec_imm_se()).commit_load()
        } else {
            self.commit_load()
        }
    }

    /// `BEQ`: taken when `rs` equals `rt`.
    pub open spec fn op_beq(self, i: Instruction) -> CpuState {
        self.branch_if(self.reg(i.spec_s()) == self.reg(i.spec_t()), i)
    }

    /// `BNE`: taken when `rs` differs from `rt`.
    pub open spec fn op_bne(self, i: Instruction) -> CpuState {
        self.branch_if(self.reg(i.spec_s()) != self.reg(i.spec_t()), i)
    }

    /// `BLEZ`: taken when `rs`, read as a signed number, is zero or less.
    pub open spec fn op_blez(self, i: Instruction) -> CpuState {
        self.branch_if(signed(self.reg(i.spec_s())) <= 0, i)
    }

    /// `BGTZ`: taken when `rs`, read as a signed number, is more than zero.
    pub open spec fn op_bgtz(self, i: Instruction) -> CpuState {
        self.branch_if(signed(self.reg(i.spec_s())) > 0, i)
    }

    /// Bits [20:17] of a `BXX` word are `0b1000`: the branch links.
    pub open spec fn bxx_links(i: Instruction) -> bool {
        (i.0 >> 17) & 0xf == 0x8
    }

    /// Bit 16 of a `BXX` word: the branch is taken when `rs` is not negative
    /// (`BGEZ`), not when it is (`BLTZ`).
    pub open spec fn bxx_greater(i: Instruction) -> bool {
        (i.0 >> 16) & 1 != 0
    }

    /// `BLTZ`, `BGEZ`, `BLTZAL`, `BGEZAL`. A linking branch writes register
    /// 31 whether or not it is taken.
    pub open spec fn op_bxx(self, i: Instruction) -> CpuState {
        let taken = (signed(self.reg(i.spec_s())) < 0) != Self::bxx_greater(i);
        let linked = if Self::bxx_links(i) {
            self.commit_load().set_reg(RegisterIndex(31), self.next_pc)
        } else {
            self.commit_load()
        };
        if taken {
            linked.branch(i.spec_imm_se())
        } else {
            linked
        }
    }

    /// `SYSCALL` raises the exception of its name.
    pub open spec fn op_syscall(self, i: Instruction) -> CpuState {
        self.raise(Exception::SysCall)
    }

    /// The COP0 register that `MFC0` reads: SR, CAUSE or EPC.
    pub open spec fn cop0_reg(self, index: u32) -> u32 {
        if index == 12 {
            self.sr
        } else if index == 13 {
            self.cause
        } else {
            self.epc
        }
    }

    /// `MFC0` is a load: the value reaches `rt` one instruction later.
    pub open spec fn op_mfc0(self, i: Instruction) -> CpuState {
        self.chain_load(i.spec_t(), self.cop0_reg(i.spec_d().0))
    }

    /// `MTC0` writes SR at once. The other registers that it may name take
    /// only zero and keep nothing.
    pub open spec fn op_mtc0(self, i: Instruction) -> CpuState {
        if i.spec_d().0 == 12 {
            CpuState { sr: self.reg(i.spec_t()), ..self.commit_load() }
        } else {
            self.commit_load()
        }
    }

    /// `RFE` pops the mode stack in SR[5:0].
    pub open spec fn op_rfe(self, i: Instruction) -> CpuState {
        CpuState {
            sr: (self.sr & 0xffff_ffc0) | (((self.sr & 0x3f) >> 2) | (self.sr & 0x30)),
            ..self.commit_load()
        }
    }

    /// A COP0 instruction: `MFC0`, `MTC0` or `RFE`, by the coprocessor sub-opcode.
    pub open spec fn op_cop0(self, i: Instruction) -> CpuState {
        match i.spec_cop_opcode() {
            0b00000 => self.op_mfc0(i),
            0b00100 => self.op_mtc0(i),
            0b10000 => self.op_rfe(i),
            _ => self,
        }
    }

    /// `LB`: the byte at the address, sign-extended, is in flight to `rt`.
    pub open spec fn op_lb(self, i: Instruction) -> CpuState {
        if self.cache_isolated() {
            self
        } else {
            self.chain_load(i.spec_t(), sign_extend_8(self.mem.load8(self.address(i))))
        }
    }

    /// `LBU`: the byte at the address, zero-extended, is in flight to `rt`.
    pub open spec fn op_lbu(self, i: Instruction) -> CpuState {
        if self.cache_isolated() {
            self
        } else {
            self.chain_load(i.spec_t(), self.mem.load8(self.address(i)) as u32)
        }
    }

    /// `LW`: the word at the address is in flight to `rt`. An address that
    /// is no multiple of four raises `LoadAddressError`.
    pub open spec fn op_lw(self, i: Instruction) -> CpuState {
        if self.cache_isolated() {
            self
        } else if self.address(i) % 4 != 0 {
            self.raise(Exception::LoadAddressError)
        } else {
            self.chain_load(i.spec_t(), self.mem.load32(self.address(i)))
        }
    }

    /// The low byte of `rt`, which `SB` stores.
    pub open spec fn store_byte(self, i: Instruction) -> u8 {
        (self.reg(i.spec_t()) % 0x100) as u8
    }

    /// The low half of `rt`, which `SH` stores.
    pub open spec fn store_half(self, i: Instruction) -> u16 {
        (self.reg(i.spec_t()) % 0x1_0000) as u16
    }

    /// `SB`: the low byte of `rt` is stored at the address.
    pub open spec fn op_sb(self, i: Instruction) -> CpuState {
        if self.cache_isolated() {
            self
        } else {
            CpuState {
                mem: self.mem.store8(self.address(i), self.store_byte(i)),
                ..self.commit_load()
            }
        }
    }

    /// `SH`: the low half of `rt` is stored at the address. An address that
    /// is odd raises `StoreAddressError`.
    pub open spec fn op_sh(self, i: Instruction) -> CpuState {
        if self.cache_isolated() {
            self
        } else if self.address(i) % 2 != 0 {
            self.raise(Exception::StoreAddressError)
        } else {
            CpuState {
                mem: self.mem.store16(self.address(i), self.store_half(i)),
                ..self.commit_load()
            }
        }
    }

    /// `SW`: `rt` is stored at the address. An address that is no multiple
    /// of four raises `StoreAddressError`.
    pub open spec fn op_sw(self, i: Instruction) -> CpuState {
        if self.cache_isolated() {
            self
        } else if self.address(i) % 4 != 0 {
            self.raise(Exception::StoreAddressError)
        } else {
            CpuState {
                mem: self.mem.store32(self.address(i), self.reg(i.spec_t())),
                ..self.commit_load()
            }
        }
    }

    /// Why a load instruction cannot run, if it cannot. With the caches
    /// isolated it does nothing, and a misaligned word raises an exception:
    /// neither reaches the interconnect.
    pub open spec fn load_fault(self, i: Instruction, width: Width) -> Option<Fault> {
        if self.cache_isolated() || self.address(i) % width.spec_bytes() != 0 {
            None
        } else {
            load_fault(width, self.address(i))
        }
    }

    /// Why a store instruction cannot run, if it cannot.
    pub open spec fn store_fault(self, i: Instruction, width: Width) -> Option<Fault> {
        if self.cache_isolated() || self.address(i) % width.spec_bytes() != 0 {
            None
        } else {
            store_fault(
                width,
                self.address(i),
                match width {
                    Width::Byte => self.store_byte(i) as u32,
                    Width::Half => self.store_half(i) as u32,
                    Width::Word => self.reg(i.spec_t()),
                },
            )
        }
    }

    /// Why `MFC0` cannot run, if it cannot: only SR, CAUSE and EPC are read.
    pub open spec fn mfc0_fault(self, i: Instruction) -> Option<Fault> {
        match i.spec_d().0 {
            12 | 13 | 14 => None,
            index => Some(Fault::UnhandledCop0Register { index }),
        }
    }

    /// Why `MTC0` cannot run, if it cannot: SR takes any value, CAUSE and the
    /// breakpoint registers take zero, and no other register is written.
    pub open spec fn mtc0_fault(self, i: Instruction) -> Option<Fault> {
        match i.spec_d().0 {
            12 => None,
            3 | 5 | 6 | 7 | 9 | 11 | 13 => if self.reg(i.spec_t()) != 0 {
                Some(
                    Fault::UnhandledCop0Write { index: i.spec_d().0, value: self.reg(i.spec_t()) },
                )
            } else {
                None
            },
            index => Some(Fault::UnhandledCop0Register { index }),
        }
    }

    /// Why a COP0 instruction cannot run, if it cannot: it is none of `MFC0`,
    /// `MTC0` and `RFE` (whose low six bits are `0b010000`), or the move
    /// cannot run.
    pub open spec fn cop0_fault(self, i: Instruction) -> Option<Fault> {
        match i.spec_cop_opcode() {
            0b00000 => self.mfc0_fault(i),
            0b00100 => self.mtc0_fault(i),
            0b10000 => if i.spec_subfunction() == 0b010000 {
                None
            } else {
                Some(Fault::UnhandledInstruction { word: i.0 })
            },
            _ => Some(Fault::UnhandledInstruction { word: i.0 }),
        }
    }

    /// Why the instruction `i` cannot run in this state, if it cannot.
    #[verifier::opaque]
    pub open spec fn execute_fault(self, i: Instruction) -> Option<Fault> {
        match i.spec_decode() {
            None => Some(Fault::UnhandledInstruction { word: i.0 }),
            Some(Opcode::Lb) | Some(Opcode::Lbu) => self.load_fault(i, Width::Byte),
            Some(Opcode::Lw) => self.load_fault(i, Width::Word),
            Some(Opcode::Sb) => self.store_fault(i, Width::Byte),
            Some(Opcode::Sh) => self.store_fault(i, Width::Half),
            Some(Opcode::Sw) => self.store_fault(i, Width::Word),
            Some(Opcode::Cop0) => self.cop0_fault(i),
            Some(_) => None,
        }
    }

    /// The state after the instruction `i` has run.
    #[verifier::opaque]
    pub open spec fn execute(self, i: Instruction) -> CpuState {
        match i.spec_decode() {
            None => self,
            Some(Opcode::Sll) => self.op_sll(i),
            Some(Opcode::Srl) => self.op_srl(i),
            Some(Opcode::Sra) => self.op_sra(i),
            Some(Opcode::Jr) => self.op_jr(i),
            Some(Opcode::Jalr) => self.op_jalr(i),
            Some(Opcode::Syscall) => self.op_syscall(i),
            Some(Opcode::Mfhi) => self.op_mfhi(i),
            Some(Opcode::Mthi) => self.op_mthi(i),
            Some(Opcode::Mflo) => self.op_mflo(i),
            Some(Opcode::Mtlo) => self.op_mtlo(i),
            Some(Opcode::Div) => self.op_div(i),
            Some(Opcode::Divu) => self.op_divu(i),
            Some(Opcode::Add) => self.op_add(i),
            Some(Opcode::Addu) => self.op_addu(i),
            Some(Opcode::Subu) => self.op_subu(i),
            Some(Opcode::And) => self.op_and(i),
            Some(Opcode::Or) => self.op_or(i),
            Some(Opcode::Slt) => self.op_slt(i),
            Some(Opcode::Sltu) => self.op_sltu(i),
            Some(Opcode::Bxx) => self.op_bxx(i),
            Some(Opcode::J) => self.op_j(i),
            Some(Opcode::Jal) => self.op_jal(i),
            Some(Opcode::Beq) => self.op_beq(i),
            Some(Opcode::Bne) => self.op_bne(i),
            Some(Opcode::Blez) => self.op_blez(i),
            Some(Opcode::Bgtz) => self.op_bgtz(i),
            Some(Opcode::Addi) => self.op_addi(i),
            Some(Opcode::Addiu) => self.op_addiu(i),
            Some(Opcode::Slti) => self.op_slti(i),
            Some(Opcode::Sltiu) => self.op_sltiu(i),
            Some(Opcode::Andi) => self.op_andi(i),
            Some(Opcode::Ori) => self.op_ori(i),
            Some(Opcode::Lui) => self.op_lui(i),
            Some(Opcode::Cop0) => self.op_cop0(i),
            Some(Opcode::Lb) => self.op_lb(i),
            Some(Opcode::Lw) => self.op_lw(i),
            Some(Opcode::Lbu) => self.op_lbu(i),
            Some(Opcode::Sb) => self.op_sb(i),
            Some(Opcode::Sh) => self.op_sh(i),
            Some(Opcode::Sw) => self.op_sw(i),
        }
    }

    /// The instruction word at `pc`.
    pub open spec fn fetched(self) -> Instruction {
        Instruction(self.mem.load32(self.pc))
    }

    /// The program counters move on by one instruction, and the branch
    /// flags with them: what a branch wrote to `next_pc` is fetched one
    /// instruction late, after the delay slot.
    pub open spec fn advance(self) -> CpuState {
        CpuState {
            current_pc: self.pc,
            pc: self.next_pc,
            next_pc: self.next_pc.wrapping_add(4),
            in_delay_slot: self.branch_taken,
            branch_taken: false,
            ..self
        }
    }

    /// Why the next step cannot run, if it cannot: the fetch at `pc` is not
    /// answered, or the instruction fetched cannot run.
    pub open spec fn step_fault(self) -> Option<Fault> {
        if load_fault(Width::Word, self.pc) is Some {
            load_fault(Width::Word, self.pc)
        } else {
            self.advance().execute_fault(self.fetched())
        }
    }

    /// Whether an instruction can run does not depend on the program counters.
    pub proof fn lemma_fault_ignores_counters(self, i: Instruction)
        ensures
            self.advance().execute_fault(i) == self.execute_fault(i),
    {
        reveal(CpuState::execute_fault);
    }

    /// The state after one step: fetch at `pc`, advance, execute.
    pub open spec fn step(self) -> CpuState {
        self.advance().execute(self.fetched())
    }

    /// The state after up to `n` steps, stopping early before a step that cannot run.
    pub open spec fn run(self, n: nat) -> CpuState
        decreases n,
    {
        if n == 0 || self.step_fault() is Some {
            self
        } else {
            self.step().run((n - 1) as nat)
        }
    }
}

} // verus!
