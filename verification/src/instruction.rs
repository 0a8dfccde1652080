//! A 32-bit MIPS I instruction word and the fields it is read through.

use vstd::prelude::*;

verus! {

/// Index of one of the 32 general-purpose registers.
#[derive(Clone, Copy, Debug, PartialEq, Eq)]
pub struct RegisterIndex(pub u32);

/// One instruction word. The accessors are pure functions of the word.
#[derive(Clone, Copy, Debug, PartialEq, Eq)]
pub struct Instruction(pub u32);

/// The instructions that the CPU implements.
#[derive(Clone, Copy, Debug, PartialEq, Eq)]
pub enum Opcode {
    Sll,
    Srl,
    Sra,
    Jr,
    Jalr,
    Syscall,
    Mfhi,
    Mthi,
    Mflo,
    Mtlo,
    Div,
    Divu,
    Add,
    Addu,
    Subu,
    And,
    Or,
    Slt,
    Sltu,
    /// `BLTZ`, `BGEZ`, `BLTZAL` or `BGEZAL`: bits [20:16] tell which.
    Bxx,
    J,
    Jal,
    Beq,
    Bne,
    Blez,
    Bgtz,
    Addi,
    Addiu,
    Slti,
    Sltiu,
    Andi,
    Ori,
    Lui,
    /// `MFC0`, `MTC0` or `RFE`: the coprocessor sub-opcode tells which.
    Cop0,
    Lb,
    Lw,
    Lbu,
    Sb,
    Sh,
    Sw,
}

/// The 16-bit value `x` read as a two's-complement number and written back in 32 bits.
pub open spec fn sign_extend_16(x: u32) -> u32
    recommends
        x < 0x1_0000,
{
    if x >= 0x8000 {
        (x + 0xffff_0000) as u32
    } else {
        x
    }
}

/// Every field of an instruction word fits the number of bits it is cut from.
pub proof fn lemma_field_bounds(w: u32)
    by (bit_vector)
    ensures
        w >> 26 < 64,
        w & 0x3f < 64,
        (w >> 21) & 0x1f < 32,
        (w >> 16) & 0x1f < 32,
        (w >> 11) & 0x1f < 32,
        (w >> 6) & 0x1f < 32,
        w & 0xffff < 0x1_0000,
        w & 0x3ff_ffff < 0x400_0000,
{
}

impl Instruction {
    /// Bits [31:26]: the primary opcode.
    pub open spec fn spec_function(&self) -> u32 {
        self.0 >> 26
    }

    /// Bits [5:0]: the secondary opcode, read when the primary opcode is zero.
    pub open spec fn spec_subfunction(&self) -> u32 {
        self.0 & 0x3f
    }

    /// Bits [25:21]: the coprocessor sub-opcode.
    pub open spec fn spec_cop_opcode(&self) -> u32 {
        (self.0 >> 21) & 0x1f
    }

    /// Bits [15:11]: register `rd`.
    pub open spec fn spec_d(&self) -> RegisterIndex {
        RegisterIndex((self.0 >> 11) & 0x1f)
    }

    /// Bits [20:16]: register `rt`.
    pub open spec fn spec_t(&self) -> RegisterIndex {
        RegisterIndex((self.0 >> 16) & 0x1f)
    }

    /// Bits [25:21]: register `rs`.
    pub open spec fn spec_s(&self) -> RegisterIndex {
        RegisterIndex((self.0 >> 21) & 0x1f)
    }

    /// Bits [10:6]: the shift amount.
    pub open spec fn spec_shift_imm(&self) -> u32 {
        (self.0 >> 6) & 0x1f
    }

    /// Bits [15:0], zero-extended.
    pub open spec fn spec_imm(&self) -> u32 {
        self.0 & 0xffff
    }

    /// Bits [15:0], sign-extended.
    pub open spec fn spec_imm_se(&self) -> u32 {
        sign_extend_16(self.0 & 0xffff)
    }

    /// Bits [25:0]: the jump target, before it is shifted and merged with the PC.
    pub open spec fn spec_imm_jump(&self) -> u32 {
        self.0 & 0x3ff_ffff
    }

    /// The primary opcode.
    #[verifier::when_used_as_spec(spec_function)]
    pub fn function(&self) -> (r: u32)
        ensures
            r == self.spec_function(),
            r < 64,
    {
        proof {
            lemma_field_bounds(self.0);
        }
        self.0 >> 26
    }

    /// The secondary opcode.
    #[verifier::when_used_as_spec(spec_subfunction)]
    pub fn subfunction(&self) -> (r: u32)
        ensures
            r == self.spec_subfunction(),
            r < 64,
    {
        proof {
            lemma_field_bounds(self.0);
        }
        self.0 & 0x3f
    }

    /// The coprocessor sub-opcode.
    #[verifier::when_used_as_spec(spec_cop_opcode)]
    pub fn cop_opcode(&self) -> (r: u32)
        ensures
            r == self.spec_cop_opcode(),
            r < 32,
    {
        proof {
            lemma_field_bounds(self.0);
        }
        (self.0 >> 21) & 0x1f
    }

    /// Register `rd`.
    #[verifier::when_used_as_spec(spec_d)]
    pub fn d(&self) -> (r: RegisterIndex)
        ensures
            r == self.spec_d(),
            r.0 < 32,
    {
        proof {
            lemma_field_bounds(self.0);
        }
        RegisterIndex((self.0 >> 11) & 0x1f)
    }

    /// Register `rt`.
    #[verifier::when_used_as_spec(spec_t)]
    pub fn t(&self) -> (r: RegisterIndex)
        ensures
            r == self.spec_t(),
            r.0 < 32,
    {
        proof {
            lemma_field_bounds(self.0);
        }
        RegisterIndex((self.0 >> 16) & 0x1f)
    }

    /// Register `rs`.
    #[verifier::when_used_as_spec(spec_s)]
    pub fn s(&self) -> (r: RegisterIndex)
        ensures
            r == self.spec_s(),
            r.0 < 32,
    {
        proof {
            lemma_field_bounds(self.0);
        }
        RegisterIndex((self.0 >> 21) & 0x1f)
    }

    /// The shift amount.
    #[verifier::when_used_as_spec(spec_shift_imm)]
    pub fn shift_imm(&self) -> (r: u32)
        ensures
            r == self.spec_shift_imm(),
            r < 32,
    {
        proof {
            lemma_field_bounds(self.0);
        }
        (self.0 >> 6) & 0x1f
    }

    /// The immediate, zero-extended.
    #[verifier::when_used_as_spec(spec_imm)]
    pub fn imm(&self) -> (r: u32)
        ensures
            r == self.spec_imm(),
            r < 0x1_0000,
    {
        proof {
            lemma_field_bounds(self.0);
        }
        self.0 & 0xffff
    }

    /// The immediate, sign-extended.
    #[verifier::when_used_as_spec(spec_imm_se)]
    pub fn imm_se(&self) -> (r: u32)
        ensures
            r == self.spec_imm_se(),
    {
        let word = self.0;
        let v = (word & 0xffff) as i16;
        let r = v as u32;
        assert(r == sign_extend_16(word & 0xffff)) by (bit_vector)
            requires
                r == ((word & 0xffff) as i16) as u32,
        ;
        r
    }

    /// The jump target, in words.
    #[verifier::when_used_as_spec(spec_imm_jump)]
    pub fn imm_jump(&self) -> (r: u32)
        ensures
            r == self.spec_imm_jump(),
            r < 0x400_0000,
    {
        proof {
            lemma_field_bounds(self.0);
        }
        self.0 & 0x3ff_ffff
    }

    /// The instruction that the word encodes: by the primary opcode, and for
    /// the primary opcode zero by the secondary opcode. `None` for a word
    /// that encodes none of them.
    pub open spec fn spec_decode(&self) -> Option<Opcode> {
        match self.spec_function() {
            0b000000 => match self.spec_subfunction() {
                0b000000 => Some(Opcode::Sll),
                0b000010 => Some(Opcode::Srl),
                0b000011 => Some(Opcode::Sra),
                0b001000 => Some(Opcode::Jr),
                0b001001 => Some(Opcode::Jalr),
                0b001100 => Some(Opcode::Syscall),
                0b010000 => Some(Opcode::Mfhi),
                0b010001 => Some(Opcode::Mthi),
                0b010010 => Some(Opcode::Mflo),
                0b010011 => Some(Opcode::Mtlo),
                0b011010 => Some(Opcode::Div),
                0b011011 => Some(Opcode::Divu),
                0b100000 => Some(Opcode::Add),
                0b100001 => Some(Opcode::Addu),
                0b100011 => Some(Opcode::Subu),
                0b100100 => Some(Opcode::And),
                0b100101 => Some(Opcode::Or),
                0b101010 => Some(Opcode::Slt),
                0b101011 => Some(Opcode::Sltu),
                _ => None,
            },
            0b000001 => Some(Opcode::Bxx),
            0b000010 => Some(Opcode::J),
            0b000011 => Some(Opcode::Jal),
            0b000100 => Some(Opcode::Beq),
            0b000101 => Some(Opcode::Bne),
            0b000110 => Some(Opcode::Blez),
            0b000111 => Some(Opcode::Bgtz),
            0b001000 => Some(Opcode::Addi),
            0b001001 => Some(Opcode::Addiu),
            0b001010 => Some(Opcode::Slti),
            0b001011 => Some(Opcode::Sltiu),
            0b001100 => Some(Opcode::Andi),
            0b001101 => Some(Opcode::Ori),
            0b001111 => Some(Opcode::Lui),
            0b010000 => Some(Opcode::Cop0),
            0b100000 => Some(Opcode::Lb),
            0b100011 => Some(Opcode::Lw),
            0b100100 => Some(Opcode::Lbu),
            0b101000 => Some(Opcode::Sb),
            0b101001 => Some(Opcode::Sh),
            0b101011 => Some(Opcode::Sw),
            _ => None,
        }
    }

    /// Tells which instruction the word encodes.
    #[verifier::when_used_as_spec(spec_decode)]
    pub fn decode(&self) -> (r: Option<Opcode>)
        ensures
            r == self.spec_decode(),
    {
        match self.function() {
            0b000000 => match self.subfunction() {
                0b000000 => Some(Opcode::Sll),
                0b000010 => Some(Opcode::Srl),
                0b000011 => Some(Opcode::Sra),
                0b001000 => Some(Opcode::Jr),
                0b001001 => Some(Opcode::Jalr),
                0b001100 => Some(Opcode::Syscall),
                0b010000 => Some(Opcode::Mfhi),
                0b010001 => Some(Opcode::Mthi),
                0b010010 => Some(Opcode::Mflo),
                0b010011 => Some(Opcode::Mtlo),
                0b011010 => Some(Opcode::Div),
                0b011011 => Some(Opcode::Divu),
                0b100000 => Some(Opcode::Add),
                0b100001 => Some(Opcode::Addu),
                0b100011 => Some(Opcode::Subu),
                0b100100 => Some(Opcode::And),
                0b100101 => Some(Opcode::Or),
                0b101010 => Some(Opcode::Slt),
                0b101011 => Some(Opcode::Sltu),
                _ => None,
            },
            0b000001 => Some(Opcode::Bxx),
            0b000010 => Some(Opcode::J),
            0b000011 => Some(Opcode::Jal),
            0b000100 => Some(Opcode::Beq),
            0b000101 => Some(Opcode::Bne),
            0b000110 => Some(Opcode::Blez),
            0b000111 => Some(Opcode::Bgtz),
            0b001000 => Some(Opcode::Addi),
            0b001001 => Some(Opcode::Addiu),
            0b001010 => Some(Opcode::Slti),
            0b001011 => Some(Opcode::Sltiu),
            0b001100 => Some(Opcode::Andi),
            0b001101 => Some(Opcode::Ori),
            0b001111 => Some(Opcode::Lui),
            0b010000 => Some(Opcode::Cop0),
            0b100000 => Some(Opcode::Lb),
            0b100011 => Some(Opcode::Lw),
            0b100100 => Some(Opcode::Lbu),
            0b101000 => Some(Opcode::Sb),
            0b101001 => Some(Opcode::Sh),
            0b101011 => Some(Opcode::Sw),
            _ => None,
        }
    }
}

} // verus!
