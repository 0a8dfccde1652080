//! What holds of every state and every instruction.

use vstd::prelude::*;
use crate::cpu::state::{CpuState, Exception};
use crate::instruction::{lemma_field_bounds, Instruction, Opcode};
use crate::map::{lemma_aligned_access_fits, spec_locate, spec_mask_region, Width};

verus! {

/// What every instruction keeps to, `s` being the state before it and `e`
/// the state after: the state stays well formed, the BIOS is not written,
/// the address of the instruction and its place in or out of a delay slot
/// are not touched, and the fetch goes on at `pc`, unless an exception sent
/// it to the handler.
pub open spec fn in_sequence(s: CpuState, e: CpuState) -> bool {
    &&& e.wf()
    &&& e.mem.bios == s.mem.bios
    &&& e.current_pc == s.current_pc
    &&& e.in_delay_slot == s.in_delay_slot
    &&& e.pc == s.pc || (e.pc == s.handler() && e.branch_taken == s.branch_taken)
}

/// The shifts and the logic instructions stay in sequence.
proof fn lemma_shift_logic_in_sequence(s: CpuState, i: Instruction)
    requires
        s.wf(),
    ensures
        in_sequence(s, s.op_sll(i)),
        in_sequence(s, s.op_srl(i)),
        in_sequence(s, s.op_sra(i)),
        in_sequence(s, s.op_lui(i)),
        in_sequence(s, s.op_ori(i)),
        in_sequence(s, s.op_andi(i)),
        in_sequence(s, s.op_or(i)),
        in_sequence(s, s.op_and(i)),
{
    lemma_field_bounds(i.0);
}

/// The comparisons and additions stay in sequence.
proof fn lemma_compare_add_in_sequence(s: CpuState, i: Instruction)
    requires
        s.wf(),
    ensures
        in_sequence(s, s.op_slti(i)),
        in_sequence(s, s.op_sltiu(i)),
        in_sequence(s, s.op_slt(i)),
        in_sequence(s, s.op_sltu(i)),
        in_sequence(s, s.op_add(i)),
        in_sequence(s, s.op_addi(i)),
        in_sequence(s, s.op_addiu(i)),
        in_sequence(s, s.op_addu(i)),
        in_sequence(s, s.op_subu(i)),
{
    lemma_field_bounds(i.0);
}

/// The divider and the moves from and to HI and LO stay in sequence.
proof fn lemma_divide_move_in_sequence(s: CpuState, i: Instruction)
    requires
        s.wf(),
    ensures
        in_sequence(s, s.op_div(i)),
        in_sequence(s, s.op_divu(i)),
        in_sequence(s, s.op_mfhi(i)),
        in_sequence(s, s.op_mthi(i)),
        in_sequence(s, s.op_mflo(i)),
        in_sequence(s, s.op_mtlo(i)),
{
    lemma_field_bounds(i.0);
}

/// The jumps and branches stay in sequence.
proof fn lemma_jump_in_sequence(s: CpuState, i: Instruction)
    requires
        s.wf(),
    ensures
        in_sequence(s, s.op_j(i)),
        in_sequence(s, s.op_jal(i)),
        in_sequence(s, s.op_jr(i)),
        in_sequence(s, s.op_jalr(i)),
        in_sequence(s, s.op_beq(i)),
        in_sequence(s, s.op_bne(i)),
        in_sequence(s, s.op_blez(i)),
        in_sequence(s, s.op_bgtz(i)),
        in_sequence(s, s.op_bxx(i)),
{
    lemma_field_bounds(i.0);
}

/// `SYSCALL`, the COP0 instructions and the loads stay in sequence.
proof fn lemma_system_in_sequence(s: CpuState, i: Instruction)
    requires
        s.wf(),
    ensures
        in_sequence(s, s.op_syscall(i)),
        in_sequence(s, s.op_cop0(i)),
        in_sequence(s, s.op_lb(i)),
        in_sequence(s, s.op_lbu(i)),
        in_sequence(s, s.op_lw(i)),
{
    lemma_field_bounds(i.0);
}

/// The stores stay in sequence: a store that is aligned to its width ends
/// in the device in which it starts.
proof fn lemma_store_in_sequence(s: CpuState, i: Instruction)
    requires
        s.wf(),
    ensures
        in_sequence(s, s.op_sb(i)),
        in_sequence(s, s.op_sh(i)),
        in_sequence(s, s.op_sw(i)),
{
    lemma_field_bounds(i.0);
    let addr = s.address(i);
    if spec_locate(spec_mask_region(addr)) is Some {
        if addr % 2 == 0 {
            lemma_aligned_access_fits(Width::Half, addr);
        }
        if addr % 4 == 0 {
            lemma_aligned_access_fits(Width::Word, addr);
        }
    }
}

/// Every instruction stays in sequence. In particular register 0 holds zero
/// after it, also when a load bound for register 0 has landed.
pub proof fn lemma_execute_in_sequence(s: CpuState, i: Instruction)
    requires
        s.wf(),
    ensures
        in_sequence(s, s.execute(i)),
        s.execute(i).regs[0] == 0,
{
    reveal(CpuState::execute);
    lemma_shift_logic_in_sequence(s, i);
    lemma_compare_add_in_sequence(s, i);
    lemma_divide_move_in_sequence(s, i);
    lemma_jump_in_sequence(s, i);
    lemma_system_in_sequence(s, i);
    lemma_store_in_sequence(s, i);
}

/// Only a store changes memory.
pub proof fn lemma_only_stores_change_memory(s: CpuState, i: Instruction)
    requires
        i.spec_decode() != Some(Opcode::Sb),
        i.spec_decode() != Some(Opcode::Sh),
        i.spec_decode() != Some(Opcode::Sw),
    ensures
        s.execute(i).mem == s.mem,
{
    reveal(CpuState::execute);
}

/// A step leaves the state well formed, and register 0 holds zero after it.
pub proof fn lemma_step_keeps_wf(s: CpuState)
    requires
        s.wf(),
    ensures
        s.step().wf(),
        s.step().regs[0] == 0,
{
    lemma_execute_in_sequence(s.advance(), s.fetched());
}

/// The instruction after a branch always runs. When a step has run a branch
/// or jump that was taken, the next step runs the instruction that was next
/// in line before the branch, in the straight line the one four bytes
/// after the branch, and marks it as a delay slot. Only the step after that
/// fetches at the target, or at the exception handler if the instruction in
/// the delay slot raised an exception.
pub proof fn lemma_branch_delay_slot(s: CpuState)
    requires
        s.wf(),
        s.step().branch_taken,
    ensures
        s.step().current_pc == s.pc,
        s.step().pc == s.next_pc,
        s.next_pc == s.pc.wrapping_add(4) ==> s.step().pc == s.pc.wrapping_add(4),
        s.step().step().current_pc == s.step().pc,
        s.step().step().in_delay_slot,
        s.step().step().pc == s.step().next_pc || s.step().step().pc == s.step().handler(),
{
    lemma_execute_in_sequence(s.advance(), s.fetched());
    lemma_execute_in_sequence(s.step().advance(), s.step().fetched());
}

/// An `ADD` or `ADDI` whose sum does not fit 32 bits writes no register: it
/// raises `Overflow`, and the load in flight is lost with it.
pub proof fn lemma_overflow_keeps_registers(s: CpuState, i: Instruction)
    requires
        s.wf(),
        i.spec_decode() == Some(Opcode::Add) || i.spec_decode() == Some(Opcode::Addi),
        i.spec_decode() == Some(Opcode::Add) ==> !(i32::MIN <= s.add_sum(i) <= i32::MAX),
        i.spec_decode() == Some(Opcode::Addi) ==> !(i32::MIN <= s.addi_sum(i) <= i32::MAX),
    ensures
        s.execute(i) == s.raise(Exception::Overflow),
        s.execute(i).regs == s.regs,
        s.execute(i).pending_load is None,
{
    reveal(CpuState::execute);
}

/// While the caches are isolated a store changes nothing: not RAM, and not
/// the load in flight.
pub proof fn lemma_isolated_store_changes_nothing(s: CpuState, i: Instruction)
    requires
        s.cache_isolated(),
        i.spec_decode() == Some(Opcode::Sb) || i.spec_decode() == Some(Opcode::Sh)
            || i.spec_decode() == Some(Opcode::Sw),
    ensures
        s.execute(i) == s,
        s.execute(i).mem == s.mem,
        s.execute_fault(i) is None,
{
    reveal(CpuState::execute);
    reveal(CpuState::execute_fault);
}

/// What `MTC0` writes to a COP0 register, an `MFC0` of the same register
/// right after it reads: the value is in flight to the target of the
/// `MFC0`, and is in that register once the load has landed. The status
/// register takes every value. CAUSE takes only zero and keeps nothing, so
/// there the law holds while CAUSE is zero.
pub proof fn lemma_mtc0_then_mfc0(s: CpuState, mtc0: Instruction, mfc0: Instruction)
    requires
        s.wf(),
        mtc0.spec_decode() == Some(Opcode::Cop0),
        mtc0.spec_cop_opcode() == 0b00100,
        mfc0.spec_decode() == Some(Opcode::Cop0),
        mfc0.spec_cop_opcode() == 0b00000,
        mtc0.spec_d() == mfc0.spec_d(),
        s.execute_fault(mtc0) is None,
        s.execute(mtc0).execute_fault(mfc0) is None,
        mtc0.spec_d().0 != 12 ==> s.cause == 0,
    ensures
        s.execute(mtc0).execute(mfc0).pending_load == Some((mfc0.spec_t(), s.reg(mtc0.spec_t()))),
        mfc0.spec_t().0 != 0 ==> s.execute(mtc0).execute(mfc0).commit_load().reg(mfc0.spec_t())
            == s.reg(mtc0.spec_t()),
{
    reveal(CpuState::execute);
    reveal(CpuState::execute_fault);
    lemma_field_bounds(mtc0.0);
    lemma_field_bounds(mfc0.0);
}

/// `i` is `ADDI rt, rs, 0` with `rs` the register `source`: a plain copy of it.
pub open spec fn copies(i: Instruction, source: u32) -> bool {
    &&& i.spec_decode() == Some(Opcode::Addi)
    &&& i.spec_imm() == 0
    &&& i.spec_s().0 == source
    &&& i.spec_t().0 != source
    &&& i.spec_t().0 != 0
}

/// The load delay slot. After a `LW` into a register, the instruction right
/// after it still reads what the register held before the load; the one
/// after that reads the loaded word.
pub proof fn lemma_load_delay_slot(
    s: CpuState,
    load: Instruction,
    first: Instruction,
    second: Instruction,
)
    requires
        s.wf(),
        !s.cache_isolated(),
        load.spec_decode() == Some(Opcode::Lw),
        s.address(load) % 4 == 0,
        load.spec_t().0 != 0,
        copies(first, load.spec_t().0),
        copies(second, load.spec_t().0),
        first.spec_t() != second.spec_t(),
    ensures
        s.execute(load).execute(first).execute(second).reg(first.spec_t()) == s.reg(load.spec_t()),
        s.execute(load).execute(first).execute(second).reg(second.spec_t()) == s.mem.load32(
            s.address(load),
        ),
{
    reveal(CpuState::execute);
    lemma_field_bounds(load.0);
    lemma_field_bounds(first.0);
    lemma_field_bounds(second.0);
}

/// Two loads in a row into one register. The word of the first load is
/// lost: the instruction after the second load still reads what the
/// register held before both, and the register ends up with the word of
/// the second load.
pub proof fn lemma_chained_loads(
    s: CpuState,
    load: Instruction,
    reload: Instruction,
    copy: Instruction,
)
    requires
        s.wf(),
        !s.cache_isolated(),
        load.spec_decode() == Some(Opcode::Lw),
        reload.spec_decode() == Some(Opcode::Lw),
        load.spec_t() == reload.spec_t(),
        load.spec_t().0 != 0,
        s.address(load) % 4 == 0,
        s.execute(load).address(reload) % 4 == 0,
        copies(copy, load.spec_t().0),
    ensures
        s.execute(load).execute(reload).execute(copy).reg(copy.spec_t()) == s.reg(load.spec_t()),
        s.execute(load).execute(reload).execute(copy).reg(load.spec_t()) == s.mem.load32(
            s.execute(load).address(reload),
        ),
{
    reveal(CpuState::execute);
    lemma_field_bounds(load.0);
    lemma_field_bounds(reload.0);
    lemma_field_bounds(copy.0);
}

} // verus!
