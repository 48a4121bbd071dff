//! Execution of decoded instructions against the machine state.
//!
//! `execute` applies the semantics of one decoded instruction to the register
//! file and memory and reports the control-flow effect: the next program
//! counter, a halt, or a trap. All arithmetic is 32-bit two's-complement with
//! wraparound; shift amounts are the low five bits of their operand. The
//! program counter, status and retired counter are left to the simulation
//! loop.

use crate::machine::{ControlEffect, HaltReason, MachineState, TrapReason};
use crate::memory::{
    spec_get16, spec_get32, spec_get8, spec_set16, spec_set32, spec_set8, spec_sext16, spec_sext8,
};
use crate::register::spec_reg_write;
use crate::rv32i_decode::{BranchOp, DecodedInstruction, IAluOp, LoadOp, RAluOp, StoreOp};
use vstd::prelude::*;

verus! {

/// 32-bit addition with wraparound.
pub open spec fn wadd(a: u32, b: u32) -> u32 {
    vstd::wrapping::u32_specs::wrapping_add(a, b)
}

/// 32-bit subtraction with wraparound.
pub open spec fn wsub(a: u32, b: u32) -> u32 {
    vstd::wrapping::u32_specs::wrapping_sub(a, b)
}

/// The value of a register-register operation on operands `a` and `b`.
/// Comparisons marked signed reinterpret the operands as two's-complement;
/// shift amounts are the low five bits of `b`.
pub open spec fn spec_alu(op: RAluOp, a: u32, b: u32) -> u32 {
    match op {
        RAluOp::Add => wadd(a, b),
        RAluOp::Sub => wsub(a, b),
        RAluOp::Sll => a << (b & 0x1f),
        RAluOp::Slt => if (a as i32) < (b as i32) {
            1u32
        } else {
            0u32
        },
        RAluOp::Sltu => if a < b {
            1u32
        } else {
            0u32
        },
        RAluOp::Xor => a ^ b,
        RAluOp::Srl => a >> (b & 0x1f),
        RAluOp::Sra => ((a as i32) >> (b & 0x1f)) as u32,
        RAluOp::Or => a | b,
        RAluOp::And => a & b,
    }
}

/// The value of a register-immediate operation on operand `a` and the
/// decoded immediate (for the shifts, the five-bit shift amount).
pub open spec fn spec_ialu(op: IAluOp, a: u32, imm: u32) -> u32 {
    match op {
        IAluOp::Addi => wadd(a, imm),
        IAluOp::Slti => if (a as i32) < (imm as i32) {
            1u32
        } else {
            0u32
        },
        IAluOp::Sltiu => if a < imm {
            1u32
        } else {
            0u32
        },
        IAluOp::Xori => a ^ imm,
        IAluOp::Ori => a | imm,
        IAluOp::Andi => a & imm,
        IAluOp::Slli => a << (imm & 0x1f),
        IAluOp::Srli => a >> (imm & 0x1f),
        IAluOp::Srai => ((a as i32) >> (imm & 0x1f)) as u32,
    }
}

/// Whether the branch comparison of `op` holds between `a` and `b`.
pub open spec fn spec_branch_taken(op: BranchOp, a: u32, b: u32) -> bool {
    match op {
        BranchOp::Beq => a == b,
        BranchOp::Bne => a != b,
        BranchOp::Blt => (a as i32) < (b as i32),
        BranchOp::Bge => (a as i32) >= (b as i32),
        BranchOp::Bltu => a < b,
        BranchOp::Bgeu => a >= b,
    }
}

/// The value a load of kind `op` reads from memory at effective address `ea`:
/// `lb`/`lh` sign-extend, `lbu`/`lhu` zero-extend, `lw` reads a full word.
pub open spec fn spec_load_value(op: LoadOp, mem: Seq<u8>, ea: u32) -> u32 {
    match op {
        LoadOp::Lb => spec_sext8(spec_get8(mem, ea as int)),
        LoadOp::Lh => spec_sext16(spec_get16(mem, ea as int)),
        LoadOp::Lw => spec_get32(mem, ea as int),
        LoadOp::Lbu => spec_get8(mem, ea as int) as u32,
        LoadOp::Lhu => spec_get16(mem, ea as int) as u32,
    }
}

/// The memory after a store of kind `op` writes the low bytes of `v` at
/// effective address `ea`.
pub open spec fn spec_store_mem(op: StoreOp, mem: Seq<u8>, ea: u32, v: u32) -> Seq<u8> {
    match op {
        StoreOp::Sb => spec_set8(mem, ea as int, v as u8),
        StoreOp::Sh => spec_set16(mem, ea as int, v as u16),
        StoreOp::Sw => spec_set32(mem, ea as int, v),
    }
}

/// The semantics of one instruction: the register contents and memory after
/// it, and its control-flow effect, given the contents and the program
/// counter before it.
///
/// Control and status register operations are a minimal pass-through: no CSR
/// address is modeled, so every CSR instruction leaves registers and memory
/// unchanged and continues; it is never fatal. An illegal instruction traps,
/// recording the program counter and the offending word.
pub open spec fn spec_execute(
    i: DecodedInstruction,
    regs: Seq<u32>,
    mem: Seq<u8>,
    pc: u32,
) -> (Seq<u32>, Seq<u8>, ControlEffect) {
    match i {
        DecodedInstruction::RType { op, rd, rs1, rs2 } => (
            spec_reg_write(regs, rd, spec_alu(op, regs[rs1 as int], regs[rs2 as int])),
            mem,
            ControlEffect::Continue { next_pc: wadd(pc, 4) },
        ),
        DecodedInstruction::IAlu { op, rd, rs1, imm_i } => (
            spec_reg_write(regs, rd, spec_ialu(op, regs[rs1 as int], imm_i)),
            mem,
            ControlEffect::Continue { next_pc: wadd(pc, 4) },
        ),
        DecodedInstruction::Load { op, rd, rs1, imm_i } => (
            spec_reg_write(regs, rd, spec_load_value(op, mem, wadd(regs[rs1 as int], imm_i))),
            mem,
            ControlEffect::Continue { next_pc: wadd(pc, 4) },
        ),
        DecodedInstruction::Jalr { rd, rs1, imm_i } => (
            spec_reg_write(regs, rd, wadd(pc, 4)),
            mem,
            ControlEffect::Continue { next_pc: wadd(regs[rs1 as int], imm_i) & 0xfffffffe },
        ),
        DecodedInstruction::SType { op, rs1, rs2, imm_s } => (
            regs,
            spec_store_mem(op, mem, wadd(regs[rs1 as int], imm_s), regs[rs2 as int]),
            ControlEffect::Continue { next_pc: wadd(pc, 4) },
        ),
        DecodedInstruction::BType { op, rs1, rs2, imm_b } => (
            regs,
            mem,
            ControlEffect::Continue {
                next_pc: if spec_branch_taken(op, regs[rs1 as int], regs[rs2 as int]) {
                    wadd(pc, imm_b)
                } else {
                    wadd(pc, 4)
                },
            },
        ),
        DecodedInstruction::Lui { rd, imm_u } => (
            spec_reg_write(regs, rd, imm_u),
            mem,
            ControlEffect::Continue { next_pc: wadd(pc, 4) },
        ),
        DecodedInstruction::Auipc { rd, imm_u } => (
            spec_reg_write(regs, rd, wadd(pc, imm_u)),
            mem,
            ControlEffect::Continue { next_pc: wadd(pc, 4) },
        ),
        DecodedInstruction::Jal { rd, imm_j } => (
            spec_reg_write(regs, rd, wadd(pc, 4)),
            mem,
            ControlEffect::Continue { next_pc: wadd(pc, imm_j) },
        ),
        DecodedInstruction::Ecall => (
            regs,
            mem,
            ControlEffect::Halt { reason: HaltReason::Ecall },
        ),
        DecodedInstruction::Ebreak => (
            regs,
            mem,
            ControlEffect::Halt { reason: HaltReason::Ebreak },
        ),
        DecodedInstruction::Csr { .. } => (
            regs,
            mem,
            ControlEffect::Continue { next_pc: wadd(pc, 4) },
        ),
        DecodedInstruction::Illegal { word } => (
            regs,
            mem,
            ControlEffect::Trap { reason: TrapReason::IllegalInstruction { pc, word } },
        ),
    }
}

/// The width in bytes of a load's or store's memory access.
pub open spec fn spec_access_width(i: DecodedInstruction) -> int {
    match i {
        DecodedInstruction::Load { op, .. } => match op {
            LoadOp::Lb => 1,
            LoadOp::Lbu => 1,
            LoadOp::Lh => 2,
            LoadOp::Lhu => 2,
            LoadOp::Lw => 4,
        },
        DecodedInstruction::SType { op, .. } => match op {
            StoreOp::Sb => 1,
            StoreOp::Sh => 2,
            StoreOp::Sw => 4,
        },
        _ => 0,
    }
}

/// Whether executing `i` makes an out-of-range data access: it is a load or
/// store some byte of whose effective address range lies at or beyond the
/// memory capacity. Such an access reads 0 or discards the write; it is
/// reported through the machine's counter, and the run continues.
pub open spec fn spec_oob_event(i: DecodedInstruction, regs: Seq<u32>, mem: Seq<u8>) -> bool {
    match i {
        DecodedInstruction::Load { rs1, imm_i, .. } => wadd(regs[rs1 as int], imm_i) as int
            + spec_access_width(i) > mem.len(),
        DecodedInstruction::SType { rs1, imm_s, .. } => wadd(regs[rs1 as int], imm_s) as int
            + spec_access_width(i) > mem.len(),
        _ => false,
    }
}

/// A saturating event count: one more when the event happened.
pub open spec fn spec_bump(count: u64, event: bool) -> u64 {
    if event && count < u64::MAX {
        (count + 1) as u64
    } else {
        count
    }
}

/// Masking with 0x1f yields a legal shift amount.
proof fn lemma_shamt_bound(b: u32)
    by (bit_vector)
    ensures
        b & 0x1f < 32,
{
}

/// Computes a register-register operation.
fn alu(op: RAluOp, a: u32, b: u32) -> (r: u32)
    ensures
        r == spec_alu(op, a, b),
{
    proof {
        lemma_shamt_bound(b);
    }
    match op {
        RAluOp::Add => a.wrapping_add(b),
        RAluOp::Sub => a.wrapping_sub(b),
        RAluOp::Sll => a << (b & 0x1f),
        RAluOp::Slt => if (a as i32) < (b as i32) {
            1
        } else {
            0
        },
        RAluOp::Sltu => if a < b {
            1
        } else {
            0
        },
        RAluOp::Xor => a ^ b,
        RAluOp::Srl => a >> (b & 0x1f),
        RAluOp::Sra => ((a as i32) >> (b & 0x1f)) as u32,
        RAluOp::Or => a | b,
        RAluOp::And => a & b,
    }
}

/// Computes a register-immediate operation.
fn ialu(op: IAluOp, a: u32, imm: u32) -> (r: u32)
    ensures
        r == spec_ialu(op, a, imm),
{
    proof {
        lemma_shamt_bound(imm);
    }
    match op {
        IAluOp::Addi => a.wrapping_add(imm),
        IAluOp::Slti => if (a as i32) < (imm as i32) {
            1
        } else {
            0
        },
        IAluOp::Sltiu => if a < imm {
            1
        } else {
            0
        },
        IAluOp::Xori => a ^ imm,
        IAluOp::Ori => a | imm,
        IAluOp::Andi => a & imm,
        IAluOp::Slli => a << (imm & 0x1f),
        IAluOp::Srli => a >> (imm & 0x1f),
        IAluOp::Srai => ((a as i32) >> (imm & 0x1f)) as u32,
    }
}

/// Counts a data access of `width` bytes at `ea` when any of its bytes lies
/// at or beyond the memory capacity.
fn count_oob_access(s: &mut MachineState, ea: u32, width: u32)
    ensures
        final(s)@.oob_accesses == spec_bump(
            old(s)@.oob_accesses,
            ea as int + width > old(s)@.mem.len(),
        ),
        final(s)@.regs == old(s)@.regs,
        final(s)@.mem == old(s)@.mem,
        final(s)@.pc == old(s)@.pc,
        final(s)@.status == old(s)@.status,
        final(s)@.retired == old(s)@.retired,
{
    let size = s.mem.get_size();
    if (ea as u64) + (width as u64) > (size as u64) {
        if s.oob_accesses < u64::MAX {
            s.oob_accesses = s.oob_accesses + 1;
        }
    }
}

/// Evaluates a branch comparison.
fn branch_taken(op: BranchOp, a: u32, b: u32) -> (r: bool)
    ensures
        r == spec_branch_taken(op, a, b),
{
    match op {
        BranchOp::Beq => a == b,
        BranchOp::Bne => a != b,
        BranchOp::Blt => (a as i32) < (b as i32),
        BranchOp::Bge => (a as i32) >= (b as i32),
        BranchOp::Bltu => a < b,
        BranchOp::Bgeu => a >= b,
    }
}

/// Applies one decoded instruction to the machine: registers and memory take
/// the values `spec_execute` gives them, the returned effect is its effect,
/// the out-of-range access counter records whether the instruction's data
/// access crossed the capacity, and the program counter, status and retired
/// counter are untouched.
pub fn execute(i: &DecodedInstruction, s: &mut MachineState) -> (e: ControlEffect)
    requires
        i.wf(),
    ensures
        ({
            let (regs2, mem2, eff) = spec_execute(*i, old(s)@.regs, old(s)@.mem, old(s)@.pc);
            &&& final(s)@.regs == regs2
            &&& final(s)@.mem == mem2
            &&& e == eff
            &&& final(s)@.pc == old(s)@.pc
            &&& final(s)@.status == old(s)@.status
            &&& final(s)@.retired == old(s)@.retired
            &&& final(s)@.oob_accesses == spec_bump(
                old(s)@.oob_accesses,
                spec_oob_event(*i, old(s)@.regs, old(s)@.mem),
            )
        }),
{
    match *i {
        DecodedInstruction::RType { op, rd, rs1, rs2 } => {
            let a = s.regs.get(rs1);
            let b = s.regs.get(rs2);
            s.regs.set(rd, alu(op, a, b));
            ControlEffect::Continue { next_pc: s.pc.wrapping_add(4) }
        },
        DecodedInstruction::IAlu { op, rd, rs1, imm_i } => {
            let a = s.regs.get(rs1);
            s.regs.set(rd, ialu(op, a, imm_i));
            ControlEffect::Continue { next_pc: s.pc.wrapping_add(4) }
        },
        DecodedInstruction::Load { op, rd, rs1, imm_i } => {
            let ea = s.regs.get(rs1).wrapping_add(imm_i);
            let width: u32 = match op {
                LoadOp::Lb => 1,
                LoadOp::Lbu => 1,
                LoadOp::Lh => 2,
                LoadOp::Lhu => 2,
                LoadOp::Lw => 4,
            };
            count_oob_access(s, ea, width);
            let v = match op {
                LoadOp::Lb => s.mem.get8_sx(ea),
                LoadOp::Lh => s.mem.get16_sx(ea),
                LoadOp::Lw => s.mem.get32(ea),
                LoadOp::Lbu => s.mem.get8(ea) as u32,
                LoadOp::Lhu => s.mem.get16(ea) as u32,
            };
            s.regs.set(rd, v);
            ControlEffect::Continue { next_pc: s.pc.wrapping_add(4) }
        },
        DecodedInstruction::Jalr { rd, rs1, imm_i } => {
            let target = s.regs.get(rs1).wrapping_add(imm_i) & 0xfffffffe;
            let link = s.pc.wrapping_add(4);
            s.regs.set(rd, link);
            ControlEffect::Continue { next_pc: target }
        },
        DecodedInstruction::SType { op, rs1, rs2, imm_s } => {
            let ea = s.regs.get(rs1).wrapping_add(imm_s);
            let width: u32 = match op {
                StoreOp::Sb => 1,
                StoreOp::Sh => 2,
                StoreOp::Sw => 4,
            };
            count_oob_access(s, ea, width);
            let v = s.regs.get(rs2);
            match op {
                StoreOp::Sb => s.mem.set8(ea, v as u8),
                StoreOp::Sh => s.mem.set16(ea, v as u16),
                StoreOp::Sw => s.mem.set32(ea, v),
            }
            ControlEffect::Continue { next_pc: s.pc.wrapping_add(4) }
        },
        DecodedInstruction::BType { op, rs1, rs2, imm_b } => {
            let a = s.regs.get(rs1);
            let b = s.regs.get(rs2);
            let next_pc = if branch_taken(op, a, b) {
                s.pc.wrapping_add(imm_b)
            } else {
                s.pc.wrapping_add(4)
            };
            ControlEffect::Continue { next_pc }
        },
        DecodedInstruction::Lui { rd, imm_u } => {
            s.regs.set(rd, imm_u);
            ControlEffect::Continue { next_pc: s.pc.wrapping_add(4) }
        },
        DecodedInstruction::Auipc { rd, imm_u } => {
            let v = s.pc.wrapping_add(imm_u);
            s.regs.set(rd, v);
            ControlEffect::Continue { next_pc: s.pc.wrapping_add(4) }
        },
        DecodedInstruction::Jal { rd, imm_j } => {
            let link = s.pc.wrapping_add(4);
            s.regs.set(rd, link);
            ControlEffect::Continue { next_pc: s.pc.wrapping_add(imm_j) }
        },
        DecodedInstruction::Ecall => ControlEffect::Halt { reason: HaltReason::Ecall },
        DecodedInstruction::Ebreak => ControlEffect::Halt { reason: HaltReason::Ebreak },
        DecodedInstruction::Csr { .. } => ControlEffect::Continue {
            next_pc: s.pc.wrapping_add(4),
        },
        DecodedInstruction::Illegal { word } => ControlEffect::Trap {
            reason: TrapReason::IllegalInstruction { pc: s.pc, word },
        },
    }
}

} // verus!
