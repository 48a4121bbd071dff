//! Decoding of raw RV32I instruction words.
//!
//! `decode` is a total function from a 32-bit word to a structured
//! instruction: the opcode (bits 6..0) selects the encoding format, funct3
//! (bits 14..12) and funct7 (bits 31..25) select the operation within it, and
//! the format-specific immediate is reassembled from its scattered bit
//! fields. Every word decodes; any encoding outside the RV32I base set
//! decodes to `Illegal`, never to a silent default.

use vstd::prelude::*;

verus! {

pub const OPCODE_LUI: u32 = 0b0110111;

pub const OPCODE_AUIPC: u32 = 0b0010111;

pub const OPCODE_JAL: u32 = 0b1101111;

pub const OPCODE_JALR: u32 = 0b1100111;

pub const OPCODE_BTYPE: u32 = 0b1100011;

pub const OPCODE_LOAD_IMM: u32 = 0b0000011;

pub const OPCODE_STYPE: u32 = 0b0100011;

pub const OPCODE_ALU_IMM: u32 = 0b0010011;

pub const OPCODE_RTYPE: u32 = 0b0110011;

pub const OPCODE_SYSTEM: u32 = 0b1110011;

pub const FUNCT3_BEQ: u32 = 0b000;

pub const FUNCT3_BNE: u32 = 0b001;

pub const FUNCT3_BLT: u32 = 0b100;

pub const FUNCT3_BGE: u32 = 0b101;

pub const FUNCT3_BLTU: u32 = 0b110;

pub const FUNCT3_BGEU: u32 = 0b111;

pub const FUNCT3_LB: u32 = 0b000;

pub const FUNCT3_LH: u32 = 0b001;

pub const FUNCT3_LW: u32 = 0b010;

pub const FUNCT3_LBU: u32 = 0b100;

pub const FUNCT3_LHU: u32 = 0b101;

pub const FUNCT3_SB: u32 = 0b000;

pub const FUNCT3_SH: u32 = 0b001;

pub const FUNCT3_SW: u32 = 0b010;

pub const FUNCT3_ADD: u32 = 0b000;

pub const FUNCT3_SLL: u32 = 0b001;

pub const FUNCT3_SLT: u32 = 0b010;

pub const FUNCT3_SLTU: u32 = 0b011;

pub const FUNCT3_XOR: u32 = 0b100;

pub const FUNCT3_SRX: u32 = 0b101;

pub const FUNCT3_OR: u32 = 0b110;

pub const FUNCT3_AND: u32 = 0b111;

pub const FUNCT7_SRL: u32 = 0b0000000;

pub const FUNCT7_SRA: u32 = 0b0100000;

pub const FUNCT7_ADD: u32 = 0b0000000;

pub const FUNCT7_SUB: u32 = 0b0100000;

pub const INSN_ECALL: u32 = 0x00000073;

pub const INSN_EBREAK: u32 = 0x00100073;

pub const FUNCT3_CSRRW: u32 = 0b001;

pub const FUNCT3_CSRRS: u32 = 0b010;

pub const FUNCT3_CSRRC: u32 = 0b011;

pub const FUNCT3_CSRRWI: u32 = 0b101;

pub const FUNCT3_CSRRSI: u32 = 0b110;

pub const FUNCT3_CSRRCI: u32 = 0b111;

/// The opcode field, bits 6..0.
pub open spec fn spec_opcode(insn: u32) -> u32 {
    insn & 0x0000007f
}

/// The destination register field, bits 11..7.
pub open spec fn spec_rd(insn: u32) -> u32 {
    (insn & 0x00000f80) >> 7
}

/// The funct3 field, bits 14..12.
pub open spec fn spec_func3(insn: u32) -> u32 {
    (insn & 0x00007000) >> 12
}

/// The first source register field, bits 19..15.
pub open spec fn spec_rs1(insn: u32) -> u32 {
    (insn & 0x000f8000) >> 15
}

/// The second source register field, bits 24..20.
pub open spec fn spec_rs2(insn: u32) -> u32 {
    (insn & 0x01f00000) >> 20
}

/// The funct7 field, bits 31..25.
pub open spec fn spec_func7(insn: u32) -> u32 {
    (insn & 0xfe000000) >> 25
}

/// The I-type immediate: bits 31..20, sign-extended from bit 11.
pub open spec fn spec_imm_i(insn: u32) -> u32 {
    let x = (insn & 0xfff00000) >> 20;
    if x & 0x800 != 0 {
        x | 0xfffff000
    } else {
        x
    }
}

/// The U-type immediate: bits 31..12 in place, low 12 bits zero.
pub open spec fn spec_imm_u(insn: u32) -> u32 {
    insn & 0xfffff000
}

/// The B-type immediate: imm[12]=w[31], imm[11]=w[7], imm[10:5]=w[30:25],
/// imm[4:1]=w[11:8], imm[0]=0, sign-extended from bit 12.
pub open spec fn spec_imm_b(insn: u32) -> u32 {
    let b = (((insn >> 31) & 1) << 12) | (((insn >> 7) & 1) << 11) | (((insn >> 25) & 0x3f) << 5)
        | (((insn >> 8) & 0xf) << 1);
    if (insn >> 31) & 1 == 1 {
        b | 0xffffe000
    } else {
        b
    }
}

/// The S-type immediate: imm[11:5]=w[31:25], imm[4:0]=w[11:7], sign-extended
/// from bit 11.
pub open spec fn spec_imm_s(insn: u32) -> u32 {
    let s = (((insn >> 25) & 0x7f) << 5) | ((insn >> 7) & 0x1f);
    if (insn >> 31) & 1 == 1 {
        s | 0xfffff000
    } else {
        s
    }
}

/// The J-type immediate: imm[20]=w[31], imm[19:12]=w[19:12], imm[11]=w[20],
/// imm[10:1]=w[30:21], imm[0]=0, sign-extended from bit 20.
pub open spec fn spec_imm_j(insn: u32) -> u32 {
    let j = (((insn >> 31) & 1) << 20) | (((insn >> 12) & 0xff) << 12) | (((insn >> 20) & 1) << 11)
        | (((insn >> 21) & 0x3ff) << 1);
    if (insn >> 31) & 1 == 1 {
        j | 0xffe00000
    } else {
        j
    }
}

/// Every instruction field is a shifted mask of the word, so each is bounded
/// by the width of its field.
proof fn lemma_field_bounds(insn: u32)
    by (bit_vector)
    ensures
        (insn & 0x0000007f) < 128,
        ((insn & 0x00000f80) >> 7) < 32,
        ((insn & 0x00007000) >> 12) < 8,
        ((insn & 0x000f8000) >> 15) < 32,
        ((insn & 0x01f00000) >> 20) < 32,
        ((insn & 0xfe000000) >> 25) < 128,
{
}

/// Extracts the opcode field, bits 6..0.
pub fn get_opcode(insn: u32) -> (r: u32)
    ensures
        r == spec_opcode(insn),
        r < 128,
{
    proof {
        lemma_field_bounds(insn);
    }
    insn & 0x0000007f
}

/// Extracts the destination register field, bits 11..7.
pub fn get_rd(insn: u32) -> (r: u32)
    ensures
        r == spec_rd(insn),
        r < 32,
{
    proof {
        lemma_field_bounds(insn);
    }
    (insn & 0x00000f80) >> 7
}

/// Extracts the funct3 field, bits 14..12.
pub fn get_func3(insn: u32) -> (r: u32)
    ensures
        r == spec_func3(insn),
        r < 8,
{
    proof {
        lemma_field_bounds(insn);
    }
    (insn & 0x00007000) >> 12
}

/// Extracts the first source register field, bits 19..15.
pub fn get_rs1(insn: u32) -> (r: u32)
    ensures
        r == spec_rs1(insn),
        r < 32,
{
    proof {
        lemma_field_bounds(insn);
    }
    (insn & 0x000f8000) >> 15
}

/// Extracts the second source register field, bits 24..20.
pub fn get_rs2(insn: u32) -> (r: u32)
    ensures
        r == spec_rs2(insn),
        r < 32,
{
    proof {
        lemma_field_bounds(insn);
    }
    (insn & 0x01f00000) >> 20
}

/// Extracts the funct7 field, bits 31..25.
pub fn get_func7(insn: u32) -> (r: u32)
    ensures
        r == spec_func7(insn),
        r < 128,
{
    proof {
        lemma_field_bounds(insn);
    }
    (insn & 0xfe000000) >> 25
}

/// Reassembles the I-type immediate.
pub fn get_imm_i(insn: u32) -> (r: u32)
    ensures
        r == spec_imm_i(insn),
{
    let x = (insn & 0xfff00000) >> 20;
    if x & 0x800 != 0 {
        x | 0xfffff000
    } else {
        x
    }
}

/// Reassembles the U-type immediate.
pub fn get_imm_u(insn: u32) -> (r: u32)
    ensures
        r == spec_imm_u(insn),
{
    insn & 0xfffff000
}

/// Reassembles the B-type immediate.
pub fn get_imm_b(insn: u32) -> (r: u32)
    ensures
        r == spec_imm_b(insn),
{
    let b = (((insn >> 31) & 1) << 12) | (((insn >> 7) & 1) << 11) | (((insn >> 25) & 0x3f) << 5)
        | (((insn >> 8) & 0xf) << 1);
    if (insn >> 31) & 1 == 1 {
        b | 0xffffe000
    } else {
        b
    }
}

/// Reassembles the S-type immediate.
pub fn get_imm_s(insn: u32) -> (r: u32)
    ensures
        r == spec_imm_s(insn),
{
    let s = (((insn >> 25) & 0x7f) << 5) | ((insn >> 7) & 0x1f);
    if (insn >> 31) & 1 == 1 {
        s | 0xfffff000
    } else {
        s
    }
}

/// Reassembles the J-type immediate.
pub fn get_imm_j(insn: u32) -> (r: u32)
    ensures
        r == spec_imm_j(insn),
{
    let j = (((insn >> 31) & 1) << 20) | (((insn >> 12) & 0xff) << 12) | (((insn >> 20) & 1) << 11)
        | (((insn >> 21) & 0x3ff) << 1);
    if (insn >> 31) & 1 == 1 {
        j | 0xffe00000
    } else {
        j
    }
}

/// The R-type register-register operations.
#[derive(Clone, Copy, PartialEq, Eq, Structural, Debug)]
pub enum RAluOp {
    Add,
    Sub,
    Sll,
    Slt,
    Sltu,
    Xor,
    Srl,
    Sra,
    Or,
    And,
}

/// The I-type register-immediate operations.
#[derive(Clone, Copy, PartialEq, Eq, Structural, Debug)]
pub enum IAluOp {
    Addi,
    Slti,
    Sltiu,
    Xori,
    Ori,
    Andi,
    Slli,
    Srli,
    Srai,
}

/// The load operations.
#[derive(Clone, Copy, PartialEq, Eq, Structural, Debug)]
pub enum LoadOp {
    Lb,
    Lh,
    Lw,
    Lbu,
    Lhu,
}

/// The store operations.
#[derive(Clone, Copy, PartialEq, Eq, Structural, Debug)]
pub enum StoreOp {
    Sb,
    Sh,
    Sw,
}

/// The conditional branch operations.
#[derive(Clone, Copy, PartialEq, Eq, Structural, Debug)]
pub enum BranchOp {
    Beq,
    Bne,
    Blt,
    Bge,
    Bltu,
    Bgeu,
}

/// The control and status register operations.
#[derive(Clone, Copy, PartialEq, Eq, Structural, Debug)]
pub enum CsrOp {
    Csrrw,
    Csrrs,
    Csrrc,
    Csrrwi,
    Csrrsi,
    Csrrci,
}

/// A decoded instruction: one variant per encoding format, carrying the
/// operation and exactly the fields meaningful to that format. Immediates
/// are carried as 32-bit two's-complement bit patterns, already
/// sign-extended where the format calls for it, except that the shift
/// operations of `IAlu` carry the 5-bit unsigned shift amount and the
/// immediate forms of `Csr` carry the 5-bit unsigned `zimm` in `rs1`.
#[derive(Clone, Copy, PartialEq, Eq, Structural, Debug)]
pub enum DecodedInstruction {
    RType { op: RAluOp, rd: u32, rs1: u32, rs2: u32 },
    IAlu { op: IAluOp, rd: u32, rs1: u32, imm_i: u32 },
    Load { op: LoadOp, rd: u32, rs1: u32, imm_i: u32 },
    Jalr { rd: u32, rs1: u32, imm_i: u32 },
    SType { op: StoreOp, rs1: u32, rs2: u32, imm_s: u32 },
    BType { op: BranchOp, rs1: u32, rs2: u32, imm_b: u32 },
    Lui { rd: u32, imm_u: u32 },
    Auipc { rd: u32, imm_u: u32 },
    Jal { rd: u32, imm_j: u32 },
    Ecall,
    Ebreak,
    Csr { op: CsrOp, rd: u32, rs1: u32, csr: u32 },
    Illegal { word: u32 },
}

impl DecodedInstruction {
    /// Every register index came from a 5-bit field, and the shift amount of
    /// an immediate shift from a 5-bit field as well.
    pub open spec fn wf(self) -> bool {
        match self {
            DecodedInstruction::RType { rd, rs1, rs2, .. } => rd < 32 && rs1 < 32 && rs2 < 32,
            DecodedInstruction::IAlu { op, rd, rs1, imm_i } => rd < 32 && rs1 < 32 && ((op
                == IAluOp::Slli || op == IAluOp::Srli || op == IAluOp::Srai) ==> imm_i < 32),
            DecodedInstruction::Load { rd, rs1, .. } => rd < 32 && rs1 < 32,
            DecodedInstruction::Jalr { rd, rs1, .. } => rd < 32 && rs1 < 32,
            DecodedInstruction::SType { rs1, rs2, .. } => rs1 < 32 && rs2 < 32,
            DecodedInstruction::BType { rs1, rs2, .. } => rs1 < 32 && rs2 < 32,
            DecodedInstruction::Lui { rd, .. } => rd < 32,
            DecodedInstruction::Auipc { rd, .. } => rd < 32,
            DecodedInstruction::Jal { rd, .. } => rd < 32,
            DecodedInstruction::Ecall => true,
            DecodedInstruction::Ebreak => true,
            DecodedInstruction::Csr { rd, rs1, .. } => rd < 32 && rs1 < 32,
            DecodedInstruction::Illegal { .. } => true,
        }
    }
}

/// The decoding of an instruction word, as a specification-level function.
pub open spec fn spec_decode(insn: u32) -> DecodedInstruction {
    let opcode = spec_opcode(insn);
    let rd = spec_rd(insn);
    let func3 = spec_func3(insn);
    let rs1 = spec_rs1(insn);
    let rs2 = spec_rs2(insn);
    let func7 = spec_func7(insn);
    if opcode == OPCODE_LUI {
        DecodedInstruction::Lui { rd, imm_u: spec_imm_u(insn) }
    } else if opcode == OPCODE_AUIPC {
        DecodedInstruction::Auipc { rd, imm_u: spec_imm_u(insn) }
    } else if opcode == OPCODE_JAL {
        DecodedInstruction::Jal { rd, imm_j: spec_imm_j(insn) }
    } else if opcode == OPCODE_JALR {
        if func3 == 0 {
            DecodedInstruction::Jalr { rd, rs1, imm_i: spec_imm_i(insn) }
        } else {
            DecodedInstruction::Illegal { word: insn }
        }
    } else if opcode == OPCODE_BTYPE {
        let imm_b = spec_imm_b(insn);
        if func3 == FUNCT3_BEQ {
            DecodedInstruction::BType { op: BranchOp::Beq, rs1, rs2, imm_b }
        } else if func3 == FUNCT3_BNE {
            DecodedInstruction::BType { op: BranchOp::Bne, rs1, rs2, imm_b }
        } else if func3 == FUNCT3_BLT {
            DecodedInstruction::BType { op: BranchOp::Blt, rs1, rs2, imm_b }
        } else if func3 == FUNCT3_BGE {
            DecodedInstruction::BType { op: BranchOp::Bge, rs1, rs2, imm_b }
        } else if func3 == FUNCT3_BLTU {
            DecodedInstruction::BType { op: BranchOp::Bltu, rs1, rs2, imm_b }
        } else if func3 == FUNCT3_BGEU {
            DecodedInstruction::BType { op: BranchOp::Bgeu, rs1, rs2, imm_b }
        } else {
            DecodedInstruction::Illegal { word: insn }
        }
    } else if opcode == OPCODE_LOAD_IMM {
        let imm_i = spec_imm_i(insn);
        if func3 == FUNCT3_LB {
            DecodedInstruction::Load { op: LoadOp::Lb, rd, rs1, imm_i }
        } else if func3 == FUNCT3_LH {
            DecodedInstruction::Load { op: LoadOp::Lh, rd, rs1, imm_i }
        } else if func3 == FUNCT3_LW {
            DecodedInstruction::Load { op: LoadOp::Lw, rd, rs1, imm_i }
        } else if func3 == FUNCT3_LBU {
            DecodedInstruction::Load { op: LoadOp::Lbu, rd, rs1, imm_i }
        } else if func3 == FUNCT3_LHU {
            DecodedInstruction::Load { op: LoadOp::Lhu, rd, rs1, imm_i }
        } else {
            DecodedInstruction::Illegal { word: insn }
        }
    } else if opcode == OPCODE_STYPE {
        let imm_s = spec_imm_s(insn);
        if func3 == FUNCT3_SB {
            DecodedInstruction::SType { op: StoreOp::Sb, rs1, rs2, imm_s }
        } else if func3 == FUNCT3_SH {
            DecodedInstruction::SType { op: StoreOp::Sh, rs1, rs2, imm_s }
        } else if func3 == FUNCT3_SW {
            DecodedInstruction::SType { op: StoreOp::Sw, rs1, rs2, imm_s }
        } else {
            DecodedInstruction::Illegal { word: insn }
        }
    } else if opcode == OPCODE_ALU_IMM {
        let imm_i = spec_imm_i(insn);
        if func3 == FUNCT3_ADD {
            DecodedInstruction::IAlu { op: IAluOp::Addi, rd, rs1, imm_i }
        } else if func3 == FUNCT3_SLT {
            DecodedInstruction::IAlu { op: IAluOp::Slti, rd, rs1, imm_i }
        } else if func3 == FUNCT3_SLTU {
            DecodedInstruction::IAlu { op: IAluOp::Sltiu, rd, rs1, imm_i }
        } else if func3 == FUNCT3_XOR {
            DecodedInstruction::IAlu { op: IAluOp::Xori, rd, rs1, imm_i }
        } else if func3 == FUNCT3_OR {
            DecodedInstruction::IAlu { op: IAluOp::Ori, rd, rs1, imm_i }
        } else if func3 == FUNCT3_AND {
            DecodedInstruction::IAlu { op: IAluOp::Andi, rd, rs1, imm_i }
        } else if func3 == FUNCT3_SLL {
            if func7 == FUNCT7_SRL {
                DecodedInstruction::IAlu { op: IAluOp::Slli, rd, rs1, imm_i: rs2 }
            } else {
                DecodedInstruction::Illegal { word: insn }
            }
        } else {
            if func7 == FUNCT7_SRL {
                DecodedInstruction::IAlu { op: IAluOp::Srli, rd, rs1, imm_i: rs2 }
            } else if func7 == FUNCT7_SRA {
                DecodedInstruction::IAlu { op: IAluOp::Srai, rd, rs1, imm_i: rs2 }
            } else {
                DecodedInstruction::Illegal { word: insn }
            }
        }
    } else if opcode == OPCODE_RTYPE {
        if func3 == FUNCT3_ADD && func7 == FUNCT7_ADD {
            DecodedInstruction::RType { op: RAluOp::Add, rd, rs1, rs2 }
        } else if func3 == FUNCT3_ADD && func7 == FUNCT7_SUB {
            DecodedInstruction::RType { op: RAluOp::Sub, rd, rs1, rs2 }
        } else if func3 == FUNCT3_SLL && func7 == 0 {
            DecodedInstruction::RType { op: RAluOp::Sll, rd, rs1, rs2 }
        } else if func3 == FUNCT3_SLT && func7 == 0 {
            DecodedInstruction::RType { op: RAluOp::Slt, rd, rs1, rs2 }
        } else if func3 == FUNCT3_SLTU && func7 == 0 {
            DecodedInstruction::RType { op: RAluOp::Sltu, rd, rs1, rs2 }
        } else if func3 == FUNCT3_XOR && func7 == 0 {
            DecodedInstruction::RType { op: RAluOp::Xor, rd, rs1, rs2 }
        } else if func3 == FUNCT3_SRX && func7 == FUNCT7_SRL {
            DecodedInstruction::RType { op: RAluOp::Srl, rd, rs1, rs2 }
        } else if func3 == FUNCT3_SRX && func7 == FUNCT7_SRA {
            DecodedInstruction::RType { op: RAluOp::Sra, rd, rs1, rs2 }
        } else if func3 == FUNCT3_OR && func7 == 0 {
            DecodedInstruction::RType { op: RAluOp::Or, rd, rs1, rs2 }
        } else if func3 == FUNCT3_AND && func7 == 0 {
            DecodedInstruction::RType { op: RAluOp::And, rd, rs1, rs2 }
        } else {
            DecodedInstruction::Illegal { word: insn }
        }
    } else if opcode == OPCODE_SYSTEM {
        if insn == INSN_ECALL {
            DecodedInstruction::Ecall
        } else if insn == INSN_EBREAK {
            DecodedInstruction::Ebreak
        } else {
            let csr = (insn >> 20) & 0xfff;
            if func3 == FUNCT3_CSRRW {
                DecodedInstruction::Csr { op: CsrOp::Csrrw, rd, rs1, csr }
            } else if func3 == FUNCT3_CSRRS {
                DecodedInstruction::Csr { op: CsrOp::Csrrs, rd, rs1, csr }
            } else if func3 == FUNCT3_CSRRC {
                DecodedInstruction::Csr { op: CsrOp::Csrrc, rd, rs1, csr }
            } else if func3 == FUNCT3_CSRRWI {
                DecodedInstruction::Csr { op: CsrOp::Csrrwi, rd, rs1, csr }
            } else if func3 == FUNCT3_CSRRSI {
                DecodedInstruction::Csr { op: CsrOp::Csrrsi, rd, rs1, csr }
            } else if func3 == FUNCT3_CSRRCI {
                DecodedInstruction::Csr { op: CsrOp::Csrrci, rd, rs1, csr }
            } else {
                DecodedInstruction::Illegal { word: insn }
            }
        }
    } else {
        DecodedInstruction::Illegal { word: insn }
    }
}

/// Decodes one instruction word. Total: every word yields a structured
/// instruction, with `Illegal` as the explicit arm for encodings outside the
/// RV32I base set.
pub fn decode(insn: u32) -> (r: DecodedInstruction)
    ensures
        r == spec_decode(insn),
        r.wf(),
{
    let opcode = get_opcode(insn);
    let rd = get_rd(insn);
    let func3 = get_func3(insn);
    let rs1 = get_rs1(insn);
    let rs2 = get_rs2(insn);
    let func7 = get_func7(insn);
    if opcode == OPCODE_LUI {
        DecodedInstruction::Lui { rd, imm_u: get_imm_u(insn) }
    } else if opcode == OPCODE_AUIPC {
        DecodedInstruction::Auipc { rd, imm_u: get_imm_u(insn) }
    } else if opcode == OPCODE_JAL {
        DecodedInstruction::Jal { rd, imm_j: get_imm_j(insn) }
    } else if opcode == OPCODE_JALR {
        if func3 == 0 {
            DecodedInstruction::Jalr { rd, rs1, imm_i: get_imm_i(insn) }
        } else {
            DecodedInstruction::Illegal { word: insn }
        }
    } else if opcode == OPCODE_BTYPE {
        let imm_b = get_imm_b(insn);
        if func3 == FUNCT3_BEQ {
            DecodedInstruction::BType { op: BranchOp::Beq, rs1, rs2, imm_b }
        } else if func3 == FUNCT3_BNE {
            DecodedInstruction::BType { op: BranchOp::Bne, rs1, rs2, imm_b }
        } else if func3 == FUNCT3_BLT {
            DecodedInstruction::BType { op: BranchOp::Blt, rs1, rs2, imm_b }
        } else if func3 == FUNCT3_BGE {
            DecodedInstruction::BType { op: BranchOp::Bge, rs1, rs2, imm_b }
        } else if func3 == FUNCT3_BLTU {
            DecodedInstruction::BType { op: BranchOp::Bltu, rs1, rs2, imm_b }
        } else if func3 == FUNCT3_BGEU {
            DecodedInstruction::BType { op: BranchOp::Bgeu, rs1, rs2, imm_b }
        } else {
            DecodedInstruction::Illegal { word: insn }
        }
    } else if opcode == OPCODE_LOAD_IMM {
        let imm_i = get_imm_i(insn);
        if func3 == FUNCT3_LB {
            DecodedInstruction::Load { op: LoadOp::Lb, rd, rs1, imm_i }
        } else if func3 == FUNCT3_LH {
            DecodedInstruction::Load { op: LoadOp::Lh, rd, rs1, imm_i }
        } else if func3 == FUNCT3_LW {
            DecodedInstruction::Load { op: LoadOp::Lw, rd, rs1, imm_i }
        } else if func3 == FUNCT3_LBU {
            DecodedInstruction::Load { op: LoadOp::Lbu, rd, rs1, imm_i }
        } else if func3 == FUNCT3_LHU {
            DecodedInstruction::Load { op: LoadOp::Lhu, rd, rs1, imm_i }
        } else {
            DecodedInstruction::Illegal { word: insn }
        }
    } else if opcode == OPCODE_STYPE {
        let imm_s = get_imm_s(insn);
        if func3 == FUNCT3_SB {
            DecodedInstruction::SType { op: StoreOp::Sb, rs1, rs2, imm_s }
        } else if func3 == FUNCT3_SH {
            DecodedInstruction::SType { op: StoreOp::Sh, rs1, rs2, imm_s }
        } else if func3 == FUNCT3_SW {
            DecodedInstruction::SType { op: StoreOp::Sw, rs1, rs2, imm_s }
        } else {
            DecodedInstruction::Illegal { word: insn }
        }
    } else if opcode == OPCODE_ALU_IMM {
        let imm_i = get_imm_i(insn);
        if func3 == FUNCT3_ADD {
            DecodedInstruction::IAlu { op: IAluOp::Addi, rd, rs1, imm_i }
        } else if func3 == FUNCT3_SLT {
            DecodedInstruction::IAlu { op: IAluOp::Slti, rd, rs1, imm_i }
        } else if func3 == FUNCT3_SLTU {
            DecodedInstruction::IAlu { op: IAluOp::Sltiu, rd, rs1, imm_i }
        } else if func3 == FUNCT3_XOR {
            DecodedInstruction::IAlu { op: IAluOp::Xori, rd, rs1, imm_i }
        } else if func3 == FUNCT3_OR {
            DecodedInstruction::IAlu { op: IAluOp::Ori, rd, rs1, imm_i }
        } else if func3 == FUNCT3_AND {
            DecodedInstruction::IAlu { op: IAluOp::Andi, rd, rs1, imm_i }
        } else if func3 == FUNCT3_SLL {
            if func7 == FUNCT7_SRL {
                DecodedInstruction::IAlu { op: IAluOp::Slli, rd, rs1, imm_i: rs2 }
            } else {
                DecodedInstruction::Illegal { word: insn }
            }
        } else {
            if func7 == FUNCT7_SRL {
                DecodedInstruction::IAlu { op: IAluOp::Srli, rd, rs1, imm_i: rs2 }
            } else if func7 == FUNCT7_SRA {
                DecodedInstruction::IAlu { op: IAluOp::Srai, rd, rs1, imm_i: rs2 }
            } else {
                DecodedInstruction::Illegal { word: insn }
            }
        }
    } else if opcode == OPCODE_RTYPE {
        if func3 == FUNCT3_ADD && func7 == FUNCT7_ADD {
            DecodedInstruction::RType { op: RAluOp::Add, rd, rs1, rs2 }
        } else if func3 == FUNCT3_ADD && func7 == FUNCT7_SUB {
            DecodedInstruction::RType { op: RAluOp::Sub, rd, rs1, rs2 }
        } else if func3 == FUNCT3_SLL && func7 == 0 {
            DecodedInstruction::RType { op: RAluOp::Sll, rd, rs1, rs2 }
        } else if func3 == FUNCT3_SLT && func7 == 0 {
            DecodedInstruction::RType { op: RAluOp::Slt, rd, rs1, rs2 }
        } else if func3 == FUNCT3_SLTU && func7 == 0 {
            DecodedInstruction::RType { op: RAluOp::Sltu, rd, rs1, rs2 }
        } else if func3 == FUNCT3_XOR && func7 == 0 {
            DecodedInstruction::RType { op: RAluOp::Xor, rd, rs1, rs2 }
        } else if func3 == FUNCT3_SRX && func7 == FUNCT7_SRL {
            DecodedInstruction::RType { op: RAluOp::Srl, rd, rs1, rs2 }
        } else if func3 == FUNCT3_SRX && func7 == FUNCT7_SRA {
            DecodedInstruction::RType { op: RAluOp::Sra, rd, rs1, rs2 }
        } else if func3 == FUNCT3_OR && func7 == 0 {
            DecodedInstruction::RType { op: RAluOp::Or, rd, rs1, rs2 }
        } else if func3 == FUNCT3_AND && func7 == 0 {
            DecodedInstruction::RType { op: RAluOp::And, rd, rs1, rs2 }
        } else {
            DecodedInstruction::Illegal { word: insn }
        }
    } else if opcode == OPCODE_SYSTEM {
        if insn == INSN_ECALL {
            DecodedInstruction::Ecall
        } else if insn == INSN_EBREAK {
            DecodedInstruction::Ebreak
        } else {
            let csr = (insn >> 20) & 0xfff;
            if func3 == FUNCT3_CSRRW {
                DecodedInstruction::Csr { op: CsrOp::Csrrw, rd, rs1, csr }
            } else if func3 == FUNCT3_CSRRS {
                DecodedInstruction::Csr { op: CsrOp::Csrrs, rd, rs1, csr }
            } else if func3 == FUNCT3_CSRRC {
                DecodedInstruction::Csr { op: CsrOp::Csrrc, rd, rs1, csr }
            } else if func3 == FUNCT3_CSRRWI {
                DecodedInstruction::Csr { op: CsrOp::Csrrwi, rd, rs1, csr }
            } else if func3 == FUNCT3_CSRRSI {
                DecodedInstruction::Csr { op: CsrOp::Csrrsi, rd, rs1, csr }
            } else if func3 == FUNCT3_CSRRCI {
                DecodedInstruction::Csr { op: CsrOp::Csrrci, rd, rs1, csr }
            } else {
                DecodedInstruction::Illegal { word: insn }
            }
        }
    } else {
        DecodedInstruction::Illegal { word: insn }
    }
}

/// Decoding is deterministic: any two decodings of the same word agree.
/// Together with `decode`'s postcondition — its result always equals
/// `spec_decode` of the word — two calls of `decode` on one word return the
/// same instruction; and `decode` is total, having no precondition.
pub proof fn lemma_decode_deterministic(w: u32, a: DecodedInstruction, b: DecodedInstruction)
    requires
        a == spec_decode(w),
        b == spec_decode(w),
    ensures
        a == b,
{
}

/// The sign-extension round trip of the I-type immediate: when bit 31 of
/// the word — the top bit of the 12-bit field — is set, the upper 20 bits of
/// the immediate are all ones; when it is clear, they are all zeros.
pub proof fn lemma_imm_i_sign_extension(w: u32)
    by (bit_vector)
    ensures
        (w >> 31) & 1 == 1 ==> spec_imm_i(w) & 0xfffff000 == 0xfffff000,
        (w >> 31) & 1 == 0 ==> spec_imm_i(w) & 0xfffff000 == 0,
{
}

} // verus!
