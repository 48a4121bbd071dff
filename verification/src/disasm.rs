//! Rendering of decoded instructions as disassembly text.
//!
//! One line per instruction: the mnemonic padded to a width of 8, then the
//! comma-separated operands. Registers render as `x` followed by the index;
//! absolute branch and jump targets render as `0x` and eight hexadecimal
//! digits; 12-bit and 20-bit immediate fields render at their field width,
//! with three and five hexadecimal digits.

use crate::exec::wadd;
use crate::hex::{dec2, dec2_str, hex_seq, hex_seq_0x, to_hex0x12, to_hex0x32, to_hex32};
use crate::memory::{spec_get32, Memory};
use crate::rv32i_decode::{
    decode, get_imm_b, get_imm_i, get_imm_j, get_imm_s, get_imm_u, get_rd, get_rs1, get_rs2,
    spec_decode, spec_imm_b, spec_imm_i, spec_imm_j, spec_imm_s, spec_imm_u, spec_rd, spec_rs1,
    spec_rs2, BranchOp, CsrOp, DecodedInstruction, IAluOp, LoadOp, RAluOp, StoreOp,
};
use vstd::prelude::*;
use vstd::string::{StrSliceExecFns, StringExecFns};

verus! {

/// `n` space characters.
pub open spec fn spaces(n: int) -> Seq<char> {
    Seq::new(n as nat, |i: int| ' ')
}

/// A mnemonic padded on the right with spaces to a width of 8.
pub open spec fn spec_mnemonic(m: Seq<char>) -> Seq<char> {
    if m.len() >= 8 {
        m
    } else {
        m + spaces(8 - m.len())
    }
}

/// A register operand: `x` followed by the register index in decimal.
pub open spec fn spec_reg(reg: u32) -> Seq<char> {
    seq!['x'] + dec2(reg as int)
}

/// A base-plus-displacement operand: the 12-bit displacement in hexadecimal,
/// then the base register in parentheses.
pub open spec fn spec_base_disp(imm: u32, reg: u32) -> Seq<char> {
    hex_seq_0x((imm % 0x1000) as int, 3) + seq!['('] + spec_reg(reg) + seq![')']
}

/// Pads a mnemonic on the right with spaces to a width of 8.
pub fn render_mnemonic(m: &str) -> (r: String)
    ensures
        r@ == spec_mnemonic(m@),
{
    let mut r = String::from_str(m);
    let mut k: usize = m.unicode_len();
    while k < 8
        invariant
            m@.len() <= k,
            r@ == m@ + spaces(k - m@.len()),
            k <= 8 || k == m@.len(),
        decreases 8 - k,
    {
        r.append(" ");
        proof {
            reveal_strlit(" ");
            assert(r@ =~= m@ + spaces(k + 1 - m@.len()));
        }
        k = k + 1;
    }
    proof {
        assert(m@ + spaces(0) =~= m@);
    }
    r
}

/// Renders a register operand.
pub fn render_reg(reg: u32) -> (r: String)
    requires
        reg < 32,
    ensures
        r@ == spec_reg(reg),
{
    let mut r = String::from_str("x");
    r.append(dec2_str(reg).as_str());
    proof {
        reveal_strlit("x");
        assert(r@ =~= spec_reg(reg));
    }
    r
}

/// Renders a base-plus-displacement operand.
pub fn render_base_disp(base: u32, disp: u32) -> (r: String)
    requires
        disp < 32,
    ensures
        r@ == spec_base_disp(base, disp),
{
    let mut r = to_hex0x12(base);
    r.append("(");
    r.append(render_reg(disp).as_str());
    r.append(")");
    proof {
        reveal_strlit("(");
        reveal_strlit(")");
        assert(r@ =~= spec_base_disp(base, disp));
    }
    r
}

/// The diagnostic line for an unrecognized instruction word.
pub open spec fn spec_render_illegal() -> Seq<char> {
    "ERROR: UNIMPLEMENTED INSTRUCTION"@
}

/// Renders the diagnostic line for an unrecognized instruction word.
#[allow(unused_variables)]
pub fn render_illegal_insn(insn: u32) -> (r: String)
    ensures
        r@ == spec_render_illegal(),
{
    String::from_str("ERROR: UNIMPLEMENTED INSTRUCTION")
}

/// The disassembly of a `lui` instruction: the 20-bit immediate field.
pub open spec fn spec_render_lui(insn: u32) -> Seq<char> {
    spec_mnemonic("lui"@) + spec_reg(spec_rd(insn)) + seq![','] + hex_seq_0x(
        (((spec_imm_u(insn) >> 12) & 0xfffff) % 0x100000) as int,
        5,
    )
}

/// Renders a `lui` instruction.
pub fn render_lui(insn: u32) -> (r: String)
    ensures
        r@ == spec_render_lui(insn),
{
    let imm_u = get_imm_u(insn);
    let mut r = render_mnemonic("lui");
    r.append(render_reg(get_rd(insn)).as_str());
    r.append(",");
    r.append(crate::hex::to_hex0x20((imm_u >> 12) & 0xfffff).as_str());
    proof {
        reveal_strlit(",");
        assert(r@ =~= spec_render_lui(insn));
    }
    r
}

/// The disassembly of an `auipc` instruction: the 20-bit immediate field.
pub open spec fn spec_render_auipc(insn: u32) -> Seq<char> {
    spec_mnemonic("auipc"@) + spec_reg(spec_rd(insn)) + seq![','] + hex_seq_0x(
        (((spec_imm_u(insn) >> 12) & 0xfffff) % 0x100000) as int,
        5,
    )
}

/// Renders an `auipc` instruction.
pub fn render_auipc(insn: u32) -> (r: String)
    ensures
        r@ == spec_render_auipc(insn),
{
    let imm_u = get_imm_u(insn);
    let mut r = render_mnemonic("auipc");
    r.append(render_reg(get_rd(insn)).as_str());
    r.append(",");
    r.append(crate::hex::to_hex0x20((imm_u >> 12) & 0xfffff).as_str());
    proof {
        reveal_strlit(",");
        assert(r@ =~= spec_render_auipc(insn));
    }
    r
}

/// The disassembly of a `jal` instruction: the absolute target.
pub open spec fn spec_render_jal(addr: u32, insn: u32) -> Seq<char> {
    spec_mnemonic("jal"@) + spec_reg(spec_rd(insn)) + seq![','] + hex_seq_0x(
        wadd(addr, spec_imm_j(insn)) as int,
        8,
    )
}

/// Renders a `jal` instruction at address `addr`.
pub fn render_jal(addr: u32, insn: u32) -> (r: String)
    ensures
        r@ == spec_render_jal(addr, insn),
{
    let mut r = render_mnemonic("jal");
    r.append(render_reg(get_rd(insn)).as_str());
    r.append(",");
    r.append(to_hex0x32(addr.wrapping_add(get_imm_j(insn))).as_str());
    proof {
        reveal_strlit(",");
        assert(r@ =~= spec_render_jal(addr, insn));
    }
    r
}

/// The disassembly of a `jalr` instruction: base plus displacement.
pub open spec fn spec_render_jalr(insn: u32) -> Seq<char> {
    spec_mnemonic("jalr"@) + spec_reg(spec_rd(insn)) + seq![','] + spec_base_disp(
        spec_imm_i(insn),
        spec_rs1(insn),
    )
}

/// Renders a `jalr` instruction.
pub fn render_jalr(insn: u32) -> (r: String)
    ensures
        r@ == spec_render_jalr(insn),
{
    let mut r = render_mnemonic("jalr");
    r.append(render_reg(get_rd(insn)).as_str());
    r.append(",");
    r.append(render_base_disp(get_imm_i(insn), get_rs1(insn)).as_str());
    proof {
        reveal_strlit(",");
        assert(r@ =~= spec_render_jalr(insn));
    }
    r
}

/// The disassembly of a branch: both registers, then the absolute target.
pub open spec fn spec_render_btype(addr: u32, insn: u32, m: Seq<char>) -> Seq<char> {
    spec_mnemonic(m) + spec_reg(spec_rs1(insn)) + seq![','] + spec_reg(spec_rs2(insn)) + seq![',']
        + hex_seq_0x(wadd(addr, spec_imm_b(insn)) as int, 8)
}

/// Renders a branch instruction at address `addr`.
pub fn render_btype(addr: u32, insn: u32, mnemonic: &str) -> (r: String)
    ensures
        r@ == spec_render_btype(addr, insn, mnemonic@),
{
    let mut r = render_mnemonic(mnemonic);
    r.append(render_reg(get_rs1(insn)).as_str());
    r.append(",");
    r.append(render_reg(get_rs2(insn)).as_str());
    r.append(",");
    r.append(to_hex0x32(addr.wrapping_add(get_imm_b(insn))).as_str());
    proof {
        reveal_strlit(",");
        assert(r@ =~= spec_render_btype(addr, insn, mnemonic@));
    }
    r
}

/// The disassembly of a load: destination, then base plus displacement.
pub open spec fn spec_render_itype_load(insn: u32, m: Seq<char>) -> Seq<char> {
    spec_mnemonic(m) + spec_reg(spec_rd(insn)) + seq![','] + spec_base_disp(
        spec_imm_i(insn),
        spec_rs1(insn),
    )
}

/// Renders a load instruction.
pub fn render_itype_load(insn: u32, mnemonic: &str) -> (r: String)
    ensures
        r@ == spec_render_itype_load(insn, mnemonic@),
{
    let mut r = render_mnemonic(mnemonic);
    r.append(render_reg(get_rd(insn)).as_str());
    r.append(",");
    r.append(render_base_disp(get_imm_i(insn), get_rs1(insn)).as_str());
    proof {
        reveal_strlit(",");
        assert(r@ =~= spec_render_itype_load(insn, mnemonic@));
    }
    r
}

/// The disassembly of a store: source, then base plus displacement.
pub open spec fn spec_render_stype(insn: u32, m: Seq<char>) -> Seq<char> {
    spec_mnemonic(m) + spec_reg(spec_rs2(insn)) + seq![','] + spec_base_disp(
        spec_imm_s(insn),
        spec_rs1(insn),
    )
}

/// Renders a store instruction.
pub fn render_stype(insn: u32, mnemonic: &str) -> (r: String)
    ensures
        r@ == spec_render_stype(insn, mnemonic@),
{
    let mut r = render_mnemonic(mnemonic);
    r.append(render_reg(get_rs2(insn)).as_str());
    r.append(",");
    r.append(render_base_disp(get_imm_s(insn), get_rs1(insn)).as_str());
    proof {
        reveal_strlit(",");
        assert(r@ =~= spec_render_stype(insn, mnemonic@));
    }
    r
}

/// The disassembly of a register-immediate operation: the 12-bit immediate
/// field, or the shift amount, in hexadecimal.
pub open spec fn spec_render_itype_alu(insn: u32, m: Seq<char>, imm: u32) -> Seq<char> {
    spec_mnemonic(m) + spec_reg(spec_rd(insn)) + seq![','] + spec_reg(spec_rs1(insn)) + seq![',']
        + hex_seq_0x((imm % 0x1000) as int, 3)
}

/// Renders a register-immediate operation with the immediate to display.
pub fn render_itype_alu(insn: u32, mnemonic: &str, imm_i: u32) -> (r: String)
    ensures
        r@ == spec_render_itype_alu(insn, mnemonic@, imm_i),
{
    let mut r = render_mnemonic(mnemonic);
    r.append(render_reg(get_rd(insn)).as_str());
    r.append(",");
    r.append(render_reg(get_rs1(insn)).as_str());
    r.append(",");
    r.append(to_hex0x12(imm_i).as_str());
    proof {
        reveal_strlit(",");
        assert(r@ =~= spec_render_itype_alu(insn, mnemonic@, imm_i));
    }
    r
}

/// The disassembly of a register-register operation.
pub open spec fn spec_render_rtype(insn: u32, m: Seq<char>) -> Seq<char> {
    spec_mnemonic(m) + spec_reg(spec_rd(insn)) + seq![','] + spec_reg(spec_rs1(insn)) + seq![',']
        + spec_reg(spec_rs2(insn))
}

/// Renders a register-register operation.
pub fn render_rtype(insn: u32, mnemonic: &str) -> (r: String)
    ensures
        r@ == spec_render_rtype(insn, mnemonic@),
{
    let mut r = render_mnemonic(mnemonic);
    r.append(render_reg(get_rd(insn)).as_str());
    r.append(",");
    r.append(render_reg(get_rs1(insn)).as_str());
    r.append(",");
    r.append(render_reg(get_rs2(insn)).as_str());
    proof {
        reveal_strlit(",");
        assert(r@ =~= spec_render_rtype(insn, mnemonic@));
    }
    r
}

/// Renders an `ecall` instruction.
#[allow(unused_variables)]
pub fn render_ecall(insn: u32) -> (r: String)
    ensures
        r@ == "ecall"@,
{
    String::from_str("ecall")
}

/// Renders an `ebreak` instruction.
#[allow(unused_variables)]
pub fn render_ebreak(insn: u32) -> (r: String)
    ensures
        r@ == "ebreak"@,
{
    String::from_str("ebreak")
}

/// The disassembly of a register-operand CSR operation: destination, CSR
/// address, source register.
pub open spec fn spec_render_csrrx(insn: u32, m: Seq<char>) -> Seq<char> {
    spec_mnemonic(m) + spec_reg(spec_rd(insn)) + seq![','] + hex_seq_0x(
        (((insn >> 20) & 0xfff) % 0x1000) as int,
        3,
    ) + seq![','] + spec_reg(spec_rs1(insn))
}

/// Renders a register-operand CSR operation.
pub fn render_csrrx(insn: u32, mnemonic: &str) -> (r: String)
    ensures
        r@ == spec_render_csrrx(insn, mnemonic@),
{
    let mut r = render_mnemonic(mnemonic);
    r.append(render_reg(get_rd(insn)).as_str());
    r.append(",");
    r.append(to_hex0x12((insn >> 20) & 0xfff).as_str());
    r.append(",");
    r.append(render_reg(get_rs1(insn)).as_str());
    proof {
        reveal_strlit(",");
        assert(r@ =~= spec_render_csrrx(insn, mnemonic@));
    }
    r
}

/// The disassembly of an immediate-operand CSR operation: destination, CSR
/// address, five-bit immediate in decimal.
pub open spec fn spec_render_csrrxi(insn: u32, m: Seq<char>) -> Seq<char> {
    spec_mnemonic(m) + spec_reg(spec_rd(insn)) + seq![','] + hex_seq_0x(
        (((insn >> 20) & 0xfff) % 0x1000) as int,
        3,
    ) + seq![','] + dec2(spec_rs1(insn) as int)
}

/// Renders an immediate-operand CSR operation.
pub fn render_csrrxi(insn: u32, mnemonic: &str) -> (r: String)
    ensures
        r@ == spec_render_csrrxi(insn, mnemonic@),
{
    let mut r = render_mnemonic(mnemonic);
    r.append(render_reg(get_rd(insn)).as_str());
    r.append(",");
    r.append(to_hex0x12((insn >> 20) & 0xfff).as_str());
    r.append(",");
    r.append(dec2_str(get_rs1(insn)).as_str());
    proof {
        reveal_strlit(",");
        assert(r@ =~= spec_render_csrrxi(insn, mnemonic@));
    }
    r
}

/// The disassembly of the word `insn` at address `addr`, by the format and
/// operation that `spec_decode` assigns to it.
pub open spec fn spec_render_insn(addr: u32, insn: u32) -> Seq<char> {
    match spec_decode(insn) {
        DecodedInstruction::Lui { .. } => spec_render_lui(insn),
        DecodedInstruction::Auipc { .. } => spec_render_auipc(insn),
        DecodedInstruction::Jal { .. } => spec_render_jal(addr, insn),
        DecodedInstruction::Jalr { .. } => spec_render_jalr(insn),
        DecodedInstruction::BType { op, .. } => spec_render_btype(
            addr,
            insn,
            match op {
                BranchOp::Beq => "beq"@,
                BranchOp::Bne => "bne"@,
                BranchOp::Blt => "blt"@,
                BranchOp::Bge => "bge"@,
                BranchOp::Bltu => "bltu"@,
                BranchOp::Bgeu => "bgeu"@,
            },
        ),
        DecodedInstruction::Load { op, .. } => spec_render_itype_load(
            insn,
            match op {
                LoadOp::Lb => "lb"@,
                LoadOp::Lh => "lh"@,
                LoadOp::Lw => "lw"@,
                LoadOp::Lbu => "lbu"@,
                LoadOp::Lhu => "lhu"@,
            },
        ),
        DecodedInstruction::SType { op, .. } => spec_render_stype(
            insn,
            match op {
                StoreOp::Sb => "sb"@,
                StoreOp::Sh => "sh"@,
                StoreOp::Sw => "sw"@,
            },
        ),
        DecodedInstruction::IAlu { op, imm_i, .. } => spec_render_itype_alu(
            insn,
            match op {
                IAluOp::Addi => "addi"@,
                IAluOp::Slti => "slti"@,
                IAluOp::Sltiu => "sltiu"@,
                IAluOp::Xori => "xori"@,
                IAluOp::Ori => "ori"@,
                IAluOp::Andi => "andi"@,
                IAluOp::Slli => "slli"@,
                IAluOp::Srli => "srli"@,
                IAluOp::Srai => "srai"@,
            },
            imm_i,
        ),
        DecodedInstruction::RType { op, .. } => spec_render_rtype(
            insn,
            match op {
                RAluOp::Add => "add"@,
                RAluOp::Sub => "sub"@,
                RAluOp::Sll => "sll"@,
                RAluOp::Slt => "slt"@,
                RAluOp::Sltu => "sltu"@,
                RAluOp::Xor => "xor"@,
                RAluOp::Srl => "srl"@,
                RAluOp::Sra => "sra"@,
                RAluOp::Or => "or"@,
                RAluOp::And => "and"@,
            },
        ),
        DecodedInstruction::Ecall => "ecall"@,
        DecodedInstruction::Ebreak => "ebreak"@,
        DecodedInstruction::Csr { op, .. } => match op {
            CsrOp::Csrrw => spec_render_csrrx(insn, "csrrw"@),
            CsrOp::Csrrs => spec_render_csrrx(insn, "csrrs"@),
            CsrOp::Csrrc => spec_render_csrrx(insn, "csrrc"@),
            CsrOp::Csrrwi => spec_render_csrrxi(insn, "csrrwi"@),
            CsrOp::Csrrsi => spec_render_csrrxi(insn, "csrrsi"@),
            CsrOp::Csrrci => spec_render_csrrxi(insn, "csrrci"@),
        },
        DecodedInstruction::Illegal { .. } => spec_render_illegal(),
    }
}

/// Renders the disassembly of the word `insn` at address `addr`, dispatching
/// on its decoding.
pub fn render_insn(addr: u32, insn: u32) -> (r: String)
    ensures
        r@ == spec_render_insn(addr, insn),
{
    match decode(insn) {
        DecodedInstruction::Lui { .. } => render_lui(insn),
        DecodedInstruction::Auipc { .. } => render_auipc(insn),
        DecodedInstruction::Jal { .. } => render_jal(addr, insn),
        DecodedInstruction::Jalr { .. } => render_jalr(insn),
        DecodedInstruction::BType { op, .. } => render_btype(
            addr,
            insn,
            match op {
                BranchOp::Beq => "beq",
                BranchOp::Bne => "bne",
                BranchOp::Blt => "blt",
                BranchOp::Bge => "bge",
                BranchOp::Bltu => "bltu",
                BranchOp::Bgeu => "bgeu",
            },
        ),
        DecodedInstruction::Load { op, .. } => render_itype_load(
            insn,
            match op {
                LoadOp::Lb => "lb",
                LoadOp::Lh => "lh",
                LoadOp::Lw => "lw",
                LoadOp::Lbu => "lbu",
                LoadOp::Lhu => "lhu",
            },
        ),
        DecodedInstruction::SType { op, .. } => render_stype(
            insn,
            match op {
                StoreOp::Sb => "sb",
                StoreOp::Sh => "sh",
                StoreOp::Sw => "sw",
            },
        ),
        DecodedInstruction::IAlu { op, imm_i, .. } => render_itype_alu(
            insn,
            match op {
                IAluOp::Addi => "addi",
                IAluOp::Slti => "slti",
                IAluOp::Sltiu => "sltiu",
                IAluOp::Xori => "xori",
                IAluOp::Ori => "ori",
                IAluOp::Andi => "andi",
                IAluOp::Slli => "slli",
                IAluOp::Srli => "srli",
                IAluOp::Srai => "srai",
            },
            imm_i,
        ),
        DecodedInstruction::RType { op, .. } => render_rtype(
            insn,
            match op {
                RAluOp::Add => "add",
                RAluOp::Sub => "sub",
                RAluOp::Sll => "sll",
                RAluOp::Slt => "slt",
                RAluOp::Sltu => "sltu",
                RAluOp::Xor => "xor",
                RAluOp::Srl => "srl",
                RAluOp::Sra => "sra",
                RAluOp::Or => "or",
                RAluOp::And => "and",
            },
        ),
        DecodedInstruction::Ecall => render_ecall(insn),
        DecodedInstruction::Ebreak => render_ebreak(insn),
        DecodedInstruction::Csr { op, .. } => match op {
            CsrOp::Csrrw => render_csrrx(insn, "csrrw"),
            CsrOp::Csrrs => render_csrrx(insn, "csrrs"),
            CsrOp::Csrrc => render_csrrx(insn, "csrrc"),
            CsrOp::Csrrwi => render_csrrxi(insn, "csrrwi"),
            CsrOp::Csrrsi => render_csrrxi(insn, "csrrsi"),
            CsrOp::Csrrci => render_csrrxi(insn, "csrrci"),
        },
        DecodedInstruction::Illegal { .. } => render_illegal_insn(insn),
    }
}

/// One disassembly line per word of memory: the address as eight hexadecimal
/// digits, a separator, then the rendered instruction.
pub open spec fn spec_disasm_line(mem: Seq<u8>, addr: u32) -> Seq<char> {
    hex_seq(addr as int, 8) + seq![':', ' '] + spec_render_insn(addr, spec_get32(mem, addr as int))
}

/// Renders every aligned word of memory as one disassembly line.
pub fn disassemble(mem: &Memory) -> (r: Vec<String>)
    ensures
        4 * r@.len() == mem@.len(),
        forall|i: int|
            0 <= i < r@.len() ==> r@[i]@ == spec_disasm_line(mem@, (4 * i) as u32),
{
    let size = mem.get_size();
    let mut lines: Vec<String> = Vec::new();
    let mut addr: u32 = 0;
    while addr < size
        invariant
            size as int == mem@.len(),
            size % 16 == 0,
            addr % 4 == 0,
            addr <= size,
            addr as int == 4 * lines@.len(),
            forall|i: int|
                0 <= i < lines@.len() ==> lines@[i]@ == spec_disasm_line(mem@, (4 * i) as u32),
        decreases size - addr,
    {
        let word = mem.get32(addr);
        let mut line = to_hex32(addr);
        line.append(": ");
        line.append(render_insn(addr, word).as_str());
        proof {
            reveal_strlit(": ");
            assert(line@ =~= spec_disasm_line(mem@, addr));
        }
        lines.push(line);
        addr = addr + 4;
    }
    lines
}

} // verus!
