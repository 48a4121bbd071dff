use rv32sim::rv32i_decode::{
    decode, get_func3, get_func7, get_imm_b, get_imm_i, get_imm_j, get_imm_s, get_imm_u,
    get_opcode, get_rd, get_rs1, get_rs2, BranchOp, CsrOp, DecodedInstruction, IAluOp, LoadOp,
    RAluOp, StoreOp,
};

#[test]
fn decode_is_total_and_deterministic() {
    let samples = [
        0u32,
        1,
        0x00100093,
        0x00000063,
        0xffffffff,
        0x00000073,
        0x00100073,
        0x40000033,
        0x80000000,
        0x7fffffff,
        0x12345678,
        0xdeadbeef,
    ];
    for w in samples {
        // Total: every word decodes without failing; deterministic: two
        // decodings of the same word agree.
        let a = decode(w);
        let b = decode(w);
        assert_eq!(a, b);
    }
}

#[test]
fn field_extraction() {
    // addi x1, x0, 1
    let w = 0x00100093u32;
    assert_eq!(get_opcode(w), 0b0010011);
    assert_eq!(get_rd(w), 1);
    assert_eq!(get_func3(w), 0);
    assert_eq!(get_rs1(w), 0);
    assert_eq!(get_rs2(w), 1);
    assert_eq!(get_func7(w), 0);
    // add x5, x6, x7
    let w = 0x007302b3u32;
    assert_eq!(get_opcode(w), 0b0110011);
    assert_eq!(get_rd(w), 5);
    assert_eq!(get_rs1(w), 6);
    assert_eq!(get_rs2(w), 7);
}

#[test]
fn imm_i_sign_extension_round_trip() {
    // Bit 31 set: the upper 20 bits of the immediate are all ones.
    let neg = get_imm_i(0xfff00093);
    assert_eq!(neg & 0xfffff000, 0xfffff000);
    assert_eq!(neg, 0xffffffff);
    // Bit 31 clear: the upper 20 bits are all zeros.
    let pos = get_imm_i(0x7ff00093);
    assert_eq!(pos & 0xfffff000, 0);
    assert_eq!(pos, 0x7ff);
}

#[test]
fn imm_u_keeps_upper_bits_in_place() {
    assert_eq!(get_imm_u(0x123450b7), 0x12345000);
    assert_eq!(get_imm_u(0xfffff0b7), 0xfffff000);
}

#[test]
fn imm_b_routing() {
    // beq x0, x0, 0
    assert_eq!(get_imm_b(0x00000063), 0);
    // beq x0, x0, -4: imm[12]=1 imm[11]=1 imm[10:5]=0b111111 imm[4:1]=0b1110
    assert_eq!(get_imm_b(0xfe000ee3), 0xfffffffc_u32);
    // beq x0, x0, 8
    assert_eq!(get_imm_b(0x00000463), 8);
}

#[test]
fn imm_s_routing() {
    // sw x1, 0(x0)
    assert_eq!(get_imm_s(0x00102023), 0);
    // sw x1, -1(x0)
    assert_eq!(get_imm_s(0xfe102fa3), 0xffffffff_u32);
    // sw x1, 16(x0)
    assert_eq!(get_imm_s(0x00102823), 16);
}

#[test]
fn imm_j_routing() {
    // jal x0, 0
    assert_eq!(get_imm_j(0x0000006f), 0);
    // jal x1, 2048: imm[11]=1
    assert_eq!(get_imm_j(0x001000ef), 2048);
    // jal x0, -4
    assert_eq!(get_imm_j(0xffdff06f), 0xfffffffc_u32);
}

#[test]
fn decode_addi_scenario() {
    // addi x1, x0, 1
    let d = decode(0x00100093);
    assert_eq!(d, DecodedInstruction::IAlu { op: IAluOp::Addi, rd: 1, rs1: 0, imm_i: 1 });
}

#[test]
fn decode_beq_scenario() {
    // beq x0, x0, 0
    let d = decode(0x00000063);
    assert_eq!(d, DecodedInstruction::BType { op: BranchOp::Beq, rs1: 0, rs2: 0, imm_b: 0 });
}

#[test]
fn decode_rtype_add_sub_by_funct7() {
    // add x1, x2, x3 / sub x1, x2, x3
    assert_eq!(
        decode(0x003100b3),
        DecodedInstruction::RType { op: RAluOp::Add, rd: 1, rs1: 2, rs2: 3 }
    );
    assert_eq!(
        decode(0x403100b3),
        DecodedInstruction::RType { op: RAluOp::Sub, rd: 1, rs1: 2, rs2: 3 }
    );
    // srl x1, x2, x3 / sra x1, x2, x3
    assert_eq!(
        decode(0x003150b3),
        DecodedInstruction::RType { op: RAluOp::Srl, rd: 1, rs1: 2, rs2: 3 }
    );
    assert_eq!(
        decode(0x403150b3),
        DecodedInstruction::RType { op: RAluOp::Sra, rd: 1, rs1: 2, rs2: 3 }
    );
}

#[test]
fn decode_shift_immediates_carry_shamt() {
    // slli x1, x2, 5 / srli x1, x2, 5 / srai x1, x2, 5
    assert_eq!(
        decode(0x00511093),
        DecodedInstruction::IAlu { op: IAluOp::Slli, rd: 1, rs1: 2, imm_i: 5 }
    );
    assert_eq!(
        decode(0x00515093),
        DecodedInstruction::IAlu { op: IAluOp::Srli, rd: 1, rs1: 2, imm_i: 5 }
    );
    assert_eq!(
        decode(0x40515093),
        DecodedInstruction::IAlu { op: IAluOp::Srai, rd: 1, rs1: 2, imm_i: 5 }
    );
}

#[test]
fn decode_loads_and_stores() {
    // lw x1, 4(x2)
    assert_eq!(
        decode(0x00412083),
        DecodedInstruction::Load { op: LoadOp::Lw, rd: 1, rs1: 2, imm_i: 4 }
    );
    // lbu x1, 0(x2)
    assert_eq!(
        decode(0x00014083),
        DecodedInstruction::Load { op: LoadOp::Lbu, rd: 1, rs1: 2, imm_i: 0 }
    );
    // sb x3, 1(x2)
    assert_eq!(
        decode(0x003100a3),
        DecodedInstruction::SType { op: StoreOp::Sb, rs1: 2, rs2: 3, imm_s: 1 }
    );
}

#[test]
fn decode_lui_auipc_jal_jalr() {
    // lui x1, 0x12345
    assert_eq!(decode(0x123450b7), DecodedInstruction::Lui { rd: 1, imm_u: 0x12345000 });
    // auipc x2, 0x1
    assert_eq!(decode(0x00001117), DecodedInstruction::Auipc { rd: 2, imm_u: 0x1000 });
    // jal x1, 8
    assert_eq!(decode(0x008000ef), DecodedInstruction::Jal { rd: 1, imm_j: 8 });
    // jalr x1, 4(x2)
    assert_eq!(decode(0x004100e7), DecodedInstruction::Jalr { rd: 1, rs1: 2, imm_i: 4 });
}

#[test]
fn decode_system_words() {
    assert_eq!(decode(0x00000073), DecodedInstruction::Ecall);
    assert_eq!(decode(0x00100073), DecodedInstruction::Ebreak);
    // csrrw x1, 0x305, x2
    match decode(0x305110f3) {
        DecodedInstruction::Csr { rd, rs1, csr, .. } => {
            assert_eq!(rd, 1);
            assert_eq!(rs1, 2);
            assert_eq!(csr, 0x305);
        }
        other => panic!("expected a CSR instruction, got {:?}", other),
    }
}

#[test]
fn unrecognized_encodings_decode_to_illegal() {
    // An opcode outside the RV32I set.
    assert_eq!(decode(0xffffffff), DecodedInstruction::Illegal { word: 0xffffffff });
    assert_eq!(decode(0), DecodedInstruction::Illegal { word: 0 });
    // A recognized opcode with an undefined funct3: branch funct3 = 2.
    assert_eq!(decode(0x00002063), DecodedInstruction::Illegal { word: 0x00002063 });
    // A recognized opcode with an undefined funct7: add with funct7 = 1.
    assert_eq!(decode(0x023100b3), DecodedInstruction::Illegal { word: 0x023100b3 });
    // A shift immediate with bad high bits.
    assert_eq!(decode(0x80511093), DecodedInstruction::Illegal { word: 0x80511093 });
    // jalr with funct3 != 0.
    assert_eq!(decode(0x004110e7), DecodedInstruction::Illegal { word: 0x004110e7 });
    // system with funct3 = 0 that is neither ecall nor ebreak.
    assert_eq!(decode(0x00200073), DecodedInstruction::Illegal { word: 0x00200073 });
}

#[test]
fn decode_csr_immediate_forms() {
    // csrrsi x1, 0x305, 5 / csrrci x1, 0x305, 5.
    match decode(0x3052e0f3) {
        DecodedInstruction::Csr { op, rd, rs1, csr } => {
            assert_eq!(op, CsrOp::Csrrsi);
            assert_eq!((rd, rs1, csr), (1, 5, 0x305));
        }
        other => panic!("expected a CSR instruction, got {:?}", other),
    }
    match decode(0x3052f0f3) {
        DecodedInstruction::Csr { op, .. } => assert_eq!(op, CsrOp::Csrrci),
        other => panic!("expected a CSR instruction, got {:?}", other),
    }
}
