use rv32sim::exec::execute;
use rv32sim::machine::{ControlEffect, HaltReason, MachineState, Status, TrapReason};
use rv32sim::memory::Memory;
use rv32sim::rv32i_decode::decode;

fn fresh_machine(entry: u32) -> MachineState {
    let mut m = MachineState::new(Memory::new(0x100), entry);
    // Give the registers known values instead of the reset poison pattern.
    for r in 1..32u32 {
        m.regs.set(r, 0);
    }
    m
}

#[test]
fn execute_addi_writes_rd_and_continues() {
    // addi x1, x0, 1 executed from pc = 0.
    let mut m = fresh_machine(0);
    let e = execute(&decode(0x00100093), &mut m);
    assert_eq!(m.regs.get(1), 1);
    assert_eq!(e, ControlEffect::Continue { next_pc: 4 });
}

#[test]
fn execute_beq_taken_with_zero_offset() {
    // beq x0, x0, 0 executed from pc = 100 branches to 100.
    let mut m = fresh_machine(100);
    let e = execute(&decode(0x00000063), &mut m);
    assert_eq!(e, ControlEffect::Continue { next_pc: 100 });
}

#[test]
fn execute_branch_not_taken_falls_through() {
    // bne x0, x0, 8 from pc = 100 falls through to 104.
    let mut m = fresh_machine(100);
    let e = execute(&decode(0x00001463), &mut m);
    assert_eq!(e, ControlEffect::Continue { next_pc: 104 });
}

#[test]
fn execute_signed_and_unsigned_compare() {
    let mut m = fresh_machine(0);
    m.regs.set(2, 0xffffffff); // -1 signed, biggest unsigned
    m.regs.set(3, 1);
    // slt x1, x2, x3: -1 < 1 signed.
    execute(&decode(0x003120b3), &mut m);
    assert_eq!(m.regs.get(1), 1);
    // sltu x1, x2, x3: 0xffffffff < 1 is false unsigned.
    execute(&decode(0x003130b3), &mut m);
    assert_eq!(m.regs.get(1), 0);
}

#[test]
fn execute_add_sub_wraparound() {
    let mut m = fresh_machine(0);
    m.regs.set(2, 0xffffffff);
    m.regs.set(3, 2);
    // add x1, x2, x3 wraps.
    execute(&decode(0x003100b3), &mut m);
    assert_eq!(m.regs.get(1), 1);
    // sub x1, x3, x2: 2 - (-1) = 3.
    execute(&decode(0x402180b3), &mut m);
    assert_eq!(m.regs.get(1), 3);
}

#[test]
fn execute_shifts() {
    let mut m = fresh_machine(0);
    m.regs.set(2, 0x80000001);
    // srli x1, x2, 1: logical.
    execute(&decode(0x00115093), &mut m);
    assert_eq!(m.regs.get(1), 0x40000000);
    // srai x1, x2, 1: arithmetic.
    execute(&decode(0x40115093), &mut m);
    assert_eq!(m.regs.get(1), 0xc0000000);
    // slli x1, x2, 4.
    execute(&decode(0x00411093), &mut m);
    assert_eq!(m.regs.get(1), 0x00000010);
    // sll x1, x2, x3 uses only the low five bits of x3.
    m.regs.set(3, 33);
    execute(&decode(0x003110b3), &mut m);
    assert_eq!(m.regs.get(1), 0x00000002);
}

#[test]
fn execute_lui_auipc() {
    let mut m = fresh_machine(0x10);
    // lui x1, 0x12345.
    execute(&decode(0x123450b7), &mut m);
    assert_eq!(m.regs.get(1), 0x12345000);
    // auipc x2, 0x1: pc + 0x1000.
    execute(&decode(0x00001117), &mut m);
    assert_eq!(m.regs.get(2), 0x1010);
}

#[test]
fn execute_jal_links_and_jumps() {
    let mut m = fresh_machine(8);
    // jal x1, 8 from pc = 8.
    let e = execute(&decode(0x008000ef), &mut m);
    assert_eq!(m.regs.get(1), 12);
    assert_eq!(e, ControlEffect::Continue { next_pc: 16 });
}

#[test]
fn execute_jalr_clears_bit_zero() {
    let mut m = fresh_machine(8);
    m.regs.set(2, 101);
    // jalr x1, 4(x2): target (101 + 4) & !1 = 104.
    let e = execute(&decode(0x004100e7), &mut m);
    assert_eq!(m.regs.get(1), 12);
    assert_eq!(e, ControlEffect::Continue { next_pc: 104 });
}

#[test]
fn execute_loads_little_endian_and_sign_extended() {
    let mut m = fresh_machine(0);
    m.mem.set32(0x20, 0x80ff7f01);
    m.regs.set(2, 0x20);
    // lb x1, 0(x2): 0x01.
    execute(&decode(0x00010083), &mut m);
    assert_eq!(m.regs.get(1), 1);
    // lb x1, 3(x2): 0x80 sign-extends.
    execute(&decode(0x00310083), &mut m);
    assert_eq!(m.regs.get(1), 0xffffff80);
    // lbu x1, 3(x2): zero-extends.
    execute(&decode(0x00314083), &mut m);
    assert_eq!(m.regs.get(1), 0x80);
    // lh x1, 2(x2): 0x80ff sign-extends.
    execute(&decode(0x00211083), &mut m);
    assert_eq!(m.regs.get(1), 0xffff80ff);
    // lhu x1, 0(x2): 0x7f01.
    execute(&decode(0x00015083), &mut m);
    assert_eq!(m.regs.get(1), 0x7f01);
    // lw x1, 0(x2).
    execute(&decode(0x00012083), &mut m);
    assert_eq!(m.regs.get(1), 0x80ff7f01);
}

#[test]
fn execute_stores_write_low_bytes() {
    let mut m = fresh_machine(0);
    m.regs.set(2, 0x40);
    m.regs.set(3, 0x11223344);
    // sb x3, 0(x2).
    execute(&decode(0x00310023), &mut m);
    assert_eq!(m.mem.get8(0x40), 0x44);
    // sh x3, 4(x2).
    execute(&decode(0x00311223), &mut m);
    assert_eq!(m.mem.get16(0x44), 0x3344);
    // sw x3, 8(x2).
    execute(&decode(0x00312423), &mut m);
    assert_eq!(m.mem.get32(0x48), 0x11223344);
}

#[test]
fn execute_ecall_ebreak_halt() {
    let mut m = fresh_machine(0);
    let e = execute(&decode(0x00000073), &mut m);
    assert_eq!(e, ControlEffect::Halt { reason: HaltReason::Ecall });
    let e = execute(&decode(0x00100073), &mut m);
    assert_eq!(e, ControlEffect::Halt { reason: HaltReason::Ebreak });
    // The executor itself leaves the status to the loop.
    assert_eq!(m.status, Status::Running);
}

#[test]
fn execute_csr_is_a_nonfatal_no_op() {
    let mut m = fresh_machine(0);
    m.regs.set(2, 7);
    // csrrw x1, 0x305, x2.
    let e = execute(&decode(0x305110f3), &mut m);
    assert_eq!(e, ControlEffect::Continue { next_pc: 4 });
    assert_eq!(m.regs.get(2), 7);
}

#[test]
fn execute_illegal_traps_with_pc_and_word() {
    let mut m = fresh_machine(0x24);
    let e = execute(&decode(0xffffffff), &mut m);
    assert_eq!(
        e,
        ControlEffect::Trap {
            reason: TrapReason::IllegalInstruction { pc: 0x24, word: 0xffffffff },
        }
    );
}

#[test]
fn execute_never_writes_register_zero() {
    let mut m = fresh_machine(0);
    // addi x0, x0, 1 leaves x0 at 0.
    execute(&decode(0x00100013), &mut m);
    assert_eq!(m.regs.get(0), 0);
    // jal x0, 8 discards the link.
    execute(&decode(0x0080006f), &mut m);
    assert_eq!(m.regs.get(0), 0);
}

#[test]
fn execute_logic_immediates() {
    let mut m = fresh_machine(0);
    m.regs.set(2, 0b1100);
    // xori x1, x2, 0b1010.
    execute(&decode(0x00a14093), &mut m);
    assert_eq!(m.regs.get(1), 0b0110);
    // ori x1, x2, 0b1010.
    execute(&decode(0x00a16093), &mut m);
    assert_eq!(m.regs.get(1), 0b1110);
    // andi x1, x2, 0b1010.
    execute(&decode(0x00a17093), &mut m);
    assert_eq!(m.regs.get(1), 0b1000);
    // slti x1, x2, -1: 12 < -1 is false.
    execute(&decode(0xfff12093), &mut m);
    assert_eq!(m.regs.get(1), 0);
    // sltiu x1, x2, -1: the immediate compares as 0xffffffff unsigned.
    execute(&decode(0xfff13093), &mut m);
    assert_eq!(m.regs.get(1), 1);
}

#[test]
fn execute_remaining_branches() {
    let mut m = fresh_machine(100);
    m.regs.set(1, 0xffffffff); // -1 signed
    m.regs.set(2, 1);
    // blt x1, x2, 8: -1 < 1 signed, taken.
    let e = execute(&decode(0x0020c463), &mut m);
    assert_eq!(e, ControlEffect::Continue { next_pc: 108 });
    // bge x2, x1, 8: 1 >= -1 signed, taken.
    let e = execute(&decode(0x00115463), &mut m);
    assert_eq!(e, ControlEffect::Continue { next_pc: 108 });
    // bltu x1, x2, 8: 0xffffffff < 1 unsigned is false, not taken.
    let e = execute(&decode(0x0020e463), &mut m);
    assert_eq!(e, ControlEffect::Continue { next_pc: 104 });
    // bgeu x1, x2, 8: taken.
    let e = execute(&decode(0x0020f463), &mut m);
    assert_eq!(e, ControlEffect::Continue { next_pc: 108 });
}

#[test]
fn out_of_range_data_accesses_are_counted_and_tolerated() {
    let mut m = fresh_machine(0);
    assert_eq!(m.oob_accesses, 0);
    // lw x1, 0(x2) with x2 beyond the 0x100-byte capacity reads 0, counts one
    // event and continues.
    m.regs.set(2, 0x200);
    let e = execute(&decode(0x00012083), &mut m);
    assert_eq!(m.regs.get(1), 0);
    assert_eq!(e, ControlEffect::Continue { next_pc: 4 });
    assert_eq!(m.oob_accesses, 1);
    // sw x3, 0(x2) out of range is discarded and counted.
    m.regs.set(3, 0x11223344);
    execute(&decode(0x00312023), &mut m);
    assert_eq!(m.oob_accesses, 2);
    // A word access whose last byte crosses the capacity counts too.
    m.regs.set(2, 0xfd);
    execute(&decode(0x00012083), &mut m);
    assert_eq!(m.oob_accesses, 3);
    // An in-range access is not counted.
    m.regs.set(2, 0x40);
    execute(&decode(0x00012083), &mut m);
    assert_eq!(m.oob_accesses, 3);
}
