use rv32sim::machine::{HaltReason, MachineState, Status, TrapReason};
use rv32sim::memory::Memory;
use rv32sim::sim::{loop_iter, run, step};

fn machine_with_image(size: u32, image: &[u8], entry: u32) -> MachineState {
    let mut mem = Memory::new(size);
    let image: Vec<u8> = image.to_vec();
    assert!(mem.load_image(&image));
    MachineState::new(mem, entry)
}

#[test]
fn loaded_image_fetches_exact_word() {
    // A 4-byte image in a 0x100-byte memory reproduces the word at pc = 0.
    let m = machine_with_image(0x100, &[0x93, 0x00, 0x10, 0x00], 0);
    assert_eq!(m.mem.get32(0), 0x00100093);
}

#[test]
fn step_executes_addi() {
    // addi x1, x0, 1 at address 0.
    let mut m = machine_with_image(0x100, &[0x93, 0x00, 0x10, 0x00], 0);
    step(&mut m);
    assert_eq!(m.regs.get(1), 1);
    assert_eq!(m.pc, 4);
    assert_eq!(m.status, Status::Running);
    assert_eq!(m.retired, 1);
}

#[test]
fn step_traps_on_illegal_word() {
    // An all-ones word decodes to an illegal instruction and traps, recording
    // the program counter and the word.
    let mut m = machine_with_image(0x100, &[0xff, 0xff, 0xff, 0xff], 0);
    step(&mut m);
    assert_eq!(
        m.status,
        Status::Trapped { reason: TrapReason::IllegalInstruction { pc: 0, word: 0xffffffff } }
    );
}

#[test]
fn run_stops_trapped_on_illegal_word() {
    let mut m = machine_with_image(0x100, &[0xff, 0xff, 0xff, 0xff], 0);
    run(&mut m, 1000);
    assert!(!m.is_running());
    assert_eq!(
        m.status,
        Status::Trapped { reason: TrapReason::IllegalInstruction { pc: 0, word: 0xffffffff } }
    );
    assert_eq!(m.retired, 1);
}

#[test]
fn step_traps_on_misaligned_fetch() {
    let mut m = machine_with_image(0x100, &[0x93, 0x00, 0x10, 0x00], 2);
    step(&mut m);
    assert_eq!(m.status, Status::Trapped { reason: TrapReason::MisalignedFetch { pc: 2 } });
    // No instruction retired on a fetch trap.
    assert_eq!(m.retired, 0);
}

#[test]
fn step_traps_on_fetch_out_of_bounds() {
    let mut m = machine_with_image(0x10, &[0x93, 0x00, 0x10, 0x00], 0x10);
    step(&mut m);
    assert_eq!(m.status, Status::Trapped { reason: TrapReason::FetchOutOfBounds { pc: 0x10 } });
    // Alignment is checked before bounds: a misaligned counter near the end
    // of memory reports a misaligned fetch.
    let mut m = machine_with_image(0x10, &[0x93, 0x00, 0x10, 0x00], 0xe);
    step(&mut m);
    assert_eq!(m.status, Status::Trapped { reason: TrapReason::MisalignedFetch { pc: 0xe } });
}

#[test]
fn run_halts_on_ecall() {
    // addi x1, x0, 1; ecall.
    let image = [0x93u8, 0x00, 0x10, 0x00, 0x73, 0x00, 0x00, 0x00];
    let mut m = machine_with_image(0x100, &image, 0);
    run(&mut m, 1000);
    assert_eq!(m.status, Status::Halted { reason: HaltReason::Ecall });
    assert_eq!(m.regs.get(1), 1);
    assert_eq!(m.retired, 2);
    assert_eq!(m.pc, 4);
}

#[test]
fn run_halts_on_ebreak() {
    let image = [0x73u8, 0x00, 0x10, 0x00];
    let mut m = machine_with_image(0x100, &image, 0);
    run(&mut m, 1000);
    assert_eq!(m.status, Status::Halted { reason: HaltReason::Ebreak });
    assert_eq!(m.retired, 1);
}

#[test]
fn run_stops_at_execution_limit() {
    // beq x0, x0, 0 branches to itself forever; the limit stops the run.
    let image = [0x63u8, 0x00, 0x00, 0x00];
    let mut m = machine_with_image(0x100, &image, 0);
    run(&mut m, 5);
    assert_eq!(m.status, Status::Halted { reason: HaltReason::LimitReached });
    assert_eq!(m.retired, 5);
    assert_eq!(m.pc, 0);
}

#[test]
fn run_leaves_terminal_state_unchanged() {
    let mut m = machine_with_image(0x100, &[0xff, 0xff, 0xff, 0xff], 0);
    run(&mut m, 10);
    let status = m.status;
    let retired = m.retired;
    run(&mut m, 10);
    assert_eq!(m.status, status);
    assert_eq!(m.retired, retired);
}

#[test]
fn oversized_image_leaves_run_unstarted() {
    // An image larger than memory is rejected before any simulation begins.
    let mut mem = Memory::new(0x100);
    let image = vec![0u8; 0x104];
    assert!(!mem.load_image(&image));
    // The caller treats the machine as not runnable; nothing was loaded.
    for a in 0..0x100u32 {
        assert_eq!(mem.get8(a), 0xa5);
    }
}

#[test]
fn run_through_a_small_program() {
    // addi x1, x0, 1; addi x2, x0, 2; add x3, x1, x2; ebreak.
    let words: [u32; 4] = [0x00100093, 0x00200113, 0x002081b3, 0x00100073];
    let mut image: Vec<u8> = Vec::new();
    for w in words {
        image.extend_from_slice(&w.to_le_bytes());
    }
    let mut m = machine_with_image(0x100, &image, 0);
    run(&mut m, 1000);
    assert_eq!(m.status, Status::Halted { reason: HaltReason::Ebreak });
    assert_eq!(m.regs.get(1), 1);
    assert_eq!(m.regs.get(2), 2);
    assert_eq!(m.regs.get(3), 3);
    assert_eq!(m.retired, 4);
    assert_eq!(m.pc, 12);
}

#[test]
fn loop_iter_steps_and_enforces_the_limit() {
    // beq x0, x0, 0 branches to itself forever.
    let mut m = machine_with_image(0x100, &[0x63, 0x00, 0x00, 0x00], 0);
    loop_iter(&mut m, 2);
    assert!(m.is_running());
    assert_eq!(m.retired, 1);
    loop_iter(&mut m, 2);
    assert_eq!(m.status, Status::Halted { reason: HaltReason::LimitReached });
    assert_eq!(m.retired, 2);
    // A terminal machine is a fixed point of the loop iteration.
    loop_iter(&mut m, 2);
    assert_eq!(m.status, Status::Halted { reason: HaltReason::LimitReached });
    assert_eq!(m.retired, 2);
}

#[test]
fn run_counts_out_of_range_accesses() {
    // sw x0, -1(x0) stores out of range (address 0xffffffff); then ebreak.
    let mut image: Vec<u8> = Vec::new();
    for w in [0xfe002fa3u32, 0x00100073] {
        image.extend_from_slice(&w.to_le_bytes());
    }
    let mut m = machine_with_image(0x100, &image, 0);
    run(&mut m, 100);
    assert_eq!(m.status, Status::Halted { reason: HaltReason::Ebreak });
    assert_eq!(m.oob_accesses, 1);
}
