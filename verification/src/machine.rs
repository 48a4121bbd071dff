//! The mutable simulation context: register file, memory, program counter,
//! loop status and retired-instruction counter, together with the effect and
//! status types that the executor and the simulation loop exchange.

use crate::memory::Memory;
use crate::register::{spec_reset_regs, RegisterFile};
use vstd::prelude::*;

verus! {

/// Why a run ended in the `Halted` state.
#[derive(Clone, Copy, PartialEq, Eq, Structural, Debug)]
pub enum HaltReason {
    Ecall,
    Ebreak,
    LimitReached,
}

/// Why a run ended in the `Trapped` state; each reason records the program
/// counter it was raised at, and an illegal instruction also records the
/// offending word.
#[derive(Clone, Copy, PartialEq, Eq, Structural, Debug)]
pub enum TrapReason {
    IllegalInstruction { pc: u32, word: u32 },
    MisalignedFetch { pc: u32 },
    FetchOutOfBounds { pc: u32 },
}

/// The control-flow effect of executing one instruction.
#[derive(Clone, Copy, PartialEq, Eq, Structural, Debug)]
pub enum ControlEffect {
    Continue { next_pc: u32 },
    Halt { reason: HaltReason },
    Trap { reason: TrapReason },
}

/// The state machine of the simulation loop. `Halted` and `Trapped` are
/// terminal: no further step changes the machine.
#[derive(Clone, Copy, PartialEq, Eq, Structural, Debug)]
pub enum Status {
    Running,
    Halted { reason: HaltReason },
    Trapped { reason: TrapReason },
}

/// The mathematical view of a machine: register contents, memory contents,
/// program counter, loop status, retired-instruction count, and the count of
/// out-of-range data accesses that were tolerated.
pub ghost struct MachineView {
    pub regs: Seq<u32>,
    pub mem: Seq<u8>,
    pub pc: u32,
    pub status: Status,
    pub retired: u64,
    pub oob_accesses: u64,
}

/// The machine state owned by one simulation run.
pub struct MachineState {
    pub regs: RegisterFile,
    pub mem: Memory,
    pub pc: u32,
    pub status: Status,
    pub retired: u64,
    /// How many executed loads and stores touched an address at or beyond
    /// the memory capacity. Such an access reads 0 or discards the write and
    /// the run continues; the count lets a driver report the events.
    pub oob_accesses: u64,
}

impl View for MachineState {
    type V = MachineView;

    open spec fn view(&self) -> MachineView {
        MachineView {
            regs: self.regs@,
            mem: self.mem@,
            pc: self.pc,
            status: self.status,
            retired: self.retired,
            oob_accesses: self.oob_accesses,
        }
    }
}

impl MachineState {
    /// A fresh machine over the given memory: registers reset, the program
    /// counter at `entry`, running, nothing retired.
    pub fn new(mem: Memory, entry: u32) -> (r: MachineState)
        ensures
            r@.mem == mem@,
            r@.regs == spec_reset_regs(),
            r@.pc == entry,
            r@.status == Status::Running,
            r@.retired == 0,
            r@.oob_accesses == 0,
    {
        MachineState {
            regs: RegisterFile::new(),
            mem,
            pc: entry,
            status: Status::Running,
            retired: 0,
            oob_accesses: 0,
        }
    }

    /// True while the simulation loop may take another step.
    pub fn is_running(&self) -> (r: bool)
        ensures
            r == (self@.status is Running),
    {
        match self.status {
            Status::Running => true,
            _ => false,
        }
    }
}

} // verus!
