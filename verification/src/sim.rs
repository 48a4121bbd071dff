//! The fetch-decode-execute loop.
//!
//! Each step first checks the program counter: it must be a multiple of 4 and
//! its whole word must lie within memory, else the machine traps. Otherwise
//! the word at the program counter is fetched, decoded and executed, the
//! retired-instruction counter advances, and the effect sets the next program
//! counter or a terminal status. `run` repeats steps until the machine is no
//! longer running, halting with `LimitReached` when a nonzero execution limit
//! is met.

use crate::exec::{execute, spec_bump, spec_execute, spec_oob_event};
use crate::machine::{ControlEffect, HaltReason, MachineState, MachineView, Status, TrapReason};
use crate::memory::spec_get32;
use crate::rv32i_decode::{decode, spec_decode, DecodedInstruction};
use vstd::prelude::*;

verus! {

/// The machine after one step: a trap on a misaligned or out-of-bounds
/// program counter; otherwise the fetched word's semantics, one more retired
/// instruction, and the program counter or status the effect dictates.
pub open spec fn spec_step(v: MachineView) -> MachineView {
    if v.pc % 4 != 0 {
        MachineView {
            status: Status::Trapped { reason: TrapReason::MisalignedFetch { pc: v.pc } },
            ..v
        }
    } else if v.pc as int + 3 >= v.mem.len() {
        MachineView {
            status: Status::Trapped { reason: TrapReason::FetchOutOfBounds { pc: v.pc } },
            ..v
        }
    } else {
        let word = spec_get32(v.mem, v.pc as int);
        let (regs2, mem2, eff) = spec_execute(spec_decode(word), v.regs, v.mem, v.pc);
        let retired = if v.retired < u64::MAX {
            (v.retired + 1) as u64
        } else {
            v.retired
        };
        let oob_accesses = spec_bump(v.oob_accesses, spec_oob_event(spec_decode(word), v.regs, v.mem));
        match eff {
            ControlEffect::Continue { next_pc } => MachineView {
                regs: regs2,
                mem: mem2,
                pc: next_pc,
                status: v.status,
                retired,
                oob_accesses,
            },
            ControlEffect::Halt { reason } => MachineView {
                regs: regs2,
                mem: mem2,
                pc: v.pc,
                status: Status::Halted { reason },
                retired,
                oob_accesses,
            },
            ControlEffect::Trap { reason } => MachineView {
                regs: regs2,
                mem: mem2,
                pc: v.pc,
                status: Status::Trapped { reason },
                retired,
                oob_accesses,
            },
        }
    }
}

/// One iteration of the simulation loop: a step, then — when a nonzero limit
/// has been reached by a machine still running — a halt with `LimitReached`.
/// Terminal states are fixed points: a machine that is not running is left
/// unchanged.
pub open spec fn spec_loop_iter(v: MachineView, limit: u64) -> MachineView {
    if !(v.status is Running) {
        v
    } else {
        let v1 = spec_step(v);
        if limit > 0 && v1.retired >= limit && v1.status is Running {
            MachineView { status: Status::Halted { reason: HaltReason::LimitReached }, ..v1 }
        } else {
            v1
        }
    }
}

/// The machine after `n` iterations of the simulation loop.
pub open spec fn spec_run(v: MachineView, limit: u64, n: nat) -> MachineView
    decreases n,
{
    if n == 0 {
        v
    } else {
        spec_loop_iter(spec_run(v, limit, (n - 1) as nat), limit)
    }
}

/// Performs one fetch-decode-execute step on a running machine.
pub fn step(s: &mut MachineState)
    requires
        old(s)@.status is Running,
    ensures
        final(s)@ == spec_step(old(s)@),
{
    if s.pc % 4 != 0 {
        s.status = Status::Trapped { reason: TrapReason::MisalignedFetch { pc: s.pc } };
        return ;
    }
    let size = s.mem.get_size();
    if s.pc as u64 + 3 >= size as u64 {
        s.status = Status::Trapped { reason: TrapReason::FetchOutOfBounds { pc: s.pc } };
        return ;
    }
    let word = s.mem.get32(s.pc);
    let instr = decode(word);
    let eff = execute(&instr, s);
    if s.retired < u64::MAX {
        s.retired = s.retired + 1;
    }
    match eff {
        ControlEffect::Continue { next_pc } => {
            s.pc = next_pc;
        },
        ControlEffect::Halt { reason } => {
            s.status = Status::Halted { reason };
        },
        ControlEffect::Trap { reason } => {
            s.status = Status::Trapped { reason };
        },
    }
}

/// Performs one iteration of the simulation loop: a step on a running
/// machine, then a halt with `LimitReached` when a nonzero limit has been
/// reached by a machine still running. On a machine that is not running it
/// does nothing. A driver that traces execution calls this between its reads
/// and prints, so the limit decision stays in the library.
pub fn loop_iter(s: &mut MachineState, limit: u64)
    ensures
        final(s)@ == spec_loop_iter(old(s)@, limit),
{
    if s.is_running() {
        step(s);
        if limit > 0 && s.retired >= limit && s.is_running() {
            s.status = Status::Halted { reason: HaltReason::LimitReached };
        }
    }
}

/// Runs the simulation loop until the machine halts or traps: some number of
/// loop iterations was taken and the machine is no longer running. The
/// retired counter starts below the limit — a fresh machine starts at 0 —
/// which bounds the run and makes its termination provable; a caller that
/// wants no effective limit passes `u64::MAX`.
pub fn run(s: &mut MachineState, limit: u64)
    requires
        old(s)@.retired < limit,
    ensures
        !(final(s)@.status is Running),
        exists|n: nat| final(s)@ == spec_run(old(s)@, limit, n),
{
    let ghost init = s@;
    let ghost mut n: nat = 0;
    while s.is_running()
        invariant
            s@ == spec_run(init, limit, n),
            s@.status is Running ==> s@.retired < limit,
        decreases (if s@.status is Running {
            1int
        } else {
            0int
        }), limit - s@.retired,
    {
        loop_iter(s, limit);
        proof {
            n = n + 1;
        }
    }
    proof {
        assert(s@ == spec_run(init, limit, n));
    }
}

/// An unrecognized word traps the loop: when the word fetched at an aligned,
/// in-bounds program counter decodes to `Illegal`, the step leaves the
/// machine `Trapped` with that program counter and word recorded.
pub proof fn lemma_illegal_word_traps(v: MachineView)
    requires
        v.status is Running,
        v.pc % 4 == 0,
        v.pc as int + 3 < v.mem.len(),
        spec_decode(spec_get32(v.mem, v.pc as int)) is Illegal,
    ensures
        spec_step(v).status == (Status::Trapped {
            reason: TrapReason::IllegalInstruction {
                pc: v.pc,
                word: spec_get32(v.mem, v.pc as int),
            },
        }),
{
}

} // verus!
