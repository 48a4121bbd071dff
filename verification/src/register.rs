//! The register file: 32 general-purpose 32-bit registers, with register 0
//! hardwired to zero. Writes to register 0 are silently discarded, so a read
//! of register 0 yields 0 in every reachable state.

use crate::hex::{dec2, dec2_str, hex_seq, to_hex32};
use vstd::prelude::*;
use vstd::string::{StrSliceExecFns, StringExecFns};

verus! {

/// The poison pattern that `reset` writes into every register but register 0,
/// so that a use of an uninitialized register is visible during testing.
pub const RESET_PATTERN: u32 = 0xf0f0f0f0;

/// The register contents after a write of `val` to register `reg`: writes to
/// register 0 are discarded.
pub open spec fn spec_reg_write(regs: Seq<u32>, reg: u32, val: u32) -> Seq<u32> {
    if reg == 0 {
        regs
    } else {
        regs.update(reg as int, val)
    }
}

/// The register contents established by `reset`: register 0 holds 0, every
/// other register holds the poison pattern.
pub open spec fn spec_reset_regs() -> Seq<u32> {
    Seq::new(32, |i: int| if i == 0 { 0u32 } else { RESET_PATTERN })
}

/// The simulated register file.
pub struct RegisterFile {
    regs: Vec<u32>,
}

impl View for RegisterFile {
    type V = Seq<u32>;

    closed spec fn view(&self) -> Seq<u32> {
        self.regs@
    }
}

impl RegisterFile {
    /// There are exactly 32 registers and register 0 holds 0.
    #[verifier::type_invariant]
    spec fn inv(&self) -> bool {
        &&& self.regs@.len() == 32
        &&& self.regs@[0] == 0
    }

    /// A fresh register file in the reset state.
    pub fn new() -> (r: RegisterFile)
        ensures
            r@ == spec_reset_regs(),
    {
        let mut v: Vec<u32> = Vec::new();
        while v.len() < 32
            invariant
                v@.len() <= 32,
                forall|i: int| 0 <= i < v@.len() ==> v@[i] == 0u32,
            decreases 32 - v@.len(),
        {
            v.push(0);
        }
        let mut rf = RegisterFile { regs: v };
        rf.reset();
        rf
    }

    /// Puts the register file back into its reset state: register 0 reads 0,
    /// every other register holds the poison pattern.
    pub fn reset(&mut self)
        ensures
            final(self)@ == spec_reset_regs(),
    {
        proof {
            use_type_invariant(&*self);
        }
        self.set(0, 0);
        let mut i: u32 = 0;
        while i < 32
            invariant
                old(self).inv(),
                i <= 32,
                self.regs@.len() == 32,
                self.regs@[0] == 0,
                forall|j: int| 1 <= j < i ==> self.regs@[j] == RESET_PATTERN,
                forall|j: int| i <= j < 32 ==> self.regs@[j] == old(self).regs@[j],
            decreases 32 - i,
        {
            self.set(i, RESET_PATTERN);
            i = i + 1;
        }
        proof {
            assert(self@ =~= spec_reset_regs());
        }
    }

    /// Writes `val` to register `reg`; a write to register 0 is discarded.
    pub fn set(&mut self, reg: u32, val: u32)
        requires
            reg < 32,
        ensures
            final(self)@ == spec_reg_write(old(self)@, reg, val),
            final(self)@[0] == 0,
    {
        proof {
            use_type_invariant(&*self);
        }
        if reg == 0 {
            return ;
        }
        self.regs[reg as usize] = val;
    }

    /// Reads register `reg`.
    pub fn get(&self, reg: u32) -> (r: u32)
        requires
            reg < 32,
        ensures
            r == self@[reg as int],
            reg == 0 ==> r == 0,
    {
        proof {
            use_type_invariant(&*self);
        }
        self.regs[reg as usize]
    }

    /// Renders one dump line for the eight registers starting at `idx`.
    fn dump_line(&self, idx: u32, hdr: &str) -> (r: String)
        requires
            idx + 8 <= 32,
        ensures
            r@ == spec_reg_dump_line(self@, idx as int, hdr@),
    {
        let mut line = String::new();
        if idx < 10 {
            line.append(" ");
        }
        line.append("x");
        line.append(dec2_str(idx).as_str());
        line.append(" ");
        proof {
            reveal_strlit(" ");
            reveal_strlit("x");
            assert(line@ =~= spec_reg_label(idx as int) + seq![' '] + spec_reg_dump_vals(
                self@,
                idx as int,
                0,
            ));
        }
        let mut j: u32 = 0;
        while j < 8
            invariant
                j <= 8,
                idx + 8 <= 32,
                line@ == spec_reg_label(idx as int) + seq![' '] + spec_reg_dump_vals(
                    self@,
                    idx as int,
                    j as int,
                ),
            decreases 8 - j,
        {
            line.append(to_hex32(self.get(idx + j)).as_str());
            if j == 3 {
                line.append("  ");
            } else if j != 7 {
                line.append(" ");
            }
            proof {
                reveal_strlit("  ");
                reveal_strlit(" ");
                assert(line@ =~= spec_reg_label(idx as int) + seq![' '] + spec_reg_dump_vals(
                    self@,
                    idx as int,
                    j + 1,
                ));
            }
            j = j + 1;
        }
        if hdr.unicode_len() > 0 {
            line.append(" ");
            line.append(hdr);
            proof {
                reveal_strlit(" ");
                assert(line@ =~= spec_reg_dump_line(self@, idx as int, hdr@));
            }
        } else {
            proof {
                assert(line@ =~= spec_reg_dump_line(self@, idx as int, hdr@));
            }
        }
        line
    }

    /// Renders the register file as four lines of eight registers each, every
    /// value as eight hexadecimal digits, with an optional trailing header.
    pub fn dump_lines(&self, hdr: &str) -> (r: Vec<String>)
        ensures
            r@.len() == 4,
            r@[0]@ == spec_reg_dump_line(self@, 0, hdr@),
            r@[1]@ == spec_reg_dump_line(self@, 8, hdr@),
            r@[2]@ == spec_reg_dump_line(self@, 16, hdr@),
            r@[3]@ == spec_reg_dump_line(self@, 24, hdr@),
    {
        let mut lines: Vec<String> = Vec::new();
        lines.push(self.dump_line(0, hdr));
        lines.push(self.dump_line(8, hdr));
        lines.push(self.dump_line(16, hdr));
        lines.push(self.dump_line(24, hdr));
        lines
    }
}

/// A register label right-aligned to a width of 3: `x` and the index in
/// decimal, preceded by a space for one-digit indices.
pub open spec fn spec_reg_label(idx: int) -> Seq<char> {
    if idx < 10 {
        seq![' ', 'x'] + dec2(idx)
    } else {
        seq!['x'] + dec2(idx)
    }
}

/// The first `j` of a dump line's eight register values: each as eight
/// hexadecimal digits followed by a space, an extra space after the fourth
/// and none after the eighth.
pub open spec fn spec_reg_dump_vals(regs: Seq<u32>, idx: int, j: int) -> Seq<char>
    decreases j,
{
    if j <= 0 {
        Seq::empty()
    } else {
        spec_reg_dump_vals(regs, idx, j - 1) + hex_seq(regs[idx + j - 1] as int, 8) + (if j == 4 {
            seq![' ', ' ']
        } else if j == 8 {
            Seq::empty()
        } else {
            seq![' ']
        })
    }
}

/// One register dump line: the label of the first register, then eight
/// register values, then the header when one was given.
pub open spec fn spec_reg_dump_line(regs: Seq<u32>, idx: int, hdr: Seq<char>) -> Seq<char> {
    spec_reg_label(idx) + seq![' '] + spec_reg_dump_vals(regs, idx, 8) + (if hdr.len() > 0 {
        seq![' '] + hdr
    } else {
        Seq::empty()
    })
}

/// Register 0 is invariant under every write: after `set(0, v)` — and after
/// any other write — a read of register 0 still yields 0.
pub proof fn lemma_reg0_invariant(regs: Seq<u32>, reg: u32, val: u32)
    requires
        regs.len() == 32,
        regs[0] == 0,
        reg < 32,
    ensures
        spec_reg_write(regs, reg, val)[0] == 0,
{
}

} // verus!
