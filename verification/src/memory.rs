//! A flat, bounds-checked byte memory with little-endian accessors.
//!
//! Every access whose start address lies at or beyond the capacity is
//! tolerated: reads of such bytes yield 0 and writes of such bytes are
//! discarded, so no access ever panics. Multi-byte accesses are composed
//! from single-byte accesses and are therefore tolerant of unaligned and
//! partially out-of-range addresses, byte by byte.

use crate::hex::{hex_seq, to_hex32, to_hex8};
use vstd::prelude::*;
use vstd::string::StringExecFns;

verus! {

/// The byte read at address `a`: the stored byte in range, 0 out of range.
pub open spec fn spec_get8(mem: Seq<u8>, a: int) -> u8 {
    if 0 <= a < mem.len() {
        mem[a]
    } else {
        0
    }
}

/// The little-endian 16-bit value read at address `a`.
pub open spec fn spec_get16(mem: Seq<u8>, a: int) -> u16 {
    (spec_get8(mem, a) as u16) | ((spec_get8(mem, a + 1) as u16) << 8)
}

/// The little-endian 32-bit value read at address `a`.
pub open spec fn spec_get32(mem: Seq<u8>, a: int) -> u32 {
    (spec_get16(mem, a) as u32) | ((spec_get16(mem, a + 2) as u32) << 16)
}

/// The memory after writing byte `v` at address `a`; out of range, unchanged.
pub open spec fn spec_set8(mem: Seq<u8>, a: int, v: u8) -> Seq<u8> {
    if 0 <= a < mem.len() {
        mem.update(a, v)
    } else {
        mem
    }
}

/// The memory after a little-endian 16-bit write of `v` at address `a`.
pub open spec fn spec_set16(mem: Seq<u8>, a: int, v: u16) -> Seq<u8> {
    spec_set8(spec_set8(mem, a, v as u8), a + 1, (v >> 8) as u8)
}

/// The memory after a little-endian 32-bit write of `v` at address `a`.
pub open spec fn spec_set32(mem: Seq<u8>, a: int, v: u32) -> Seq<u8> {
    spec_set16(spec_set16(mem, a, v as u16), a + 2, (v >> 16) as u16)
}

/// A byte sign-extended to 32 bits.
pub open spec fn spec_sext8(b: u8) -> u32 {
    if b >= 0x80 {
        (b + 0xffffff00) as u32
    } else {
        b as u32
    }
}

/// A 16-bit value sign-extended to 32 bits.
pub open spec fn spec_sext16(x: u16) -> u32 {
    if x >= 0x8000 {
        (x + 0xffff0000) as u32
    } else {
        x as u32
    }
}

/// Simulated memory: a byte buffer whose capacity is fixed at construction
/// to a multiple of 16 bytes.
pub struct Memory {
    mem: Vec<u8>,
}

impl View for Memory {
    type V = Seq<u8>;

    closed spec fn view(&self) -> Seq<u8> {
        self.mem@
    }
}

impl Memory {
    /// Capacity is a multiple of 16 and small enough that every byte has a
    /// 32-bit address.
    #[verifier::type_invariant]
    spec fn inv(&self) -> bool {
        &&& self.mem@.len() <= 0xfffffff0
        &&& self.mem@.len() % 16 == 0
    }

    /// Allocates `s` bytes rounded up to the next multiple of 16, every byte
    /// initialized to the sentinel value 0xa5.
    pub fn new(s: u32) -> (r: Memory)
        requires
            s <= 0xfffffff0,
        ensures
            r@.len() % 16 == 0,
            s <= r@.len() < s + 16,
            forall|i: int| 0 <= i < r@.len() ==> r@[i] == 0xa5u8,
    {
        let size: u32 = ((s + 15) / 16) * 16;
        let mut mem: Vec<u8> = Vec::new();
        while mem.len() < size as usize
            invariant
                mem@.len() <= size,
                forall|i: int| 0 <= i < mem@.len() ==> mem@[i] == 0xa5u8,
            decreases size as int - mem@.len(),
        {
            mem.push(0xa5);
        }
        Memory { mem }
    }

    /// True exactly when `addr` lies at or beyond the capacity.
    pub fn check_illegal(&self, addr: u32) -> (r: bool)
        ensures
            r == (addr as int >= self@.len()),
    {
        addr >= self.get_size()
    }

    /// The capacity in bytes.
    pub fn get_size(&self) -> (r: u32)
        ensures
            r as int == self@.len(),
            r % 16 == 0,
    {
        proof {
            use_type_invariant(&*self);
        }
        self.mem.len() as u32
    }

    /// Reads the byte at `addr`; an out-of-range read yields 0.
    pub fn get8(&self, addr: u32) -> (r: u8)
        ensures
            r == spec_get8(self@, addr as int),
            addr as int >= self@.len() ==> r == 0,
    {
        if self.check_illegal(addr) {
            0
        } else {
            self.mem[addr as usize]
        }
    }

    /// Reads a little-endian 16-bit value starting at `addr`, composed from
    /// two byte reads.
    pub fn get16(&self, addr: u32) -> (r: u16)
        ensures
            r == spec_get16(self@, addr as int),
    {
        proof {
            use_type_invariant(&*self);
        }
        let lo = self.get8(addr) as u16;
        let hi = if addr == 0xffffffffu32 {
            0u16
        } else {
            self.get8(addr + 1) as u16
        };
        lo | (hi << 8)
    }

    /// Reads a little-endian 32-bit value starting at `addr`, composed from
    /// two 16-bit reads.
    pub fn get32(&self, addr: u32) -> (r: u32)
        ensures
            r == spec_get32(self@, addr as int),
    {
        proof {
            use_type_invariant(&*self);
        }
        let lo = self.get16(addr) as u32;
        let hi = if addr >= 0xfffffffeu32 {
            proof {
                assert((0u8 as u16) | ((0u8 as u16) << 8) == 0) by (bit_vector);
            }
            0u32
        } else {
            self.get16(addr + 2) as u32
        };
        lo | (hi << 16)
    }

    /// Reads the byte at `addr`, sign-extended to 32 bits.
    pub fn get8_sx(&self, addr: u32) -> (r: u32)
        ensures
            r == spec_sext8(spec_get8(self@, addr as int)),
    {
        let x = self.get8(addr);
        if x >= 0x80 {
            x as u32 + 0xffffff00
        } else {
            x as u32
        }
    }

    /// Reads a little-endian 16-bit value at `addr`, sign-extended to 32 bits.
    pub fn get16_sx(&self, addr: u32) -> (r: u32)
        ensures
            r == spec_sext16(spec_get16(self@, addr as int)),
    {
        let x = self.get16(addr);
        if x >= 0x8000 {
            x as u32 + 0xffff0000
        } else {
            x as u32
        }
    }

    /// Reads a little-endian 32-bit value at `addr`; at this width
    /// sign-extension changes nothing.
    pub fn get32_sx(&self, addr: u32) -> (r: u32)
        ensures
            r == spec_get32(self@, addr as int),
    {
        self.get32(addr)
    }

    /// Writes a byte at `addr`; an out-of-range write is discarded.
    pub fn set8(&mut self, addr: u32, val: u8)
        ensures
            final(self)@ == spec_set8(old(self)@, addr as int, val),
    {
        proof {
            use_type_invariant(&*self);
        }
        if !self.check_illegal(addr) {
            self.mem[addr as usize] = val;
        }
    }

    /// Writes a little-endian 16-bit value starting at `addr`, composed from
    /// two byte writes.
    pub fn set16(&mut self, addr: u32, val: u16)
        ensures
            final(self)@ == spec_set16(old(self)@, addr as int, val),
    {
        proof {
            use_type_invariant(&*self);
        }
        self.set8(addr, val as u8);
        if addr != 0xffffffffu32 {
            self.set8(addr + 1, (val >> 8) as u8);
        }
    }

    /// Writes a little-endian 32-bit value starting at `addr`, composed from
    /// two 16-bit writes.
    pub fn set32(&mut self, addr: u32, val: u32)
        ensures
            final(self)@ == spec_set32(old(self)@, addr as int, val),
    {
        proof {
            use_type_invariant(&*self);
        }
        self.set16(addr, val as u16);
        if addr < 0xfffffffeu32 {
            self.set16(addr + 2, (val >> 16) as u16);
        }
    }

    /// Replaces the low bytes of memory with the given image. Fails, leaving
    /// memory unchanged, when the image is longer than the capacity.
    pub fn load_image(&mut self, data: &Vec<u8>) -> (r: bool)
        ensures
            r == (data@.len() <= old(self)@.len()),
            r ==> final(self)@ == data@ + old(self)@.skip(data@.len() as int),
            !r ==> final(self)@ == old(self)@,
    {
        proof {
            use_type_invariant(&*self);
        }
        if data.len() > self.mem.len() {
            return false;
        }
        let mut i: usize = 0;
        while i < data.len()
            invariant
                old(self).inv(),
                i <= data@.len() <= self.mem@.len(),
                self.mem@.len() == old(self).mem@.len(),
                forall|j: int| 0 <= j < i ==> self.mem@[j] == data@[j],
                forall|j: int| i <= j < self.mem@.len() ==> self.mem@[j] == old(self).mem@[j],
            decreases data@.len() - i,
        {
            self.mem[i] = data[i];
            i += 1;
        }
        proof {
            assert(self@ =~= data@ + old(self)@.skip(data@.len() as int));
        }
        true
    }

    /// Renders one dump line for the sixteen bytes starting at `addr`.
    fn dump_line(&self, addr: u32) -> (r: String)
        requires
            addr <= 0xffffffe0,
        ensures
            r@ == spec_dump_line(self@, addr),
    {
        let mut line = to_hex32(addr);
        line.append(": ");
        proof {
            reveal_strlit(": ");
            assert(line@ =~= hex_seq(addr as int, 8) + seq![':', ' '] + spec_dump_bytes(
                self@,
                addr as int,
                0,
            ));
        }
        let mut j: u32 = 0;
        while j < 16
            invariant
                j <= 16,
                addr <= 0xffffffe0,
                line@ == hex_seq(addr as int, 8) + seq![':', ' '] + spec_dump_bytes(
                    self@,
                    addr as int,
                    j as int,
                ),
            decreases 16 - j,
        {
            line.append(to_hex8(self.get8(addr + j)).as_str());
            if j == 7 {
                line.append("  ");
            } else {
                line.append(" ");
            }
            proof {
                reveal_strlit("  ");
                reveal_strlit(" ");
                assert(line@ =~= hex_seq(addr as int, 8) + seq![':', ' '] + spec_dump_bytes(
                    self@,
                    addr as int,
                    j + 1,
                ));
            }
            j = j + 1;
        }
        line.append("*");
        proof {
            reveal_strlit("*");
            assert(line@ =~= hex_seq(addr as int, 8) + seq![':', ' '] + spec_dump_bytes(
                self@,
                addr as int,
                16,
            ) + seq!['*'] + spec_dump_ascii(self@, addr as int, 0));
        }
        let mut k: u32 = 0;
        while k < 16
            invariant
                k <= 16,
                addr <= 0xffffffe0,
                line@ == hex_seq(addr as int, 8) + seq![':', ' '] + spec_dump_bytes(
                    self@,
                    addr as int,
                    16,
                ) + seq!['*'] + spec_dump_ascii(self@, addr as int, k as int),
            decreases 16 - k,
        {
            let b = self.get8(addr + k);
            let c = if 0x21 <= b && b <= 0x7e {
                b as char
            } else {
                '.'
            };
            push_char(&mut line, c);
            proof {
                assert(line@ =~= hex_seq(addr as int, 8) + seq![':', ' '] + spec_dump_bytes(
                    self@,
                    addr as int,
                    16,
                ) + seq!['*'] + spec_dump_ascii(self@, addr as int, k + 1));
            }
            k = k + 1;
        }
        line.append("*");
        proof {
            reveal_strlit("*");
            assert(line@ =~= spec_dump_line(self@, addr));
        }
        line
    }

    /// Renders the whole contents of memory, sixteen bytes per line, as hex
    /// and printable ASCII.
    pub fn dump_lines(&self) -> (r: Vec<String>)
        ensures
            16 * r@.len() == self@.len(),
            forall|i: int| 0 <= i < r@.len() ==> r@[i]@ == spec_dump_line(self@, (16 * i) as u32),
    {
        proof {
            use_type_invariant(&*self);
        }
        let size = self.get_size();
        let mut lines: Vec<String> = Vec::new();
        let mut addr: u32 = 0;
        while addr < size
            invariant
                size as int == self@.len(),
                size <= 0xfffffff0,
                size % 16 == 0,
                addr % 16 == 0,
                addr <= size,
                addr as int == 16 * lines@.len(),
                forall|i: int|
                    0 <= i < lines@.len() ==> lines@[i]@ == spec_dump_line(self@, (16 * i) as u32),
            decreases size - addr,
        {
            lines.push(self.dump_line(addr));
            addr = addr + 16;
        }
        lines
    }
}

/// The character a byte shows in the printable-ASCII column of a dump:
/// itself when printable, a dot otherwise.
pub open spec fn ascii_char(b: u8) -> char {
    if 0x21 <= b && b <= 0x7e {
        b as char
    } else {
        '.'
    }
}

/// The first `j` of a dump line's sixteen byte columns: each byte as two
/// hexadecimal digits followed by a space, with an extra space after the
/// eighth byte.
pub open spec fn spec_dump_bytes(mem: Seq<u8>, a: int, j: int) -> Seq<char>
    decreases j,
{
    if j <= 0 {
        Seq::empty()
    } else {
        spec_dump_bytes(mem, a, j - 1) + hex_seq(spec_get8(mem, a + j - 1) as int, 2) + (if j == 8 {
            seq![' ', ' ']
        } else {
            seq![' ']
        })
    }
}

/// The first `j` characters of a dump line's printable-ASCII column.
pub open spec fn spec_dump_ascii(mem: Seq<u8>, a: int, j: int) -> Seq<char>
    decreases j,
{
    if j <= 0 {
        Seq::empty()
    } else {
        spec_dump_ascii(mem, a, j - 1) + seq![ascii_char(spec_get8(mem, a + j - 1))]
    }
}

/// One dump line: the address as eight hexadecimal digits, a separator,
/// sixteen bytes in hexadecimal, and the same bytes as printable ASCII
/// between asterisks.
pub open spec fn spec_dump_line(mem: Seq<u8>, addr: u32) -> Seq<char> {
    hex_seq(addr as int, 8) + seq![':', ' '] + spec_dump_bytes(mem, addr as int, 16) + seq!['*']
        + spec_dump_ascii(mem, addr as int, 16) + seq!['*']
}

/// Relies on String::push: it appends exactly the one given character.
#[verifier::external_body]
fn push_char(s: &mut String, c: char)
    ensures
        final(s)@ == old(s)@.push(c),
{
    s.push(c);
}

/// The little-endian round trip: a 32-bit store followed by a 32-bit read at
/// the same address yields the stored word, whenever all four byte addresses
/// lie within capacity.
pub proof fn lemma_write_read32(mem: Seq<u8>, addr: u32, val: u32)
    requires
        addr as int + 4 <= mem.len(),
    ensures
        spec_get32(spec_set32(mem, addr as int, val), addr as int) == val,
{
    let a = addr as int;
    let m = spec_set32(mem, a, val);
    assert(m[a] == (val as u16) as u8);
    assert(m[a + 1] == ((val as u16) >> 8) as u8);
    assert(m[a + 2] == ((val >> 16) as u16) as u8);
    assert(m[a + 3] == (((val >> 16) as u16) >> 8) as u8);
    lemma_le_bytes_recompose(val);
}

/// Splitting a 32-bit value into its four little-endian bytes and
/// recomposing them yields the value again.
proof fn lemma_le_bytes_recompose(v: u32)
    by (bit_vector)
    ensures
        ((((((v as u16) as u8) as u16) | ((((v as u16) >> 8) as u8 as u16) << 8)) as u32) | (((((((v
            >> 16) as u16) as u8) as u16) | (((((v >> 16) as u16) >> 8) as u8 as u16)
            << 8)) as u32) << 16)) == v,
{
}

} // verus!
