//! Work RAM and the little-endian word helpers shared by every
//! byte-addressed component.

use vstd::prelude::*;

verus! {

/// The 16-bit word whose low byte is `lo` and high byte is `hi`.
pub open spec fn word_le(lo: u8, hi: u8) -> u16 {
    (lo + hi * 0x100) as u16
}

/// Low byte of a 16-bit word.
pub open spec fn lo8(w: u16) -> u8 {
    (w % 0x100) as u8
}

/// High byte of a 16-bit word.
pub open spec fn hi8(w: u16) -> u8 {
    (w / 0x100) as u8
}

/// Combining two bytes with shift-and-or equals the arithmetic form.
pub proof fn lemma_word_combine(lo: u8, hi: u8)
    ensures
        ((lo as u16) | ((hi as u16) << 8)) == lo + hi * 0x100,
{
    assert(((lo as u16) | ((hi as u16) << 8)) == lo + hi * 0x100) by (bit_vector);
}

/// Splitting a word with mask and shift equals the arithmetic form.
pub proof fn lemma_word_split(w: u16)
    ensures
        (w >> 8) == w / 0x100,
        (w & 0xFF) == w % 0x100,
{
    assert((w >> 8) == w / 0x100 && (w & 0xFF) == w % 0x100) by (bit_vector);
}

/// Facts about the 2KB RAM mirror mask.
pub proof fn lemma_ram_mask(a: u16)
    ensures
        a & 0x7FF < 0x800,
        (a & 0x7FF) & 0x7FF == a & 0x7FF,
        a < 0x800 ==> a & 0x7FF == a,
{
    assert(a & 0x7FF < 0x800 && ((a & 0x7FF) & 0x7FF) == a & 0x7FF && (a < 0x800 ==> a
        & 0x7FF == a)) by (bit_vector);
}

/// The console's 2KB of work RAM, mirrored four times across the first 8KB
/// of the address space.
pub struct RAM {
    pub mem: Vec<u8>,
}

impl View for RAM {
    type V = Seq<u8>;

    open spec fn view(&self) -> Seq<u8> {
        self.mem@
    }
}

/// The RAM cell that a bus address selects: the address is masked to the
/// 2KB range, which both bounds it and realizes the 4-way mirror.
pub open spec fn ram_index(addr: u16) -> int {
    (addr & 0x7FF) as int
}

/// The 2KB store has its fixed size.
pub open spec fn ram_wf(v: Seq<u8>) -> bool {
    v.len() == 0x800
}

impl RAM {
    pub fn new() -> (r: RAM)
        ensures
            ram_wf(r@),
            forall|i: int| 0 <= i < 0x800 ==> r@[i] == 0u8,
    {
        RAM { mem: vec![0u8; 0x800] }
    }

    /// Loads never mutate; the returned byte is the masked cell.
    pub fn load_byte(&self, addr: u16) -> (b: u8)
        requires
            ram_wf(self@),
        ensures
            b == self@[ram_index(addr)],
    {
        proof {
            lemma_ram_mask(addr);
        }
        self.mem[(addr & 0x7FF) as usize]
    }

    pub fn store_byte(&mut self, addr: u16, val: u8)
        requires
            ram_wf(old(self)@),
        ensures
            ram_wf(final(self)@),
            final(self)@ == old(self)@.update(ram_index(addr), val),
    {
        proof {
            lemma_ram_mask(addr);
        }
        self.mem[(addr & 0x7FF) as usize] = val;
    }

    /// Little-endian word load; the high byte comes from `addr + 1`,
    /// wrapping around the top of the 16-bit address space.
    pub fn load_word(&self, addr: u16) -> (w: u16)
        requires
            ram_wf(self@),
        ensures
            w == word_le(self@[ram_index(addr)], self@[ram_index(addr.wrapping_add(1))]),
    {
        let lo = self.load_byte(addr);
        let hi = self.load_byte(addr.wrapping_add(1));
        proof {
            lemma_word_combine(lo, hi);
        }
        (lo as u16) | ((hi as u16) << 8)
    }

    /// Little-endian word store: low byte first, high byte at `addr + 1`.
    pub fn store_word(&mut self, addr: u16, val: u16)
        requires
            ram_wf(old(self)@),
        ensures
            ram_wf(final(self)@),
            final(self)@ == old(self)@.update(ram_index(addr), lo8(val)).update(
                ram_index(addr.wrapping_add(1)),
                hi8(val),
            ),
    {
        proof {
            lemma_word_split(val);
        }
        let lo = (val & 0xFF) as u8;
        let hi = (val >> 8) as u8;
        self.store_byte(addr, lo);
        self.store_byte(addr.wrapping_add(1), hi);
    }

    /// Word load through an 8-bit zero-page pointer: the second byte's
    /// address wraps at 8 bits, so a pointer at 0xFF takes its high byte
    /// from 0x00.
    pub fn load_word_zeropage_wraparound(&self, addr: u8) -> (w: u16)
        requires
            ram_wf(self@),
        ensures
            w == word_le(
                self@[ram_index(addr as u16)],
                self@[ram_index(addr.wrapping_add(1) as u16)],
            ),
    {
        let lo = self.load_byte(addr as u16);
        let hi = self.load_byte(addr.wrapping_add(1) as u16);
        proof {
            lemma_word_combine(lo, hi);
        }
        (lo as u16) | ((hi as u16) << 8)
    }
}

/// Mirrored RAM: a store anywhere in the first 8KB is read back by loading
/// through the masked address.
pub proof fn lemma_ram_mirroring(v: Seq<u8>, addr: u16, val: u8)
    requires
        ram_wf(v),
        addr < 0x2000,
    ensures
        v.update(ram_index(addr), val)[ram_index(addr & 0x7FF)] == val,
{
    lemma_ram_mask(addr);
}

} // verus!
