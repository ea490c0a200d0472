//! The CPU core: register file, flag arithmetic, stack discipline,
//! addressing modes, the instruction set and its decoder.
//!
//! Every operation is specified as a function from the machine view
//! ([`CpuView`]) to the machine view; [`instr_spec`] composes them into
//! the meaning of one decoded instruction and [`step_spec`] into the
//! meaning of one fetch-decode-execute step.

use vstd::prelude::*;
use crate::bus::{CPUMemoryMap, MemView, mem_view_wf, mem_load_spec, mem_store_spec};
use crate::mapper::Mapper;
use crate::memory::{RAM, word_le, lo8, hi8, lemma_word_combine, lemma_word_split, lemma_ram_mask};
use crate::ppu::PPU;

verus! {

pub const F_CARRY: u8 = 0x01;

pub const F_ZERO: u8 = 0x02;

pub const F_INTERRUPT: u8 = 0x04;

pub const F_DECIMAL: u8 = 0x08;

pub const F_BREAK: u8 = 0x10;

pub const F_OVERFLOW: u8 = 0x40;

pub const F_NEGATIVE: u8 = 0x80;

/// Little-endian address of the non-maskable interrupt vector.  The
/// constant is part of the register-file contract; no external trigger
/// mechanism is wired yet.
pub const NMI_VECTOR: u16 = 0xFFFA;

/// Little-endian address of the reset vector.
pub const RESET_VECTOR: u16 = 0xFFFC;

/// Little-endian address of the interrupt/break vector.
pub const BRK_VECTOR: u16 = 0xFFFE;

/// The CPU register file: accumulator, two index registers, program
/// counter, stack offset and flag byte.
#[derive(Clone, Copy)]
pub struct Registers {
    pub a: u8,
    pub x: u8,
    pub y: u8,
    pub pc: u16,
    pub s: u8,
    pub p: u8,
}

impl Registers {
    pub fn new() -> (r: Registers)
        ensures
            r == Registers::init(),
    {
        Registers { a: 0, x: 0, y: 0, pc: 0, s: 0xFD, p: 0x34 }
    }

    /// The power-on register file.
    pub open spec fn init() -> Registers {
        Registers { a: 0, x: 0, y: 0, pc: 0, s: 0xFD, p: 0x34 }
    }
}

/// The CPU and everything it owns: registers plus the whole bus.
pub struct CPU {
    pub regs: Registers,
    pub mem_map: CPUMemoryMap,
}

/// Mathematical state of the machine: the register file and the state of
/// everything behind the bus.
#[verifier::ext_equal]
pub ghost struct CpuView {
    pub regs: Registers,
    pub mem: MemView,
}

impl View for CPU {
    type V = CpuView;

    open spec fn view(&self) -> CpuView {
        CpuView { regs: self.regs, mem: self.mem_map@ }
    }
}

/// Every store behind the bus has its fixed hardware size.
pub open spec fn cpu_wf(s: CpuView) -> bool {
    mem_view_wf(s.mem)
}

/// The flag byte with one flag bit forced on or off.
pub open spec fn flag_set(p: u8, flag: u8, on: bool) -> u8 {
    if on {
        p | flag
    } else {
        p & !flag
    }
}

/// The single Zero/Negative update rule: Zero iff the result byte is 0,
/// Negative iff its bit 7 is set.  Every instruction that produces a
/// result passes it through this rule.
pub open spec fn set_zn_spec(p: u8, v: u8) -> u8 {
    flag_set(flag_set(p, F_ZERO, v == 0), F_NEGATIVE, v & 0x80 != 0)
}

/// The byte the CPU reads at `addr` in state `s`.
pub open spec fn cpu_load(s: CpuView, addr: u16) -> u8 {
    mem_load_spec(s.mem, addr)
}

/// One OAM DMA transfer burst cut off after `n` of its 256 steps: each
/// step loads `hh00 + i` from the current state and writes the byte to
/// the OAM data port at 0x2004.
pub open spec fn dma_upto(m: MemView, hh: u8, n: int) -> MemView
    decreases n,
{
    if n <= 0 {
        m
    } else {
        let prev = dma_upto(m, hh, n - 1);
        mem_store_spec(prev, 0x2004, mem_load_spec(prev, (hh * 0x100 + (n - 1)) as u16))
    }
}

/// The full 256-byte OAM DMA burst that a store to 0x4014 performs.
pub open spec fn dma_spec(m: MemView, hh: u8) -> MemView {
    dma_upto(m, hh, 256)
}

/// The state a CPU store leaves: a store to 0x4014 is intercepted ahead
/// of the generic dispatch and performs the DMA burst; everything else
/// goes to the bus.  Registers never change.
pub open spec fn cpu_store_spec(s: CpuView, addr: u16, val: u8) -> CpuView {
    if addr == 0x4014 {
        CpuView { mem: dma_spec(s.mem, val), ..s }
    } else {
        CpuView { mem: mem_store_spec(s.mem, addr, val), ..s }
    }
}

/// The state with the program counter advanced by `n`, wrapping at the
/// top of the address space.
pub open spec fn bump_pc(s: CpuView, n: u16) -> CpuView {
    CpuView { regs: Registers { pc: s.regs.pc.wrapping_add(n), ..s.regs }, ..s }
}

/// The 16-bit little-endian word at the program counter.
pub open spec fn pc_word(s: CpuView) -> u16 {
    word_le(cpu_load(s, s.regs.pc), cpu_load(s, s.regs.pc.wrapping_add(1)))
}

/// The 16-bit word a zero-page pointer `p` holds; the pointer's own
/// second byte wraps at 8 bits.
pub open spec fn zp_word(s: CpuView, p: u8) -> u16 {
    word_le(cpu_load(s, p as u16), cpu_load(s, p.wrapping_add(1) as u16))
}

/// An operand location: the accumulator, the byte after the opcode, or a
/// resolved 16-bit memory address.
#[derive(Clone, Copy)]
pub enum AddressingMode {
    Accumulator,
    Immediate,
    Memory(u16),
}

/// The operand byte a mode reads in state `s`.
pub open spec fn mode_value(m: AddressingMode, s: CpuView) -> u8 {
    match m {
        AddressingMode::Accumulator => s.regs.a,
        AddressingMode::Immediate => cpu_load(s, s.regs.pc),
        AddressingMode::Memory(addr) => cpu_load(s, addr),
    }
}

/// The state after reading through a mode: only the immediate mode has a
/// side effect (it consumes the operand byte).
pub open spec fn mode_after_load(m: AddressingMode, s: CpuView) -> CpuView {
    match m {
        AddressingMode::Immediate => bump_pc(s, 1),
        _ => s,
    }
}

/// Whether a mode can be stored through; a store through the immediate
/// mode is a programming error.
pub open spec fn mode_writable(m: AddressingMode) -> bool {
    !(m is Immediate)
}

/// The state after storing `val` through a mode: the accumulator mode
/// writes the register, the memory mode goes through the CPU store (DMA
/// interception included).
pub open spec fn mode_after_store(m: AddressingMode, s: CpuView, val: u8) -> CpuView {
    match m {
        AddressingMode::Accumulator => CpuView { regs: Registers { a: val, ..s.regs }, ..s },
        AddressingMode::Immediate => s,
        AddressingMode::Memory(addr) => cpu_store_spec(s, addr, val),
    }
}

impl CPU {
    pub fn new(ppu: PPU, ram: RAM, mapper: Mapper) -> (c: CPU)
        ensures
            c@ == (CpuView {
                regs: Registers::init(),
                mem: MemView { ram: ram@, ppu: ppu@, mapper: mapper@ },
            }),
    {
        CPU { regs: Registers::new(), mem_map: CPUMemoryMap::new(ppu, ram, mapper) }
    }

    /// Loads never mutate and have no side effect anywhere on the bus.
    pub fn load_byte(&self, addr: u16) -> (b: u8)
        requires
            cpu_wf(self@),
        ensures
            b == cpu_load(self@, addr),
    {
        self.mem_map.load_byte(addr)
    }

    /// A store, with the DMA port intercepted ahead of address dispatch.
    pub fn store_byte(&mut self, addr: u16, val: u8)
        requires
            cpu_wf(old(self)@),
        ensures
            cpu_wf(final(self)@),
            final(self)@ == cpu_store_spec(old(self)@, addr, val),
    {
        if addr == 0x4014 {
            self.dma(val);
        } else {
            self.mem_map.store_byte(addr, val);
        }
    }

    /// The DMA burst: 256 sequential loads from `hh00..hhFF`, each byte
    /// written at once to the OAM data port.
    fn dma(&mut self, high_byte: u8)
        requires
            cpu_wf(old(self)@),
        ensures
            cpu_wf(final(self)@),
            final(self)@ == (CpuView { mem: dma_spec(old(self)@.mem, high_byte), ..old(self)@ }),
    {
        let start: u16 = (high_byte as u16) * 0x100;
        let mut i: usize = 0;
        while i < 256
            invariant
                cpu_wf(self@),
                i <= 256,
                start == high_byte * 0x100,
                self@.regs == old(self)@.regs,
                self@.mem == dma_upto(old(self)@.mem, high_byte, i as int),
            decreases 256 - i,
        {
            let val = self.load_byte(start + (i as u16));
            self.mem_map.store_byte(0x2004, val);
            i = i + 1;
        }
        proof {
            assert(final(self)@ =~= (CpuView {
                mem: dma_spec(old(self)@.mem, high_byte),
                ..old(self)@
            }));
        }
    }

    /// Little-endian word load; the high byte comes from `addr + 1`,
    /// wrapping around the top of the address space.
    pub fn load_word(&self, addr: u16) -> (w: u16)
        requires
            cpu_wf(self@),
        ensures
            w == word_le(cpu_load(self@, addr), cpu_load(self@, addr.wrapping_add(1))),
    {
        let lo = self.load_byte(addr);
        let hi = self.load_byte(addr.wrapping_add(1));
        proof {
            lemma_word_combine(lo, hi);
        }
        (lo as u16) | ((hi as u16) << 8)
    }

    /// Word load through an 8-bit zero-page pointer; the pointer's second
    /// byte wraps at 8 bits, never into page one.
    pub fn load_word_zeropage_wraparound(&self, addr: u8) -> (w: u16)
        requires
            cpu_wf(self@),
        ensures
            w == zp_word(self@, addr),
    {
        let lo = self.load_byte(addr as u16);
        let hi = self.load_byte(addr.wrapping_add(1) as u16);
        proof {
            lemma_word_combine(lo, hi);
        }
        (lo as u16) | ((hi as u16) << 8)
    }

    /// Fetches the byte at the program counter and advances past it.
    pub fn load_byte_increment_pc(&mut self) -> (b: u8)
        requires
            cpu_wf(old(self)@),
        ensures
            cpu_wf(final(self)@),
            b == cpu_load(old(self)@, old(self)@.regs.pc),
            final(self)@ == bump_pc(old(self)@, 1),
    {
        let pc = self.regs.pc;
        let val = self.load_byte(pc);
        self.regs.pc = pc.wrapping_add(1);
        val
    }

    /// Fetches the word at the program counter and advances past it.
    pub fn load_word_increment_pc(&mut self) -> (w: u16)
        requires
            cpu_wf(old(self)@),
        ensures
            cpu_wf(final(self)@),
            w == pc_word(old(self)@),
            final(self)@ == bump_pc(old(self)@, 2),
    {
        let pc = self.regs.pc;
        let val = self.load_word(pc);
        self.regs.pc = pc.wrapping_add(2);
        val
    }
}

/// The uppercase hexadecimal digit character for a value below 16.
pub open spec fn hex_digit_char(d: int) -> char {
    if d < 10 {
        (0x30 + d) as char
    } else {
        (0x37 + d) as char
    }
}

/// The uppercase hexadecimal rendering of a byte, without leading zero.
pub open spec fn hex_str(v: u8) -> Seq<char> {
    if v < 16 {
        seq![hex_digit_char(v as int)]
    } else {
        seq![hex_digit_char(v as int / 16), hex_digit_char(v as int % 16)]
    }
}

/// The rendering of the stack bytes from slot `i` up to (excluding) the
/// top slot 0xFF: each byte in hex, followed by a space.
pub open spec fn stack_str(s: CpuView, i: int) -> Seq<char>
    decreases 0xFF - i,
{
    if i < 0 || i >= 0xFF {
        Seq::empty()
    } else {
        hex_str(cpu_load(s, (0x100 + i) as u16)) + seq![' '] + stack_str(s, i + 1)
    }
}

/// The nibbles of a byte are its digits base 16.
proof fn lemma_hex_split(v: u8)
    ensures
        v >> 4 < 16,
        v & 0x0F < 16,
        v >> 4 == v / 16,
        v & 0x0F == v % 16,
{
    assert(v >> 4 < 16 && v & 0x0F < 16 && v >> 4 == v / 16 && v & 0x0F == v % 16)
        by (bit_vector);
}

/// The one-character string for a hexadecimal digit.
fn hex_digit_str(d: u8) -> (r: &'static str)
    requires
        d < 16,
    ensures
        r@ == seq![hex_digit_char(d as int)],
{
    proof {
        reveal_strlit("0");
        reveal_strlit("1");
        reveal_strlit("2");
        reveal_strlit("3");
        reveal_strlit("4");
        reveal_strlit("5");
        reveal_strlit("6");
        reveal_strlit("7");
        reveal_strlit("8");
        reveal_strlit("9");
        reveal_strlit("A");
        reveal_strlit("B");
        reveal_strlit("C");
        reveal_strlit("D");
        reveal_strlit("E");
        reveal_strlit("F");
    }
    let r = match d {
        0 => "0",
        1 => "1",
        2 => "2",
        3 => "3",
        4 => "4",
        5 => "5",
        6 => "6",
        7 => "7",
        8 => "8",
        9 => "9",
        10 => "A",
        11 => "B",
        12 => "C",
        13 => "D",
        14 => "E",
        _ => "F",
    };
    proof {
        assert(r@ =~= seq![hex_digit_char(d as int)]);
    }
    r
}

impl CPU {
    /// Renders the stack bytes from the current slot up to the top of
    /// page one, for diagnostics.
    pub fn printable_stack(&self) -> (r: String)
        requires
            cpu_wf(self@),
        ensures
            r@ == stack_str(self@, self@.regs.s as int),
    {
        let mut stack = String::new();
        let ghost s0: int = self@.regs.s as int;
        let mut i: u16 = self.regs.s as u16;
        proof {
            reveal_strlit(" ");
        }
        while i < 0xFF
            invariant
                cpu_wf(self@),
                s0 <= i <= 0xFF,
                s0 == self@.regs.s,
                stack@ + stack_str(self@, i as int) == stack_str(self@, s0),
            decreases 0xFF - i,
        {
            let v = self.load_byte(0x100 + i);
            proof {
                lemma_hex_split(v);
                reveal_strlit(" ");
            }
            let ghost before = stack@;
            if v < 16 {
                stack.append(hex_digit_str(v));
            } else {
                stack.append(hex_digit_str(v >> 4));
                stack.append(hex_digit_str(v & 0x0F));
            }
            stack.append(" ");
            proof {
                assert(stack@ =~= before + hex_str(v) + seq![' ']);
                assert(stack@ + stack_str(self@, i + 1) =~= before + stack_str(self@, i as int));
            }
            i = i + 1;
        }
        stack
    }
}

/// Pushing a byte and then popping returns that byte, and the stack
/// offset comes back to its original value; no other register moves.
pub proof fn lemma_push_pop_roundtrip(s: CpuView, v: u8)
    requires
        cpu_wf(s),
    ensures
        pop_value(push_spec(s, v)) == v,
        pop_spec(push_spec(s, v)).regs == s.regs,
{
    lemma_ram_mask((0x100 + s.regs.s) as u16);
}

/// The state after pushing one byte: the byte lands at `0x0100 + S` and
/// S decrements, wrapping silently at 8 bits.
pub open spec fn push_spec(s: CpuView, val: u8) -> CpuView {
    CpuView {
        regs: Registers { s: s.regs.s.wrapping_sub(1), ..s.regs },
        mem: mem_store_spec(s.mem, (0x100 + s.regs.s) as u16, val),
    }
}

/// The stack offset after one pop: S increments, wrapping at 8 bits.
pub open spec fn pop_s(s: CpuView) -> u8 {
    s.regs.s.wrapping_add(1)
}

/// The byte one pop returns: S increments first, then the byte at
/// `0x0100 + S` is loaded.
pub open spec fn pop_value(s: CpuView) -> u8 {
    cpu_load(s, (0x100 + pop_s(s)) as u16)
}

/// The state after one pop.
pub open spec fn pop_spec(s: CpuView) -> CpuView {
    CpuView { regs: Registers { s: pop_s(s), ..s.regs }, ..s }
}

/// The state after pushing a word: high byte first, then low byte, so
/// that the low byte sits at the lower address.
pub open spec fn push_word_spec(s: CpuView, w: u16) -> CpuView {
    push_spec(push_spec(s, hi8(w)), lo8(w))
}

/// The word two pops return: low byte first, then high byte.
pub open spec fn pop_word_value(s: CpuView) -> u16 {
    word_le(pop_value(s), pop_value(pop_spec(s)))
}

/// The state after popping a word.
pub open spec fn pop_word_spec(s: CpuView) -> CpuView {
    pop_spec(pop_spec(s))
}

/// The flag byte RTI and PLP restore: the two unused bits are masked to
/// the hardware pattern (bit 5 reads 1, bit 4 reads 0).
pub open spec fn set_flags_spec(flags: u8) -> u8 {
    ((flags | 0x30) - 0x10) as u8
}

/// The displacement byte of a branch, sign-extended to 16 bits.
pub open spec fn sign_extend(o: u8) -> u16 {
    if o < 0x80 {
        o as u16
    } else {
        (o + 0xFF00) as u16
    }
}

/// A byte shifted left one bit; the vacated bit 0 is filled with the
/// carry-in (0 for a plain shift, the prior Carry for a rotate).
pub open spec fn shl1(v: u8, cin: bool) -> u8 {
    ((2 * v + if cin {
        1int
    } else {
        0int
    }) % 256) as u8
}

/// A byte shifted right one bit; the vacated bit 7 is filled with the
/// carry-in.
pub open spec fn shr1(v: u8, cin: bool) -> u8 {
    (v / 2 + if cin {
        0x80int
    } else {
        0int
    }) as u8
}

/// An OR of 0x30 is at least 0x30, so the flag-restore mask never
/// underflows.
proof fn lemma_flags_or(f: u8)
    ensures
        f | 0x30 >= 0x30,
        f | 0x30 <= 0xFF,
{
    assert(f | 0x30 >= 0x30 && f | 0x30 <= 0xFF) by (bit_vector);
}

impl CPU {
    /// The stack lives in page one: the absolute address of the current
    /// stack slot.
    pub fn stack_pointer(&self) -> (sp: u16)
        ensures
            sp == 0x100 + self@.regs.s,
    {
        self.regs.s as u16 + 0x100
    }

    /// Stores at the stack slot, then decrements S (wrapping silently).
    pub fn push_byte(&mut self, val: u8)
        requires
            cpu_wf(old(self)@),
        ensures
            cpu_wf(final(self)@),
            final(self)@ == push_spec(old(self)@, val),
    {
        let addr = self.stack_pointer();
        self.store_byte(addr, val);
        self.regs.s = self.regs.s.wrapping_sub(1);
        proof {
            assert(final(self)@ =~= push_spec(old(self)@, val));
        }
    }

    /// Pushes the high byte first, then the low byte.
    pub fn push_word(&mut self, val: u16)
        requires
            cpu_wf(old(self)@),
        ensures
            cpu_wf(final(self)@),
            final(self)@ == push_word_spec(old(self)@, val),
    {
        proof {
            lemma_word_split(val);
        }
        let hi = (val >> 8) as u8;
        self.push_byte(hi);
        let low = (val & 0xFF) as u8;
        self.push_byte(low);
    }

    /// Increments S (wrapping), then loads the byte at the new slot.
    pub fn pop_byte(&mut self) -> (b: u8)
        requires
            cpu_wf(old(self)@),
        ensures
            cpu_wf(final(self)@),
            b == pop_value(old(self)@),
            final(self)@ == pop_spec(old(self)@),
    {
        let s_new = self.regs.s.wrapping_add(1);
        self.regs.s = s_new;
        self.load_byte(0x100 + (s_new as u16))
    }

    /// Pops the low byte first, then the high byte.
    pub fn pop_word(&mut self) -> (w: u16)
        requires
            cpu_wf(old(self)@),
        ensures
            cpu_wf(final(self)@),
            w == pop_word_value(old(self)@),
            final(self)@ == pop_word_spec(old(self)@),
    {
        let low = self.pop_byte();
        let hi = self.pop_byte();
        proof {
            lemma_word_combine(low, hi);
        }
        (low as u16) | ((hi as u16) << 8)
    }

    /// Whether a flag bit is set in the flag byte.
    pub fn get_flag(&self, flag: u8) -> (b: bool)
        ensures
            b == (self@.regs.p & flag != 0),
    {
        (self.regs.p & flag) > 0
    }

    /// Forces one flag bit on or off.
    pub fn set_flag(&mut self, flag: u8, state: bool)
        ensures
            final(self)@ == (CpuView {
                regs: Registers { p: flag_set(old(self)@.regs.p, flag, state), ..old(self)@.regs },
                ..old(self)@
            }),
    {
        if state {
            self.regs.p = self.regs.p | flag;
        } else {
            self.regs.p = self.regs.p & !flag;
        }
    }

    /// Replaces the whole flag byte, masking the unused bits to the
    /// hardware pattern.
    pub fn set_flags(&mut self, flags: u8)
        ensures
            final(self)@ == (CpuView {
                regs: Registers { p: set_flags_spec(flags), ..old(self)@.regs },
                ..old(self)@
            }),
    {
        proof {
            lemma_flags_or(flags);
        }
        self.regs.p = (flags | 0x30) - 0x10;
    }

    /// The single Zero/Negative update rule; returns the value unchanged
    /// so that it chains through every load, transfer and logic op.
    pub fn set_zn(&mut self, val: u8) -> (r: u8)
        ensures
            r == val,
            final(self)@ == (CpuView {
                regs: Registers { p: set_zn_spec(old(self)@.regs.p, val), ..old(self)@.regs },
                ..old(self)@
            }),
    {
        self.set_flag(F_ZERO, val == 0);
        self.set_flag(F_NEGATIVE, (val & 0x80) != 0);
        val
    }

    /// Reads the operand a mode selects; only the immediate mode has the
    /// side effect of consuming the operand byte.
    pub fn mode_load(&mut self, mode: AddressingMode) -> (v: u8)
        requires
            cpu_wf(old(self)@),
        ensures
            cpu_wf(final(self)@),
            v == mode_value(mode, old(self)@),
            final(self)@ == mode_after_load(mode, old(self)@),
    {
        match mode {
            AddressingMode::Accumulator => self.regs.a,
            AddressingMode::Immediate => self.load_byte_increment_pc(),
            AddressingMode::Memory(addr) => self.load_byte(addr),
        }
    }

    /// Writes through a mode; storing through the immediate mode is a
    /// programming error, excluded by precondition.
    pub fn mode_store(&mut self, mode: AddressingMode, val: u8)
        requires
            cpu_wf(old(self)@),
            mode_writable(mode),
        ensures
            cpu_wf(final(self)@),
            final(self)@ == mode_after_store(mode, old(self)@, val),
    {
        match mode {
            AddressingMode::Accumulator => self.regs.a = val,
            AddressingMode::Immediate => (),
            AddressingMode::Memory(addr) => self.store_byte(addr, val),
        }
    }
}

/// The mode an operand byte in zero page selects.
pub open spec fn zp_mode(s: CpuView) -> AddressingMode {
    AddressingMode::Memory(cpu_load(s, s.regs.pc) as u16)
}

/// Zero page indexed by X: the sum wraps at 8 bits.
pub open spec fn zpx_mode(s: CpuView) -> AddressingMode {
    AddressingMode::Memory(cpu_load(s, s.regs.pc).wrapping_add(s.regs.x) as u16)
}

/// A 16-bit operand used as the address directly.
pub open spec fn abs_mode(s: CpuView) -> AddressingMode {
    AddressingMode::Memory(pc_word(s))
}

/// A 16-bit operand plus X, wrapping at 16 bits.
pub open spec fn absx_mode(s: CpuView) -> AddressingMode {
    AddressingMode::Memory(pc_word(s).wrapping_add(s.regs.x as u16))
}

/// A 16-bit operand plus Y, wrapping at 16 bits.
pub open spec fn absy_mode(s: CpuView) -> AddressingMode {
    AddressingMode::Memory(pc_word(s).wrapping_add(s.regs.y as u16))
}

/// Indexed indirect `(zp,X)`: X is added to the zero-page pointer with
/// 8-bit wraparound, then the 16-bit pointer is read from zero page with
/// zero-page wraparound for its own two bytes.
pub open spec fn izx_mode(s: CpuView) -> AddressingMode {
    AddressingMode::Memory(zp_word(s, cpu_load(s, s.regs.pc).wrapping_add(s.regs.x)))
}

/// Indirect indexed `(zp),Y`: the zero-page pointer is dereferenced with
/// zero-page wraparound, then Y is added; the carry may cross a page.
pub open spec fn izy_mode(s: CpuView) -> AddressingMode {
    AddressingMode::Memory(zp_word(s, cpu_load(s, s.regs.pc)).wrapping_add(s.regs.y as u16))
}

impl CPU {
    pub fn zero_page_addressing_mode(&mut self) -> (m: AddressingMode)
        requires
            cpu_wf(old(self)@),
        ensures
            cpu_wf(final(self)@),
            final(self)@ == bump_pc(old(self)@, 1),
            m == zp_mode(old(self)@),
    {
        let b = self.load_byte_increment_pc();
        AddressingMode::Memory(b as u16)
    }

    pub fn zero_page_x_addressing_mode(&mut self) -> (m: AddressingMode)
        requires
            cpu_wf(old(self)@),
        ensures
            cpu_wf(final(self)@),
            final(self)@ == bump_pc(old(self)@, 1),
            m == zpx_mode(old(self)@),
    {
        let b = self.load_byte_increment_pc();
        AddressingMode::Memory(b.wrapping_add(self.regs.x) as u16)
    }

    pub fn absolute_addressing_mode(&mut self) -> (m: AddressingMode)
        requires
            cpu_wf(old(self)@),
        ensures
            cpu_wf(final(self)@),
            final(self)@ == bump_pc(old(self)@, 2),
            m == abs_mode(old(self)@),
    {
        let w = self.load_word_increment_pc();
        AddressingMode::Memory(w)
    }

    pub fn absolute_x_addressing_mode(&mut self) -> (m: AddressingMode)
        requires
            cpu_wf(old(self)@),
        ensures
            cpu_wf(final(self)@),
            final(self)@ == bump_pc(old(self)@, 2),
            m == absx_mode(old(self)@),
    {
        let w = self.load_word_increment_pc();
        AddressingMode::Memory(w.wrapping_add(self.regs.x as u16))
    }

    pub fn absolute_y_addressing_mode(&mut self) -> (m: AddressingMode)
        requires
            cpu_wf(old(self)@),
        ensures
            cpu_wf(final(self)@),
            final(self)@ == bump_pc(old(self)@, 2),
            m == absy_mode(old(self)@),
    {
        let w = self.load_word_increment_pc();
        AddressingMode::Memory(w.wrapping_add(self.regs.y as u16))
    }

    pub fn indexed_indirect_addressing_mode(&mut self) -> (m: AddressingMode)
        requires
            cpu_wf(old(self)@),
        ensures
            cpu_wf(final(self)@),
            final(self)@ == bump_pc(old(self)@, 1),
            m == izx_mode(old(self)@),
    {
        let addr = self.load_byte_increment_pc();
        let x = self.regs.x;
        let val = self.load_word_zeropage_wraparound(addr.wrapping_add(x));
        AddressingMode::Memory(val)
    }

    pub fn indirect_indexed_addressing_mode(&mut self) -> (m: AddressingMode)
        requires
            cpu_wf(old(self)@),
        ensures
            cpu_wf(final(self)@),
            final(self)@ == bump_pc(old(self)@, 1),
            m == izy_mode(old(self)@),
    {
        let addr = self.load_byte_increment_pc();
        let y = self.regs.y;
        let val = self.load_word_zeropage_wraparound(addr);
        AddressingMode::Memory(val.wrapping_add(y as u16))
    }
}

/// The state with the accumulator replaced and Zero/Negative updated.
pub open spec fn with_a_zn(s: CpuView, v: u8) -> CpuView {
    CpuView { regs: Registers { a: v, p: set_zn_spec(s.regs.p, v), ..s.regs }, ..s }
}

/// The state with X replaced and Zero/Negative updated.
pub open spec fn with_x_zn(s: CpuView, v: u8) -> CpuView {
    CpuView { regs: Registers { x: v, p: set_zn_spec(s.regs.p, v), ..s.regs }, ..s }
}

/// The state with Y replaced and Zero/Negative updated.
pub open spec fn with_y_zn(s: CpuView, v: u8) -> CpuView {
    CpuView { regs: Registers { y: v, p: set_zn_spec(s.regs.p, v), ..s.regs }, ..s }
}

/// The state with S replaced and Zero/Negative updated.
pub open spec fn with_s_zn(s: CpuView, v: u8) -> CpuView {
    CpuView { regs: Registers { s: v, p: set_zn_spec(s.regs.p, v), ..s.regs }, ..s }
}

/// The state with one flag bit forced.
pub open spec fn with_flag(s: CpuView, flag: u8, on: bool) -> CpuView {
    CpuView { regs: Registers { p: flag_set(s.regs.p, flag, on), ..s.regs }, ..s }
}

pub open spec fn lda_spec(s: CpuView, m: AddressingMode) -> CpuView {
    with_a_zn(mode_after_load(m, s), mode_value(m, s))
}

pub open spec fn ldx_spec(s: CpuView, m: AddressingMode) -> CpuView {
    with_x_zn(mode_after_load(m, s), mode_value(m, s))
}

pub open spec fn ldy_spec(s: CpuView, m: AddressingMode) -> CpuView {
    with_y_zn(mode_after_load(m, s), mode_value(m, s))
}

pub open spec fn and_spec(s: CpuView, m: AddressingMode) -> CpuView {
    let v = mode_value(m, s);
    let s1 = mode_after_load(m, s);
    with_a_zn(s1, v & s1.regs.a)
}

pub open spec fn ora_spec(s: CpuView, m: AddressingMode) -> CpuView {
    let v = mode_value(m, s);
    let s1 = mode_after_load(m, s);
    with_a_zn(s1, v | s1.regs.a)
}

pub open spec fn eor_spec(s: CpuView, m: AddressingMode) -> CpuView {
    let v = mode_value(m, s);
    let s1 = mode_after_load(m, s);
    with_a_zn(s1, v ^ s1.regs.a)
}

pub open spec fn sta_spec(s: CpuView, m: AddressingMode) -> CpuView {
    mode_after_store(m, s, s.regs.a)
}

pub open spec fn stx_spec(s: CpuView, m: AddressingMode) -> CpuView {
    mode_after_store(m, s, s.regs.x)
}

pub open spec fn sty_spec(s: CpuView, m: AddressingMode) -> CpuView {
    mode_after_store(m, s, s.regs.y)
}

/// ADC: A + operand + Carry in a wide accumulator.  Carry is bit 8 of
/// the sum; Overflow holds when both operands share a sign that differs
/// from the result's sign; decimal mode is never applied.
pub open spec fn adc_spec(s: CpuView, m: AddressingMode) -> CpuView {
    let v = mode_value(m, s);
    let s1 = mode_after_load(m, s);
    let a = s1.regs.a;
    let c: int = if s1.regs.p & F_CARRY != 0 {
        1
    } else {
        0
    };
    let sum = a + v + c;
    let r = (sum % 256) as u8;
    let p1 = flag_set(s1.regs.p, F_CARRY, sum >= 0x100);
    let p2 = flag_set(p1, F_OVERFLOW, (a ^ v) & 0x80 == 0 && (a ^ r) & 0x80 != 0);
    CpuView { regs: Registers { a: r, p: set_zn_spec(p2, r), ..s1.regs }, ..s1 }
}

/// SBC: A - operand - (1 - Carry).  Overflow holds when A disagrees in
/// sign with both the operand and the result; Carry is clear exactly
/// when the subtraction borrows.
pub open spec fn sbc_spec(s: CpuView, m: AddressingMode) -> CpuView {
    let v = mode_value(m, s);
    let s1 = mode_after_load(m, s);
    let a = s1.regs.a;
    let borrow: u8 = if s1.regs.p & F_CARRY != 0 {
        0
    } else {
        1
    };
    let r = a.wrapping_sub(v).wrapping_sub(borrow);
    let p1 = flag_set(s1.regs.p, F_OVERFLOW, (a ^ r) & 0x80 != 0 && (a ^ v) & 0x80 != 0);
    let p2 = flag_set(p1, F_CARRY, a >= v + borrow);
    CpuView { regs: Registers { a: r, p: set_zn_spec(p2, r), ..s1.regs }, ..s1 }
}

pub open spec fn asl_spec(s: CpuView, m: AddressingMode) -> CpuView {
    let v = mode_value(m, s);
    let s1 = mode_after_load(m, s);
    let r = shl1(v, false);
    let p = set_zn_spec(flag_set(s1.regs.p, F_CARRY, v & 0x80 != 0), r);
    mode_after_store(m, CpuView { regs: Registers { p, ..s1.regs }, ..s1 }, r)
}

pub open spec fn rol_spec(s: CpuView, m: AddressingMode) -> CpuView {
    let v = mode_value(m, s);
    let s1 = mode_after_load(m, s);
    let r = shl1(v, s1.regs.p & F_CARRY != 0);
    let p = set_zn_spec(flag_set(s1.regs.p, F_CARRY, v & 0x80 != 0), r);
    mode_after_store(m, CpuView { regs: Registers { p, ..s1.regs }, ..s1 }, r)
}

pub open spec fn lsr_spec(s: CpuView, m: AddressingMode) -> CpuView {
    let v = mode_value(m, s);
    let s1 = mode_after_load(m, s);
    let r = shr1(v, false);
    let p = set_zn_spec(flag_set(s1.regs.p, F_CARRY, v % 2 == 1), r);
    mode_after_store(m, CpuView { regs: Registers { p, ..s1.regs }, ..s1 }, r)
}

pub open spec fn ror_spec(s: CpuView, m: AddressingMode) -> CpuView {
    let v = mode_value(m, s);
    let s1 = mode_after_load(m, s);
    let r = shr1(v, s1.regs.p & F_CARRY != 0);
    let p = set_zn_spec(flag_set(s1.regs.p, F_CARRY, v % 2 == 1), r);
    mode_after_store(m, CpuView { regs: Registers { p, ..s1.regs }, ..s1 }, r)
}

pub open spec fn inc_spec(s: CpuView, m: AddressingMode) -> CpuView {
    let v = mode_value(m, s);
    let s1 = mode_after_load(m, s);
    let r = v.wrapping_add(1);
    let p = set_zn_spec(s1.regs.p, r);
    mode_after_store(m, CpuView { regs: Registers { p, ..s1.regs }, ..s1 }, r)
}

pub open spec fn dec_spec(s: CpuView, m: AddressingMode) -> CpuView {
    let v = mode_value(m, s);
    let s1 = mode_after_load(m, s);
    let r = v.wrapping_sub(1);
    let p = set_zn_spec(s1.regs.p, r);
    mode_after_store(m, CpuView { regs: Registers { p, ..s1.regs }, ..s1 }, r)
}

/// BIT: Zero from operand AND A; Negative and Overflow copied from the
/// operand's bits 7 and 6.
pub open spec fn bit_spec(s: CpuView, m: AddressingMode) -> CpuView {
    let v = mode_value(m, s);
    let s1 = mode_after_load(m, s);
    let p = flag_set(
        flag_set(flag_set(s1.regs.p, F_ZERO, v & s1.regs.a == 0), F_NEGATIVE, v & 0x80 != 0),
        F_OVERFLOW,
        v & 0x40 != 0,
    );
    CpuView { regs: Registers { p, ..s1.regs }, ..s1 }
}

/// Compare: Carry iff the register is at least the operand (unsigned);
/// Zero and Negative from the low byte of the difference.
pub open spec fn compare_spec(s: CpuView, r: u8, m: AddressingMode) -> CpuView {
    let v = mode_value(m, s);
    let s1 = mode_after_load(m, s);
    let p = set_zn_spec(flag_set(s1.regs.p, F_CARRY, r >= v), r.wrapping_sub(v));
    CpuView { regs: Registers { p, ..s1.regs }, ..s1 }
}

/// A branch always consumes its displacement byte; it adds the
/// sign-extended displacement to the program counter only if the
/// condition holds.
pub open spec fn branch_spec(s: CpuView, cond: bool) -> CpuView {
    let o = cpu_load(s, s.regs.pc);
    let s1 = bump_pc(s, 1);
    if cond {
        CpuView {
            regs: Registers { pc: s1.regs.pc.wrapping_add(sign_extend(o)), ..s1.regs },
            ..s1
        }
    } else {
        s1
    }
}

pub open spec fn jmp_spec(s: CpuView) -> CpuView {
    CpuView { regs: Registers { pc: pc_word(s), ..s.regs }, ..s }
}

/// Indirect JMP: the operand is the address of a 16-bit pointer; the
/// pointer's second byte comes from the next address, wrapping only at
/// the top of the address space (the classic page-boundary fetch quirk
/// is deliberately not reproduced).
pub open spec fn jmp_indirect_spec(s: CpuView) -> CpuView {
    let addr = pc_word(s);
    let t = word_le(cpu_load(s, addr), cpu_load(s, addr.wrapping_add(1)));
    CpuView { regs: Registers { pc: t, ..s.regs }, ..s }
}

pub open spec fn jsr_spec(s: CpuView) -> CpuView {
    let t = pc_word(s);
    let s1 = bump_pc(s, 2);
    let s2 = push_word_spec(s1, s1.regs.pc.wrapping_sub(1));
    CpuView { regs: Registers { pc: t, ..s2.regs }, ..s2 }
}

pub open spec fn rts_spec(s: CpuView) -> CpuView {
    let w = pop_word_value(s);
    let s1 = pop_word_spec(s);
    CpuView { regs: Registers { pc: w.wrapping_add(1), ..s1.regs }, ..s1 }
}

/// RTI pops the flag byte (masked to the hardware pattern), then the
/// program counter.
pub open spec fn rti_spec(s: CpuView) -> CpuView {
    let f = pop_value(s);
    let s1 = pop_spec(s);
    let s2 = CpuView { regs: Registers { p: set_flags_spec(f), ..s1.regs }, ..s1 };
    let w = pop_word_value(s2);
    let s3 = pop_word_spec(s2);
    CpuView { regs: Registers { pc: w, ..s3.regs }, ..s3 }
}

/// BRK pushes PC+1 (skipping the padding byte), then the flag byte with
/// Break forced set, sets Break in the live flags, and vectors through
/// 0xFFFE.
pub open spec fn brk_spec(s: CpuView) -> CpuView {
    let s1 = push_word_spec(s, s.regs.pc.wrapping_add(1));
    let s2 = push_spec(s1, s.regs.p | F_BREAK);
    let s3 = with_flag(s2, F_BREAK, true);
    let t = word_le(cpu_load(s3, BRK_VECTOR), cpu_load(s3, 0xFFFF));
    CpuView { regs: Registers { pc: t, ..s3.regs }, ..s3 }
}

pub open spec fn pha_spec(s: CpuView) -> CpuView {
    push_spec(s, s.regs.a)
}

pub open spec fn php_spec(s: CpuView) -> CpuView {
    push_spec(s, s.regs.p)
}

pub open spec fn pla_spec(s: CpuView) -> CpuView {
    with_a_zn(pop_spec(s), pop_value(s))
}

/// PLP restores the popped flag byte through the same hardware mask as
/// RTI: bit 5 always reads 1 and bit 4 reads 0.
pub open spec fn plp_spec(s: CpuView) -> CpuView {
    CpuView { regs: Registers { s: pop_s(s), p: set_flags_spec(pop_value(s)), ..s.regs }, ..s }
}

/// Reset: the program counter is loaded from the reset vector; S drops
/// by 3 (wrapping) and interrupts are disabled.  No other register is
/// cleared.
pub open spec fn reset_spec(s: CpuView) -> CpuView {
    CpuView {
        regs: Registers {
            pc: word_le(cpu_load(s, RESET_VECTOR), cpu_load(s, 0xFFFD)),
            s: s.regs.s.wrapping_sub(3),
            p: s.regs.p | F_INTERRUPT,
            ..s.regs
        },
        ..s
    }
}

impl CPU {
    pub fn reset(&mut self)
        requires
            cpu_wf(old(self)@),
        ensures
            cpu_wf(final(self)@),
            final(self)@ == reset_spec(old(self)@),
    {
        self.regs.pc = self.load_word(RESET_VECTOR);
        self.regs.s = self.regs.s.wrapping_sub(3);
        self.regs.p = self.regs.p | F_INTERRUPT;
    }

    pub fn branch(&mut self, condition: bool)
        requires
            cpu_wf(old(self)@),
        ensures
            cpu_wf(final(self)@),
            final(self)@ == branch_spec(old(self)@, condition),
    {
        let offset = self.load_byte_increment_pc();
        if condition {
            let delta: u16 = if offset < 0x80 {
                offset as u16
            } else {
                offset as u16 + 0xFF00
            };
            self.regs.pc = self.regs.pc.wrapping_add(delta);
        }
    }

    pub fn compare(&mut self, register: u8, mode: AddressingMode)
        requires
            cpu_wf(old(self)@),
        ensures
            cpu_wf(final(self)@),
            final(self)@ == compare_spec(old(self)@, register, mode),
    {
        let val = self.mode_load(mode);
        let result = register.wrapping_sub(val);
        self.set_flag(F_CARRY, register >= val);
        self.set_zn(result);
    }

    /// Explicit no-op, also the meaning given to the tolerated unofficial
    /// opcodes.
    pub fn noop(&self) {
    }

    pub fn brk(&mut self)
        requires
            cpu_wf(old(self)@),
        ensures
            cpu_wf(final(self)@),
            final(self)@ == brk_spec(old(self)@),
    {
        let pc = self.regs.pc;
        let p = self.regs.p;
        self.push_word(pc.wrapping_add(1));
        self.push_byte(p | F_BREAK);
        self.set_flag(F_BREAK, true);
        self.regs.pc = self.load_word(BRK_VECTOR);
    }

    pub fn sei(&mut self)
        ensures
            final(self)@ == with_flag(old(self)@, F_INTERRUPT, true),
    {
        self.set_flag(F_INTERRUPT, true);
    }

    pub fn sec(&mut self)
        ensures
            final(self)@ == with_flag(old(self)@, F_CARRY, true),
    {
        self.set_flag(F_CARRY, true);
    }

    pub fn sed(&mut self)
        ensures
            final(self)@ == with_flag(old(self)@, F_DECIMAL, true),
    {
        self.set_flag(F_DECIMAL, true);
    }

    pub fn cld(&mut self)
        ensures
            final(self)@ == with_flag(old(self)@, F_DECIMAL, false),
    {
        self.set_flag(F_DECIMAL, false);
    }

    pub fn cli(&mut self)
        ensures
            final(self)@ == with_flag(old(self)@, F_INTERRUPT, false),
    {
        self.set_flag(F_INTERRUPT, false);
    }

    pub fn clc(&mut self)
        ensures
            final(self)@ == with_flag(old(self)@, F_CARRY, false),
    {
        self.set_flag(F_CARRY, false);
    }

    pub fn clv(&mut self)
        ensures
            final(self)@ == with_flag(old(self)@, F_OVERFLOW, false),
    {
        self.set_flag(F_OVERFLOW, false);
    }

    pub fn eor(&mut self, mode: AddressingMode)
        requires
            cpu_wf(old(self)@),
        ensures
            cpu_wf(final(self)@),
            final(self)@ == eor_spec(old(self)@, mode),
    {
        let v = self.mode_load(mode);
        let result = v ^ self.regs.a;
        self.regs.a = self.set_zn(result);
    }

    pub fn jmp(&mut self)
        requires
            cpu_wf(old(self)@),
        ensures
            cpu_wf(final(self)@),
            final(self)@ == jmp_spec(old(self)@),
    {
        let operand = self.load_word_increment_pc();
        self.regs.pc = operand;
    }

    pub fn jmp_indirect(&mut self)
        requires
            cpu_wf(old(self)@),
        ensures
            cpu_wf(final(self)@),
            final(self)@ == jmp_indirect_spec(old(self)@),
    {
        let addr = self.load_word_increment_pc();
        let destination = self.load_word(addr);
        self.regs.pc = destination;
    }

    pub fn and(&mut self, mode: AddressingMode)
        requires
            cpu_wf(old(self)@),
        ensures
            cpu_wf(final(self)@),
            final(self)@ == and_spec(old(self)@, mode),
    {
        let v = self.mode_load(mode);
        let val = v & self.regs.a;
        self.regs.a = self.set_zn(val);
    }

    pub fn ora(&mut self, mode: AddressingMode)
        requires
            cpu_wf(old(self)@),
        ensures
            cpu_wf(final(self)@),
            final(self)@ == ora_spec(old(self)@, mode),
    {
        let v = self.mode_load(mode);
        let val = v | self.regs.a;
        self.regs.a = self.set_zn(val);
    }

    /// The halt instruction stops the clock on hardware; here it leaves
    /// the machine unchanged and the driver decides whether to go on.
    pub fn hlt(&mut self)
        ensures
            final(self)@ == old(self)@,
    {
    }

    pub fn sta(&mut self, mode: AddressingMode)
        requires
            cpu_wf(old(self)@),
            mode_writable(mode),
        ensures
            cpu_wf(final(self)@),
            final(self)@ == sta_spec(old(self)@, mode),
    {
        let a = self.regs.a;
        self.mode_store(mode, a);
    }

    pub fn stx(&mut self, mode: AddressingMode)
        requires
            cpu_wf(old(self)@),
            mode_writable(mode),
        ensures
            cpu_wf(final(self)@),
            final(self)@ == stx_spec(old(self)@, mode),
    {
        let x = self.regs.x;
        self.mode_store(mode, x);
    }

    pub fn sty(&mut self, mode: AddressingMode)
        requires
            cpu_wf(old(self)@),
            mode_writable(mode),
        ensures
            cpu_wf(final(self)@),
            final(self)@ == sty_spec(old(self)@, mode),
    {
        let y = self.regs.y;
        self.mode_store(mode, y);
    }

    pub fn lda(&mut self, mode: AddressingMode)
        requires
            cpu_wf(old(self)@),
        ensures
            cpu_wf(final(self)@),
            final(self)@ == lda_spec(old(self)@, mode),
    {
        let val = self.mode_load(mode);
        self.regs.a = self.set_zn(val);
    }

    pub fn ldx(&mut self, mode: AddressingMode)
        requires
            cpu_wf(old(self)@),
        ensures
            cpu_wf(final(self)@),
            final(self)@ == ldx_spec(old(self)@, mode),
    {
        let val = self.mode_load(mode);
        self.regs.x = self.set_zn(val);
    }

    pub fn ldy(&mut self, mode: AddressingMode)
        requires
            cpu_wf(old(self)@),
        ensures
            cpu_wf(final(self)@),
            final(self)@ == ldy_spec(old(self)@, mode),
    {
        let val = self.mode_load(mode);
        self.regs.y = self.set_zn(val);
    }

    pub fn pha(&mut self)
        requires
            cpu_wf(old(self)@),
        ensures
            cpu_wf(final(self)@),
            final(self)@ == pha_spec(old(self)@),
    {
        let a = self.regs.a;
        self.push_byte(a);
    }

    pub fn jsr(&mut self)
        requires
            cpu_wf(old(self)@),
        ensures
            cpu_wf(final(self)@),
            final(self)@ == jsr_spec(old(self)@),
    {
        let addr = self.load_word_increment_pc();
        let pc = self.regs.pc;
        self.push_word(pc.wrapping_sub(1));
        self.regs.pc = addr;
    }

    pub fn tya(&mut self)
        ensures
            final(self)@ == with_a_zn(old(self)@, old(self)@.regs.y),
    {
        let y = self.regs.y;
        self.regs.a = self.set_zn(y);
    }

    pub fn txs(&mut self)
        ensures
            final(self)@ == with_s_zn(old(self)@, old(self)@.regs.x),
    {
        let x = self.regs.x;
        self.regs.s = self.set_zn(x);
    }

    pub fn txa(&mut self)
        ensures
            final(self)@ == with_a_zn(old(self)@, old(self)@.regs.x),
    {
        let x = self.regs.x;
        self.regs.a = self.set_zn(x);
    }

    pub fn tax(&mut self)
        ensures
            final(self)@ == with_x_zn(old(self)@, old(self)@.regs.a),
    {
        let a = self.regs.a;
        self.regs.x = self.set_zn(a);
    }

    pub fn tay(&mut self)
        ensures
            final(self)@ == with_y_zn(old(self)@, old(self)@.regs.a),
    {
        let a = self.regs.a;
        self.regs.y = self.set_zn(a);
    }

    pub fn tsx(&mut self)
        ensures
            final(self)@ == with_x_zn(old(self)@, old(self)@.regs.s),
    {
        let s = self.regs.s;
        self.regs.x = self.set_zn(s);
    }

    pub fn inx(&mut self)
        ensures
            final(self)@ == with_x_zn(old(self)@, old(self)@.regs.x.wrapping_add(1)),
    {
        let x = self.regs.x;
        self.regs.x = self.set_zn(x.wrapping_add(1));
    }

    pub fn iny(&mut self)
        ensures
            final(self)@ == with_y_zn(old(self)@, old(self)@.regs.y.wrapping_add(1)),
    {
        let y = self.regs.y;
        self.regs.y = self.set_zn(y.wrapping_add(1));
    }

    pub fn dex(&mut self)
        ensures
            final(self)@ == with_x_zn(old(self)@, old(self)@.regs.x.wrapping_sub(1)),
    {
        let x = self.regs.x;
        self.regs.x = self.set_zn(x.wrapping_sub(1));
    }

    pub fn dey(&mut self)
        ensures
            final(self)@ == with_y_zn(old(self)@, old(self)@.regs.y.wrapping_sub(1)),
    {
        let y = self.regs.y;
        self.regs.y = self.set_zn(y.wrapping_sub(1));
    }

    pub fn dec(&mut self, mode: AddressingMode)
        requires
            cpu_wf(old(self)@),
            mode_writable(mode),
        ensures
            cpu_wf(final(self)@),
            final(self)@ == dec_spec(old(self)@, mode),
    {
        let val = self.mode_load(mode);
        let val2 = self.set_zn(val.wrapping_sub(1));
        self.mode_store(mode, val2);
    }

    pub fn inc(&mut self, mode: AddressingMode)
        requires
            cpu_wf(old(self)@),
            mode_writable(mode),
        ensures
            cpu_wf(final(self)@),
            final(self)@ == inc_spec(old(self)@, mode),
    {
        let val = self.mode_load(mode);
        let val2 = self.set_zn(val.wrapping_add(1));
        self.mode_store(mode, val2);
    }

    pub fn bne(&mut self)
        requires
            cpu_wf(old(self)@),
        ensures
            cpu_wf(final(self)@),
            final(self)@ == branch_spec(old(self)@, old(self)@.regs.p & F_ZERO == 0),
    {
        let flag = self.get_flag(F_ZERO);
        self.branch(!flag);
    }

    pub fn beq(&mut self)
        requires
            cpu_wf(old(self)@),
        ensures
            cpu_wf(final(self)@),
            final(self)@ == branch_spec(old(self)@, old(self)@.regs.p & F_ZERO != 0),
    {
        let flag = self.get_flag(F_ZERO);
        self.branch(flag);
    }

    pub fn bmi(&mut self)
        requires
            cpu_wf(old(self)@),
        ensures
            cpu_wf(final(self)@),
            final(self)@ == branch_spec(old(self)@, old(self)@.regs.p & F_NEGATIVE != 0),
    {
        let flag = self.get_flag(F_NEGATIVE);
        self.branch(flag);
    }

    pub fn bcs(&mut self)
        requires
            cpu_wf(old(self)@),
        ensures
            cpu_wf(final(self)@),
            final(self)@ == branch_spec(old(self)@, old(self)@.regs.p & F_CARRY != 0),
    {
        let flag = self.get_flag(F_CARRY);
        self.branch(flag);
    }

    pub fn bvs(&mut self)
        requires
            cpu_wf(old(self)@),
        ensures
            cpu_wf(final(self)@),
            final(self)@ == branch_spec(old(self)@, old(self)@.regs.p & F_OVERFLOW != 0),
    {
        let flag = self.get_flag(F_OVERFLOW);
        self.branch(flag);
    }

    pub fn bcc(&mut self)
        requires
            cpu_wf(old(self)@),
        ensures
            cpu_wf(final(self)@),
            final(self)@ == branch_spec(old(self)@, old(self)@.regs.p & F_CARRY == 0),
    {
        let flag = self.get_flag(F_CARRY);
        self.branch(!flag);
    }

    pub fn bpl(&mut self)
        requires
            cpu_wf(old(self)@),
        ensures
            cpu_wf(final(self)@),
            final(self)@ == branch_spec(old(self)@, old(self)@.regs.p & F_NEGATIVE == 0),
    {
        let flag = self.get_flag(F_NEGATIVE);
        self.branch(!flag);
    }

    pub fn cmp(&mut self, mode: AddressingMode)
        requires
            cpu_wf(old(self)@),
        ensures
            cpu_wf(final(self)@),
            final(self)@ == compare_spec(old(self)@, old(self)@.regs.a, mode),
    {
        let a = self.regs.a;
        self.compare(a, mode);
    }

    pub fn cpx(&mut self, mode: AddressingMode)
        requires
            cpu_wf(old(self)@),
        ensures
            cpu_wf(final(self)@),
            final(self)@ == compare_spec(old(self)@, old(self)@.regs.x, mode),
    {
        let x = self.regs.x;
        self.compare(x, mode);
    }

    pub fn cpy(&mut self, mode: AddressingMode)
        requires
            cpu_wf(old(self)@),
        ensures
            cpu_wf(final(self)@),
            final(self)@ == compare_spec(old(self)@, old(self)@.regs.y, mode),
    {
        let y = self.regs.y;
        self.compare(y, mode);
    }

    pub fn sbc(&mut self, mode: AddressingMode)
        requires
            cpu_wf(old(self)@),
        ensures
            cpu_wf(final(self)@),
            final(self)@ == sbc_spec(old(self)@, mode),
    {
        let val = self.mode_load(mode);
        let a = self.regs.a;
        let borrow: u8 = if self.get_flag(F_CARRY) {
            0
        } else {
            1
        };
        let r = a.wrapping_sub(val).wrapping_sub(borrow);
        self.set_flag(F_OVERFLOW, (a ^ r) & 0x80 != 0 && (a ^ val) & 0x80 != 0);
        self.set_flag(F_CARRY, (a as u16) >= (val as u16) + (borrow as u16));
        self.regs.a = self.set_zn(r);
    }

    pub fn rti(&mut self)
        requires
            cpu_wf(old(self)@),
        ensures
            cpu_wf(final(self)@),
            final(self)@ == rti_spec(old(self)@),
    {
        let flags = self.pop_byte();
        self.set_flags(flags);
        self.regs.pc = self.pop_word();
    }

    pub fn rts(&mut self)
        requires
            cpu_wf(old(self)@),
        ensures
            cpu_wf(final(self)@),
            final(self)@ == rts_spec(old(self)@),
    {
        let pc = self.pop_word();
        self.regs.pc = pc.wrapping_add(1);
    }

    pub fn bit(&mut self, mode: AddressingMode)
        requires
            cpu_wf(old(self)@),
        ensures
            cpu_wf(final(self)@),
            final(self)@ == bit_spec(old(self)@, mode),
    {
        let val = self.mode_load(mode);
        let a = self.regs.a;
        self.set_flag(F_ZERO, (val & a) == 0);
        self.set_flag(F_NEGATIVE, (val & 0x80) != 0);
        self.set_flag(F_OVERFLOW, (val & 0x40) != 0);
    }

    pub fn rol(&mut self, mode: AddressingMode)
        requires
            cpu_wf(old(self)@),
            mode_writable(mode),
        ensures
            cpu_wf(final(self)@),
            final(self)@ == rol_spec(old(self)@, mode),
    {
        let val = self.mode_load(mode);
        let carry = self.get_flag(F_CARRY);
        let new_carry = (val & 0x80) > 0;
        let cin: u16 = if carry {
            1
        } else {
            0
        };
        let wide: u16 = (val as u16) * 2 + cin;
        self.set_flag(F_CARRY, new_carry);
        let val2 = self.set_zn((wide % 256) as u8);
        self.mode_store(mode, val2);
    }

    pub fn ror(&mut self, mode: AddressingMode)
        requires
            cpu_wf(old(self)@),
            mode_writable(mode),
        ensures
            cpu_wf(final(self)@),
            final(self)@ == ror_spec(old(self)@, mode),
    {
        let val = self.mode_load(mode);
        let carry = self.get_flag(F_CARRY);
        self.set_flag(F_CARRY, val % 2 == 1);
        let base = val / 2;
        let val2 = self.set_zn(
            if carry {
                base + 0x80
            } else {
                base
            },
        );
        self.mode_store(mode, val2);
    }

    pub fn lsr(&mut self, mode: AddressingMode)
        requires
            cpu_wf(old(self)@),
            mode_writable(mode),
        ensures
            cpu_wf(final(self)@),
            final(self)@ == lsr_spec(old(self)@, mode),
    {
        let val = self.mode_load(mode);
        self.set_flag(F_CARRY, val % 2 == 1);
        let val2 = self.set_zn(val / 2);
        self.mode_store(mode, val2);
    }

    pub fn pla(&mut self)
        requires
            cpu_wf(old(self)@),
        ensures
            cpu_wf(final(self)@),
            final(self)@ == pla_spec(old(self)@),
    {
        let val = self.pop_byte();
        self.regs.a = self.set_zn(val);
    }

    pub fn plp(&mut self)
        requires
            cpu_wf(old(self)@),
        ensures
            cpu_wf(final(self)@),
            final(self)@ == plp_spec(old(self)@),
    {
        let val = self.pop_byte();
        self.set_flags(val);
    }

    pub fn php(&mut self)
        requires
            cpu_wf(old(self)@),
        ensures
            cpu_wf(final(self)@),
            final(self)@ == php_spec(old(self)@),
    {
        let flags = self.regs.p;
        self.push_byte(flags);
    }

    pub fn asl(&mut self, mode: AddressingMode)
        requires
            cpu_wf(old(self)@),
            mode_writable(mode),
        ensures
            cpu_wf(final(self)@),
            final(self)@ == asl_spec(old(self)@, mode),
    {
        let val = self.mode_load(mode);
        self.set_flag(F_CARRY, (val & 0x80) != 0);
        let wide: u16 = (val as u16) * 2;
        let val2 = self.set_zn((wide % 256) as u8);
        self.mode_store(mode, val2);
    }

    pub fn adc(&mut self, mode: AddressingMode)
        requires
            cpu_wf(old(self)@),
        ensures
            cpu_wf(final(self)@),
            final(self)@ == adc_spec(old(self)@, mode),
    {
        let val = self.mode_load(mode);
        let c: u16 = if self.get_flag(F_CARRY) {
            1
        } else {
            0
        };
        let sum: u16 = (self.regs.a as u16) + (val as u16) + c;
        self.set_flag(F_CARRY, sum >= 0x100);
        let r = (sum % 256) as u8;
        let a = self.regs.a;
        self.set_flag(F_OVERFLOW, (a ^ val) & 0x80 == 0 && (a ^ r) & 0x80 != 0);
        self.regs.a = self.set_zn(r);
    }
}

/// The opcodes the decoder implements: the official subset the core
/// supports plus the unofficial opcodes that are tolerated as explicit
/// no-ops.  Any other opcode has no defined meaning and the driver must
/// abort before stepping over it.
pub open spec fn is_implemented(op: u8) -> bool {
    match op {
        0x00 | 0x01 | 0x02 | 0x05 | 0x06 | 0x08 | 0x09 | 0x0A | 0x0B | 0x0D => true,
        0x10 | 0x11 | 0x15 | 0x17 | 0x18 | 0x19 | 0x1A | 0x1C | 0x1D => true,
        0x20 | 0x21 | 0x24 | 0x26 | 0x28 | 0x29 | 0x2A | 0x2C => true,
        0x30 | 0x32 | 0x38 | 0x3A => true,
        0x40 | 0x41 | 0x44 | 0x45 | 0x46 | 0x48 | 0x49 | 0x4A | 0x4C | 0x4D => true,
        0x54 | 0x58 | 0x5A | 0x5C | 0x5D => true,
        0x60 | 0x66 | 0x68 | 0x69 | 0x6A | 0x6B | 0x6C => true,
        0x70 | 0x78 | 0x7A | 0x7C => true,
        0x80 | 0x81 | 0x84 | 0x85 | 0x86 | 0x88 | 0x8A | 0x8C | 0x8D | 0x8E => true,
        0x90 | 0x91 | 0x95 | 0x98 | 0x99 | 0x9A | 0x9D => true,
        0xA0 | 0xA2 | 0xA4 | 0xA5 | 0xA6 | 0xA8 | 0xA9 | 0xAA | 0xAC | 0xAD | 0xAE => true,
        0xB0 | 0xB1 | 0xB5 | 0xB8 | 0xB9 | 0xBA | 0xBD => true,
        0xC0 | 0xC4 | 0xC8 | 0xC9 | 0xCA => true,
        0xD0 | 0xD8 | 0xD9 | 0xDA | 0xDD | 0xDE => true,
        0xE0 | 0xE3 | 0xE6 | 0xE8 | 0xE9 | 0xEA | 0xEB | 0xED => true,
        0xF0 | 0xF1 | 0xF8 | 0xF9 | 0xFA | 0xFB | 0xFC | 0xFE | 0xFF => true,
        _ => false,
    }
}

pub open spec fn instr_group_00(s: CpuView, op: u8) -> CpuView {
    match op {
        0x00 => brk_spec(s),
        0x01 => ora_spec(bump_pc(s, 1), izx_mode(s)),
        0x02 => s,
        0x05 => ora_spec(bump_pc(s, 1), zp_mode(s)),
        0x06 => asl_spec(bump_pc(s, 1), zp_mode(s)),
        0x08 => php_spec(s),
        0x09 => ora_spec(s, AddressingMode::Immediate),
        0x0A => asl_spec(s, AddressingMode::Accumulator),
        0x0D => ora_spec(bump_pc(s, 2), abs_mode(s)),
        0x10 => branch_spec(s, s.regs.p & F_NEGATIVE == 0),
        0x11 => ora_spec(bump_pc(s, 1), izy_mode(s)),
        0x15 => ora_spec(bump_pc(s, 1), zpx_mode(s)),
        0x18 => with_flag(s, F_CARRY, false),
        0x19 => ora_spec(bump_pc(s, 2), absy_mode(s)),
        0x1D => ora_spec(bump_pc(s, 2), absx_mode(s)),
        _ => s,
    }
}

pub open spec fn instr_group_20(s: CpuView, op: u8) -> CpuView {
    match op {
        0x20 => jsr_spec(s),
        0x21 => and_spec(bump_pc(s, 1), izx_mode(s)),
        0x24 => bit_spec(bump_pc(s, 1), zp_mode(s)),
        0x26 => rol_spec(bump_pc(s, 1), zp_mode(s)),
        0x28 => plp_spec(s),
        0x29 => and_spec(s, AddressingMode::Immediate),
        0x2A => rol_spec(s, AddressingMode::Accumulator),
        0x2C => bit_spec(bump_pc(s, 2), abs_mode(s)),
        0x30 => branch_spec(s, s.regs.p & F_NEGATIVE != 0),
        0x32 => s,
        0x38 => with_flag(s, F_CARRY, true),
        _ => s,
    }
}

pub open spec fn instr_group_40(s: CpuView, op: u8) -> CpuView {
    match op {
        0x40 => rti_spec(s),
        0x41 => eor_spec(bump_pc(s, 1), izx_mode(s)),
        0x45 => eor_spec(bump_pc(s, 1), zp_mode(s)),
        0x46 => lsr_spec(bump_pc(s, 1), zp_mode(s)),
        0x48 => pha_spec(s),
        0x49 => eor_spec(s, AddressingMode::Immediate),
        0x4A => lsr_spec(s, AddressingMode::Accumulator),
        0x4C => jmp_spec(s),
        0x4D => eor_spec(bump_pc(s, 2), abs_mode(s)),
        0x58 => with_flag(s, F_INTERRUPT, false),
        0x5D => eor_spec(bump_pc(s, 2), absx_mode(s)),
        _ => s,
    }
}

pub open spec fn instr_group_60(s: CpuView, op: u8) -> CpuView {
    match op {
        0x60 => rts_spec(s),
        0x66 => ror_spec(bump_pc(s, 1), zp_mode(s)),
        0x68 => pla_spec(s),
        0x69 => adc_spec(s, AddressingMode::Immediate),
        0x6A => ror_spec(s, AddressingMode::Accumulator),
        0x6C => jmp_indirect_spec(s),
        0x70 => branch_spec(s, s.regs.p & F_OVERFLOW != 0),
        0x78 => with_flag(s, F_INTERRUPT, true),
        _ => s,
    }
}

pub open spec fn instr_group_80(s: CpuView, op: u8) -> CpuView {
    match op {
        0x81 => sta_spec(bump_pc(s, 1), izx_mode(s)),
        0x84 => sty_spec(bump_pc(s, 1), zp_mode(s)),
        0x85 => sta_spec(bump_pc(s, 1), zp_mode(s)),
        0x86 => stx_spec(bump_pc(s, 1), zp_mode(s)),
        0x88 => with_y_zn(s, s.regs.y.wrapping_sub(1)),
        0x8A => with_a_zn(s, s.regs.x),
        0x8C => sty_spec(bump_pc(s, 2), abs_mode(s)),
        0x8D => sta_spec(bump_pc(s, 2), abs_mode(s)),
        0x8E => stx_spec(bump_pc(s, 2), abs_mode(s)),
        0x90 => branch_spec(s, s.regs.p & F_CARRY == 0),
        0x91 => sta_spec(bump_pc(s, 1), izy_mode(s)),
        0x95 => sta_spec(bump_pc(s, 1), zpx_mode(s)),
        0x98 => with_a_zn(s, s.regs.y),
        0x99 => sta_spec(bump_pc(s, 2), absy_mode(s)),
        0x9A => with_s_zn(s, s.regs.x),
        0x9D => sta_spec(bump_pc(s, 2), absx_mode(s)),
        _ => s,
    }
}

pub open spec fn instr_group_a0(s: CpuView, op: u8) -> CpuView {
    match op {
        0xA0 => ldy_spec(s, AddressingMode::Immediate),
        0xA2 => ldx_spec(s, AddressingMode::Immediate),
        0xA4 => ldy_spec(bump_pc(s, 1), zp_mode(s)),
        0xA5 => lda_spec(bump_pc(s, 1), zp_mode(s)),
        0xA6 => ldx_spec(bump_pc(s, 1), zp_mode(s)),
        0xA8 => with_y_zn(s, s.regs.a),
        0xA9 => lda_spec(s, AddressingMode::Immediate),
        0xAA => with_x_zn(s, s.regs.a),
        0xAC => ldy_spec(bump_pc(s, 2), abs_mode(s)),
        0xAD => lda_spec(bump_pc(s, 2), abs_mode(s)),
        0xAE => ldx_spec(bump_pc(s, 2), abs_mode(s)),
        0xB0 => branch_spec(s, s.regs.p & F_CARRY != 0),
        0xB1 => lda_spec(bump_pc(s, 1), izy_mode(s)),
        0xB5 => lda_spec(bump_pc(s, 1), zpx_mode(s)),
        0xB8 => with_flag(s, F_OVERFLOW, false),
        0xB9 => lda_spec(bump_pc(s, 2), absy_mode(s)),
        0xBA => with_x_zn(s, s.regs.s),
        0xBD => lda_spec(bump_pc(s, 2), absx_mode(s)),
        _ => s,
    }
}

pub open spec fn instr_group_c0(s: CpuView, op: u8) -> CpuView {
    match op {
        0xC0 => compare_spec(s, s.regs.y, AddressingMode::Immediate),
        0xC4 => compare_spec(bump_pc(s, 1), s.regs.y, zp_mode(s)),
        0xC8 => with_y_zn(s, s.regs.y.wrapping_add(1)),
        0xC9 => compare_spec(s, s.regs.a, AddressingMode::Immediate),
        0xCA => with_x_zn(s, s.regs.x.wrapping_sub(1)),
        0xD0 => branch_spec(s, s.regs.p & F_ZERO == 0),
        0xD8 => with_flag(s, F_DECIMAL, false),
        0xD9 => compare_spec(bump_pc(s, 2), s.regs.a, absy_mode(s)),
        0xDD => compare_spec(bump_pc(s, 2), s.regs.a, absx_mode(s)),
        0xDE => dec_spec(bump_pc(s, 2), absx_mode(s)),
        _ => s,
    }
}

pub open spec fn instr_group_e0(s: CpuView, op: u8) -> CpuView {
    match op {
        0xE0 => compare_spec(s, s.regs.x, AddressingMode::Immediate),
        0xE6 => inc_spec(bump_pc(s, 1), zp_mode(s)),
        0xE8 => with_x_zn(s, s.regs.x.wrapping_add(1)),
        0xE9 => sbc_spec(s, AddressingMode::Immediate),
        0xEB => sbc_spec(s, AddressingMode::Immediate),
        0xED => sbc_spec(bump_pc(s, 2), abs_mode(s)),
        0xF0 => branch_spec(s, s.regs.p & F_ZERO != 0),
        0xF1 => sbc_spec(bump_pc(s, 1), izy_mode(s)),
        0xF8 => with_flag(s, F_DECIMAL, true),
        0xF9 => sbc_spec(bump_pc(s, 2), absy_mode(s)),
        0xFE => inc_spec(bump_pc(s, 2), absx_mode(s)),
        _ => s,
    }
}

/// The meaning of one decoded instruction: the machine state after
/// executing opcode `op` in state `s`, where `s` is the state with the
/// program counter already past the opcode byte.  An opcode outside the
/// implemented set leaves the state unchanged here; [`CPU::decode`]
/// excludes those by precondition.
pub open spec fn instr_spec(s: CpuView, op: u8) -> CpuView {
    if op < 0x20 {
        instr_group_00(s, op)
    } else if op < 0x40 {
        instr_group_20(s, op)
    } else if op < 0x60 {
        instr_group_40(s, op)
    } else if op < 0x80 {
        instr_group_60(s, op)
    } else if op < 0xA0 {
        instr_group_80(s, op)
    } else if op < 0xC0 {
        instr_group_a0(s, op)
    } else if op < 0xE0 {
        instr_group_c0(s, op)
    } else {
        instr_group_e0(s, op)
    }
}



/// One fetch-decode-execute step: the opcode byte at the program counter
/// is consumed, then the instruction's meaning is applied.
pub open spec fn step_spec(s: CpuView) -> CpuView {
    instr_spec(bump_pc(s, 1), cpu_load(s, s.regs.pc))
}

impl CPU {
    /// Whether the decoder implements `op`; a driver checks this before
    /// stepping so that an undefined opcode aborts outside the core.
    pub fn opcode_implemented(op: u8) -> (b: bool)
        ensures
            b == is_implemented(op),
    {
        match op {
            0x00 | 0x01 | 0x02 | 0x05 | 0x06 | 0x08 | 0x09 | 0x0A | 0x0B | 0x0D => true,
            0x10 | 0x11 | 0x15 | 0x17 | 0x18 | 0x19 | 0x1A | 0x1C | 0x1D => true,
            0x20 | 0x21 | 0x24 | 0x26 | 0x28 | 0x29 | 0x2A | 0x2C => true,
            0x30 | 0x32 | 0x38 | 0x3A => true,
            0x40 | 0x41 | 0x44 | 0x45 | 0x46 | 0x48 | 0x49 | 0x4A | 0x4C | 0x4D => true,
            0x54 | 0x58 | 0x5A | 0x5C | 0x5D => true,
            0x60 | 0x66 | 0x68 | 0x69 | 0x6A | 0x6B | 0x6C => true,
            0x70 | 0x78 | 0x7A | 0x7C => true,
            0x80 | 0x81 | 0x84 | 0x85 | 0x86 | 0x88 | 0x8A | 0x8C | 0x8D | 0x8E => true,
            0x90 | 0x91 | 0x95 | 0x98 | 0x99 | 0x9A | 0x9D => true,
            0xA0 | 0xA2 | 0xA4 | 0xA5 | 0xA6 | 0xA8 | 0xA9 | 0xAA | 0xAC | 0xAD | 0xAE => true,
            0xB0 | 0xB1 | 0xB5 | 0xB8 | 0xB9 | 0xBA | 0xBD => true,
            0xC0 | 0xC4 | 0xC8 | 0xC9 | 0xCA => true,
            0xD0 | 0xD8 | 0xD9 | 0xDA | 0xDD | 0xDE => true,
            0xE0 | 0xE3 | 0xE6 | 0xE8 | 0xE9 | 0xEA | 0xEB | 0xED => true,
            0xF0 | 0xF1 | 0xF8 | 0xF9 | 0xFA | 0xFB | 0xFC | 0xFE | 0xFF => true,
            _ => false,
        }
    }

    /// Executes one already-fetched opcode.  `self` must be in the state
    /// right after the opcode byte was consumed.
    pub fn decode(&mut self, opcode: u8)
        requires
            cpu_wf(old(self)@),
            is_implemented(opcode),
        ensures
            cpu_wf(final(self)@),
            final(self)@ == instr_spec(old(self)@, opcode),
    {
        if opcode < 0x20 {
            self.decode_00(opcode)
        } else if opcode < 0x40 {
            self.decode_20(opcode)
        } else if opcode < 0x60 {
            self.decode_40(opcode)
        } else if opcode < 0x80 {
            self.decode_60(opcode)
        } else if opcode < 0xA0 {
            self.decode_80(opcode)
        } else if opcode < 0xC0 {
            self.decode_a0(opcode)
        } else if opcode < 0xE0 {
            self.decode_c0(opcode)
        } else {
            self.decode_e0(opcode)
        }
    }

    #[verifier::spinoff_prover]
    #[verifier::rlimit(60)]
    fn decode_00(&mut self, opcode: u8)
        requires
            cpu_wf(old(self)@),
            is_implemented(opcode),
            0x0 <= opcode < 0x20,
        ensures
            cpu_wf(final(self)@),
            final(self)@ == instr_spec(old(self)@, opcode),
    {
        match opcode {
            0x00 => self.brk(),
            0x01 => {
                let mode = self.indexed_indirect_addressing_mode();
                self.ora(mode);
            },
            0x02 => self.hlt(),
            0x05 => {
                let mode = self.zero_page_addressing_mode();
                self.ora(mode);
            },
            0x06 => {
                let mode = self.zero_page_addressing_mode();
                self.asl(mode);
            },
            0x08 => self.php(),
            0x09 => self.ora(AddressingMode::Immediate),
            0x0A => self.asl(AddressingMode::Accumulator),
            0x0B => self.noop(),
            0x0D => {
                let mode = self.absolute_addressing_mode();
                self.ora(mode);
            },
            0x10 => self.bpl(),
            0x11 => {
                let mode = self.indirect_indexed_addressing_mode();
                self.ora(mode);
            },
            0x15 => {
                let mode = self.zero_page_x_addressing_mode();
                self.ora(mode);
            },
            0x17 => self.noop(),
            0x18 => self.clc(),
            0x19 => {
                let mode = self.absolute_y_addressing_mode();
                self.ora(mode);
            },
            0x1A => self.noop(),
            0x1C => self.noop(),
            0x1D => {
                let mode = self.absolute_x_addressing_mode();
                self.ora(mode);
            },
            _ => self.noop(),
        }
    }

    #[verifier::spinoff_prover]
    #[verifier::rlimit(60)]
    fn decode_20(&mut self, opcode: u8)
        requires
            cpu_wf(old(self)@),
            is_implemented(opcode),
            0x20 <= opcode < 0x40,
        ensures
            cpu_wf(final(self)@),
            final(self)@ == instr_spec(old(self)@, opcode),
    {
        match opcode {
            0x20 => self.jsr(),
            0x21 => {
                let mode = self.indexed_indirect_addressing_mode();
                self.and(mode);
            },
            0x24 => {
                let mode = self.zero_page_addressing_mode();
                self.bit(mode);
            },
            0x26 => {
                let mode = self.zero_page_addressing_mode();
                self.rol(mode);
            },
            0x28 => self.plp(),
            0x29 => self.and(AddressingMode::Immediate),
            0x2A => self.rol(AddressingMode::Accumulator),
            0x2C => {
                let mode = self.absolute_addressing_mode();
                self.bit(mode);
            },
            0x30 => self.bmi(),
            0x32 => self.hlt(),
            0x38 => self.sec(),
            0x3A => self.noop(),
            _ => self.noop(),
        }
    }

    #[verifier::spinoff_prover]
    #[verifier::rlimit(60)]
    fn decode_40(&mut self, opcode: u8)
        requires
            cpu_wf(old(self)@),
            is_implemented(opcode),
            0x40 <= opcode < 0x60,
        ensures
            cpu_wf(final(self)@),
            final(self)@ == instr_spec(old(self)@, opcode),
    {
        match opcode {
            0x40 => self.rti(),
            0x41 => {
                let mode = self.indexed_indirect_addressing_mode();
                self.eor(mode);
            },
            0x44 => self.noop(),
            0x45 => {
                let mode = self.zero_page_addressing_mode();
                self.eor(mode);
            },
            0x46 => {
                let mode = self.zero_page_addressing_mode();
                self.lsr(mode);
            },
            0x48 => self.pha(),
            0x49 => self.eor(AddressingMode::Immediate),
            0x4A => self.lsr(AddressingMode::Accumulator),
            0x4C => self.jmp(),
            0x4D => {
                let mode = self.absolute_addressing_mode();
                self.eor(mode);
            },
            0x54 => self.noop(),
            0x58 => self.cli(),
            0x5A => self.noop(),
            0x5C => self.noop(),
            0x5D => {
                let mode = self.absolute_x_addressing_mode();
                self.eor(mode);
            },
            _ => self.noop(),
        }
    }

    #[verifier::spinoff_prover]
    #[verifier::rlimit(60)]
    fn decode_60(&mut self, opcode: u8)
        requires
            cpu_wf(old(self)@),
            is_implemented(opcode),
            0x60 <= opcode < 0x80,
        ensures
            cpu_wf(final(self)@),
            final(self)@ == instr_spec(old(self)@, opcode),
    {
        match opcode {
            0x60 => self.rts(),
            0x66 => {
                let mode = self.zero_page_addressing_mode();
                self.ror(mode);
            },
            0x68 => self.pla(),
            0x69 => self.adc(AddressingMode::Immediate),
            0x6A => self.ror(AddressingMode::Accumulator),
            0x6B => self.noop(),
            0x6C => self.jmp_indirect(),
            0x70 => self.bvs(),
            0x78 => self.sei(),
            0x7A => self.noop(),
            0x7C => self.noop(),
            _ => self.noop(),
        }
    }

    #[verifier::spinoff_prover]
    #[verifier::rlimit(60)]
    fn decode_80(&mut self, opcode: u8)
        requires
            cpu_wf(old(self)@),
            is_implemented(opcode),
            0x80 <= opcode < 0xa0,
        ensures
            cpu_wf(final(self)@),
            final(self)@ == instr_spec(old(self)@, opcode),
    {
        match opcode {
            0x80 => self.noop(),
            0x81 => {
                let mode = self.indexed_indirect_addressing_mode();
                self.sta(mode);
            },
            0x84 => {
                let mode = self.zero_page_addressing_mode();
                self.sty(mode);
            },
            0x85 => {
                let mode = self.zero_page_addressing_mode();
                self.sta(mode);
            },
            0x86 => {
                let mode = self.zero_page_addressing_mode();
                self.stx(mode);
            },
            0x88 => self.dey(),
            0x8A => self.txa(),
            0x8C => {
                let mode = self.absolute_addressing_mode();
                self.sty(mode);
            },
            0x8D => {
                let mode = self.absolute_addressing_mode();
                self.sta(mode);
            },
            0x8E => {
                let mode = self.absolute_addressing_mode();
                self.stx(mode);
            },
            0x90 => self.bcc(),
            0x91 => {
                let mode = self.indirect_indexed_addressing_mode();
                self.sta(mode);
            },
            0x95 => {
                let mode = self.zero_page_x_addressing_mode();
                self.sta(mode);
            },
            0x98 => self.tya(),
            0x99 => {
                let mode = self.absolute_y_addressing_mode();
                self.sta(mode);
            },
            0x9A => self.txs(),
            0x9D => {
                let mode = self.absolute_x_addressing_mode();
                self.sta(mode);
            },
            _ => self.noop(),
        }
    }

    #[verifier::spinoff_prover]
    #[verifier::rlimit(60)]
    fn decode_a0(&mut self, opcode: u8)
        requires
            cpu_wf(old(self)@),
            is_implemented(opcode),
            0xa0 <= opcode < 0xc0,
        ensures
            cpu_wf(final(self)@),
            final(self)@ == instr_spec(old(self)@, opcode),
    {
        match opcode {
            0xA0 => self.ldy(AddressingMode::Immediate),
            0xA2 => self.ldx(AddressingMode::Immediate),
            0xA4 => {
                let mode = self.zero_page_addressing_mode();
                self.ldy(mode);
            },
            0xA5 => {
                let mode = self.zero_page_addressing_mode();
                self.lda(mode);
            },
            0xA6 => {
                let mode = self.zero_page_addressing_mode();
                self.ldx(mode);
            },
            0xA8 => self.tay(),
            0xA9 => self.lda(AddressingMode::Immediate),
            0xAA => self.tax(),
            0xAC => {
                let mode = self.absolute_addressing_mode();
                self.ldy(mode);
            },
            0xAD => {
                let mode = self.absolute_addressing_mode();
                self.lda(mode);
            },
            0xAE => {
                let mode = self.absolute_addressing_mode();
                self.ldx(mode);
            },
            0xB0 => self.bcs(),
            0xB1 => {
                let mode = self.indirect_indexed_addressing_mode();
                self.lda(mode);
            },
            0xB5 => {
                let mode = self.zero_page_x_addressing_mode();
                self.lda(mode);
            },
            0xB8 => self.clv(),
            0xB9 => {
                let mode = self.absolute_y_addressing_mode();
                self.lda(mode);
            },
            0xBA => self.tsx(),
            0xBD => {
                let mode = self.absolute_x_addressing_mode();
                self.lda(mode);
            },
            _ => self.noop(),
        }
    }

    #[verifier::spinoff_prover]
    #[verifier::rlimit(60)]
    fn decode_c0(&mut self, opcode: u8)
        requires
            cpu_wf(old(self)@),
            is_implemented(opcode),
            0xc0 <= opcode < 0xe0,
        ensures
            cpu_wf(final(self)@),
            final(self)@ == instr_spec(old(self)@, opcode),
    {
        match opcode {
            0xC0 => self.cpy(AddressingMode::Immediate),
            0xC4 => {
                let mode = self.zero_page_addressing_mode();
                self.cpy(mode);
            },
            0xC8 => self.iny(),
            0xC9 => self.cmp(AddressingMode::Immediate),
            0xCA => self.dex(),
            0xD0 => self.bne(),
            0xD8 => self.cld(),
            0xD9 => {
                let mode = self.absolute_y_addressing_mode();
                self.cmp(mode);
            },
            0xDA => self.noop(),
            0xDD => {
                let mode = self.absolute_x_addressing_mode();
                self.cmp(mode);
            },
            0xDE => {
                let mode = self.absolute_x_addressing_mode();
                self.dec(mode);
            },
            _ => self.noop(),
        }
    }

    #[verifier::spinoff_prover]
    fn decode_e0(&mut self, opcode: u8)
        requires
            cpu_wf(old(self)@),
            is_implemented(opcode),
            0xe0 <= opcode,
        ensures
            cpu_wf(final(self)@),
            final(self)@ == instr_spec(old(self)@, opcode),
    {
        if opcode < 0xF0 {
            self.decode_e0_lo(opcode)
        } else {
            self.decode_f0(opcode)
        }
    }

    #[verifier::spinoff_prover]
    #[verifier::rlimit(80)]
    fn decode_e0_lo(&mut self, opcode: u8)
        requires
            cpu_wf(old(self)@),
            is_implemented(opcode),
            0xe0 <= opcode < 0xf0,
        ensures
            cpu_wf(final(self)@),
            final(self)@ == instr_spec(old(self)@, opcode),
    {
        match opcode {
            0xE0 => self.cpx(AddressingMode::Immediate),
            0xE3 => self.noop(),
            0xE6 => {
                let mode = self.zero_page_addressing_mode();
                self.inc(mode);
            },
            0xE8 => self.inx(),
            0xE9 => self.sbc(AddressingMode::Immediate),
            0xEA => self.noop(),
            0xEB => self.sbc(AddressingMode::Immediate),
            0xED => {
                let mode = self.absolute_addressing_mode();
                self.sbc(mode);
            },
            _ => self.noop(),
        }
    }

    #[verifier::spinoff_prover]
    #[verifier::rlimit(100)]
    fn decode_f0(&mut self, opcode: u8)
        requires
            cpu_wf(old(self)@),
            is_implemented(opcode),
            0xf0 <= opcode,
        ensures
            cpu_wf(final(self)@),
            final(self)@ == instr_spec(old(self)@, opcode),
    {
        if opcode == 0xF0 {
            self.beq();
        } else if opcode == 0xF1 {
            let mode = self.indirect_indexed_addressing_mode();
            self.sbc(mode);
        } else if opcode == 0xF8 {
            self.sed();
        } else if opcode == 0xF9 {
            let mode = self.absolute_y_addressing_mode();
            self.sbc(mode);
        } else if opcode == 0xFE {
            let mode = self.absolute_x_addressing_mode();
            self.inc(mode);
        } else {
            self.noop();
        }
    }

    /// One instruction: fetch the opcode at the program counter, advance
    /// past it, and execute it.  Exactly one instruction runs per call;
    /// all side effects land in the registers and the bus.
    pub fn step(&mut self)
        requires
            cpu_wf(old(self)@),
            is_implemented(cpu_load(old(self)@, old(self)@.regs.pc)),
        ensures
            cpu_wf(final(self)@),
            final(self)@ == step_spec(old(self)@),
    {
        let next = self.load_byte_increment_pc();
        self.decode(next);
    }
}

} // verus!
