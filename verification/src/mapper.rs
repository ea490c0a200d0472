//! Cartridge mappers: the address-translation policy between the bus's
//! PRG/CHR ports and the bytes of the cartridge image.
//!
//! Three variants exist.  `NROM` is the fixed mapping: 32KB images mask
//! PRG addresses to 15 bits, 16KB images to 14 bits (which mirrors the
//! single bank), and all writes are no-ops.  `SxROM` is the bank-switching
//! variant: it holds its control and bank-select registers and an 8KB
//! CHR-RAM fallback, but its serial shift-register protocol and bank
//! arithmetic are an open extension point, so its ports currently return 0
//! and ignore writes.  `TestMapper` behaves like `NROM` but maps
//! 0x6000-0x7FFF to an 8KB scratch RAM that conformance cartridges use to
//! report status codes.

use vstd::prelude::*;
use crate::rom::{Rom, RomView, mapper_number_spec};

verus! {

/// The fixed (non-switching) mapper.
pub struct NROM {
    pub rom: Rom,
}

/// The conformance-testing mapper: `NROM` plus scratch RAM at
/// 0x6000-0x7FFF.
pub struct TestMapper {
    pub rom: Rom,
    pub mem: Vec<u8>,
}

/// Control and bank-select registers of the bank-switching mapper.
#[derive(Clone, Copy)]
pub struct SxROMRegisters {
    pub ctrl: u8,
    pub chr_bank0: u8,
    pub chr_bank1: u8,
    pub prg_bank: u8,
}

/// The bank-switching mapper.
pub struct SxROM {
    pub rom: Rom,
    pub regs: SxROMRegisters,
    pub chr_ram: Vec<u8>,
}

/// Mathematical view of the test mapper.
#[verifier::ext_equal]
pub ghost struct TestMapperView {
    pub rom: RomView,
    pub mem: Seq<u8>,
}

/// Mathematical view of the bank-switching mapper.
#[verifier::ext_equal]
pub ghost struct SxROMView {
    pub rom: RomView,
    pub regs: SxROMRegisters,
    pub chr_ram: Seq<u8>,
}

impl View for NROM {
    type V = RomView;

    open spec fn view(&self) -> RomView {
        self.rom@
    }
}

impl View for TestMapper {
    type V = TestMapperView;

    open spec fn view(&self) -> TestMapperView {
        TestMapperView { rom: self.rom@, mem: self.mem@ }
    }
}

impl View for SxROM {
    type V = SxROMView;

    open spec fn view(&self) -> SxROMView {
        SxROMView { rom: self.rom@, regs: self.regs, chr_ram: self.chr_ram@ }
    }
}

/// A cartridge mapper: one of the supported translation policies,
/// carrying its per-variant state.
pub enum Mapper {
    Nrom(NROM),
    Sxrom(SxROM),
    Test(TestMapper),
}

/// Mathematical view of a mapper.
#[verifier::ext_equal]
pub ghost enum MapperView {
    Nrom(RomView),
    Sxrom(SxROMView),
    Test(TestMapperView),
}

impl View for Mapper {
    type V = MapperView;

    open spec fn view(&self) -> MapperView {
        match self {
            Mapper::Nrom(m) => MapperView::Nrom(m@),
            Mapper::Sxrom(m) => MapperView::Sxrom(m@),
            Mapper::Test(m) => MapperView::Test(m@),
        }
    }
}

/// A PRG image the fixed mapping can serve: one 16KB bank, or at least
/// the full 32KB window.
pub open spec fn prg_size_ok(rom: RomView) -> bool {
    rom.prg.len() == 0x4000 || rom.prg.len() >= 0x8000
}

/// The mapper's backing stores have the sizes its ports index into.
pub open spec fn mapper_wf(m: MapperView) -> bool {
    match m {
        MapperView::Nrom(rom) => prg_size_ok(rom),
        MapperView::Sxrom(s) => s.chr_ram.len() == 0x2000,
        MapperView::Test(t) => prg_size_ok(t.rom) && t.mem.len() == 0x2000,
    }
}

/// The PRG index the fixed mapping selects: 15-bit mask for a 32KB
/// image, 14-bit mask (bank mirroring) for a 16KB image.
pub open spec fn nrom_prg_index(rom: RomView, addr: u16) -> int {
    if rom.prg.len() > 0x4000 {
        (addr & 0x7FFF) as int
    } else {
        (addr & 0x3FFF) as int
    }
}

/// What a PRG read through the fixed mapping returns: 0 below the ROM
/// window, else the masked image byte.
pub open spec fn nrom_load_prg_spec(rom: RomView, addr: u16) -> u8 {
    if addr < 0x8000 {
        0
    } else {
        rom.prg[nrom_prg_index(rom, addr)]
    }
}

/// What a PRG read through the test mapper returns: scratch RAM in
/// 0x6000-0x7FFF, the fixed mapping above, 0 below.
pub open spec fn test_load_prg_spec(t: TestMapperView, addr: u16) -> u8 {
    if addr < 0x6000 {
        0
    } else if addr < 0x8000 {
        t.mem[(addr & 0x1FFF) as int]
    } else {
        t.rom.prg[nrom_prg_index(t.rom, addr)]
    }
}

/// The state a PRG write through the test mapper leaves: only the
/// scratch RAM at 0x6000-0x7FFF is writable.  Every other address
/// behaves like the fixed mapping, whose writes are no-ops: the
/// cartridge image stays read-only after load.
pub open spec fn test_store_prg_spec(t: TestMapperView, addr: u16, val: u8) -> TestMapperView {
    if 0x6000 <= addr < 0x8000 {
        TestMapperView { mem: t.mem.update((addr & 0x1FFF) as int, val), ..t }
    } else {
        t
    }
}

/// What a PRG read through any mapper returns.
pub open spec fn mapper_load_prg_spec(m: MapperView, addr: u16) -> u8 {
    match m {
        MapperView::Nrom(rom) => nrom_load_prg_spec(rom, addr),
        MapperView::Sxrom(s) => 0,
        MapperView::Test(t) => test_load_prg_spec(t, addr),
    }
}

/// The state a PRG write through any mapper leaves: only the test
/// mapper's scratch RAM accepts writes; every cartridge image is
/// read-only after load.
pub open spec fn mapper_store_prg_spec(m: MapperView, addr: u16, val: u8) -> MapperView {
    match m {
        MapperView::Nrom(rom) => m,
        MapperView::Sxrom(s) => m,
        MapperView::Test(t) => MapperView::Test(test_store_prg_spec(t, addr, val)),
    }
}

/// What a CHR read through any mapper returns: the fixed mapping indexes
/// the CHR image directly; the other variants read 0.
pub open spec fn mapper_load_chr_spec(m: MapperView, addr: u16) -> u8 {
    match m {
        MapperView::Nrom(rom) => rom.chr[addr as int],
        MapperView::Sxrom(s) => 0,
        MapperView::Test(t) => 0,
    }
}

/// Bounds for the PRG masks.
proof fn lemma_prg_mask(a: u16)
    ensures
        a & 0x7FFF < 0x8000,
        a & 0x3FFF < 0x4000,
        a & 0x1FFF < 0x2000,
    {
    assert(a & 0x7FFF < 0x8000 && a & 0x3FFF < 0x4000 && a & 0x1FFF < 0x2000) by (bit_vector);
}

impl NROM {
    pub fn new(rom: Rom) -> (m: NROM)
        ensures
            m@ == rom@,
    {
        NROM { rom }
    }

    pub fn type_of(&self) -> (s: String)
        ensures
            s@ == "NROM"@,
    {
        "NROM".to_owned()
    }

    pub fn get_rom(&self) -> (r: &Rom)
        ensures
            r@ == self@,
    {
        &self.rom
    }

    pub fn load_prg_byte(&self, addr: u16) -> (b: u8)
        requires
            prg_size_ok(self@),
        ensures
            b == nrom_load_prg_spec(self@, addr),
    {
        proof {
            lemma_prg_mask(addr);
        }
        if addr < 0x8000 {
            0
        } else if self.rom.prg_rom.len() > 0x4000 {
            self.rom.prg_rom[(addr & 0x7FFF) as usize]
        } else {
            self.rom.prg_rom[(addr & 0x3FFF) as usize]
        }
    }

    pub fn load_chr_byte(&self, addr: u16) -> (b: u8)
        requires
            addr < self@.chr.len(),
        ensures
            b == self@.chr[addr as int],
    {
        self.rom.chr_rom[addr as usize]
    }

    pub fn store_prg_byte(&mut self, addr: u16, val: u8)
        ensures
            *final(self) == *old(self),
    {
    }

    pub fn store_chr_byte(&mut self, addr: u16, val: u8)
        ensures
            *final(self) == *old(self),
    {
    }
}

impl TestMapper {
    pub fn new(rom: Rom) -> (m: TestMapper)
        ensures
            m@ == (TestMapperView { rom: rom@, mem: Seq::new(0x2000, |i: int| 0u8) }),
    {
        let m = TestMapper { rom, mem: vec![0u8; 0x2000] };
        proof {
            assert(m@.mem =~= Seq::new(0x2000, |i: int| 0u8));
        }
        m
    }

    pub fn type_of(&self) -> (s: String)
        ensures
            s@ == "Test"@,
    {
        "Test".to_owned()
    }

    pub fn get_rom(&self) -> (r: &Rom)
        ensures
            r@ == self@.rom,
    {
        &self.rom
    }

    pub fn load_prg_byte(&self, addr: u16) -> (b: u8)
        requires
            mapper_wf(MapperView::Test(self@)),
        ensures
            b == test_load_prg_spec(self@, addr),
    {
        proof {
            lemma_prg_mask(addr);
        }
        if addr < 0x6000 {
            0
        } else if addr < 0x8000 {
            self.mem[(addr & 0x1FFF) as usize]
        } else if self.rom.prg_rom.len() > 0x4000 {
            self.rom.prg_rom[(addr & 0x7FFF) as usize]
        } else {
            self.rom.prg_rom[(addr & 0x3FFF) as usize]
        }
    }

    pub fn load_chr_byte(&self, addr: u16) -> (b: u8)
        ensures
            b == 0,
    {
        0
    }

    pub fn store_prg_byte(&mut self, addr: u16, val: u8)
        requires
            mapper_wf(MapperView::Test(old(self)@)),
        ensures
            mapper_wf(MapperView::Test(final(self)@)),
            final(self)@ == test_store_prg_spec(old(self)@, addr, val),
    {
        proof {
            lemma_prg_mask(addr);
        }
        if 0x6000 <= addr && addr < 0x8000 {
            self.mem[(addr & 0x1FFF) as usize] = val;
        }
    }

    pub fn store_chr_byte(&mut self, addr: u16, val: u8)
        ensures
            *final(self) == *old(self),
    {
    }
}

impl SxROMRegisters {
    pub fn new() -> (r: SxROMRegisters)
        ensures
            r == SxROMRegisters::init(),
    {
        SxROMRegisters { ctrl: 12, chr_bank0: 0, chr_bank1: 0, prg_bank: 0 }
    }

    /// Power-on register values: the control register starts at 12, the
    /// bank selects at 0.
    pub open spec fn init() -> SxROMRegisters {
        SxROMRegisters { ctrl: 12, chr_bank0: 0, chr_bank1: 0, prg_bank: 0 }
    }
}

impl SxROM {
    pub fn new(rom: Rom) -> (m: SxROM)
        ensures
            m@ == (SxROMView {
                rom: rom@,
                regs: SxROMRegisters::init(),
                chr_ram: Seq::new(0x2000, |i: int| 0u8),
            }),
    {
        let m = SxROM { rom, regs: SxROMRegisters::new(), chr_ram: vec![0u8; 0x2000] };
        proof {
            assert(m@.chr_ram =~= Seq::new(0x2000, |i: int| 0u8));
        }
        m
    }

    pub fn type_of(&self) -> (s: String)
        ensures
            s@ == "SxROM"@,
    {
        "SxROM".to_owned()
    }

    pub fn get_rom(&self) -> (r: &Rom)
        ensures
            r@ == self@.rom,
    {
        &self.rom
    }

    /// Bank translation is an open extension point: reads return 0 until
    /// the shift-register protocol is implemented.
    pub fn load_prg_byte(&self, addr: u16) -> (b: u8)
        ensures
            b == 0,
    {
        0
    }

    pub fn load_chr_byte(&self, addr: u16) -> (b: u8)
        ensures
            b == 0,
    {
        0
    }

    pub fn store_prg_byte(&mut self, addr: u16, val: u8)
        ensures
            *final(self) == *old(self),
    {
    }

    pub fn store_chr_byte(&mut self, addr: u16, val: u8)
        ensures
            *final(self) == *old(self),
    {
    }
}

impl Mapper {
    /// The variant's name, for diagnostics.
    pub fn type_of(&self) -> (s: String)
        ensures
            self@ is Nrom ==> s@ == "NROM"@,
            self@ is Sxrom ==> s@ == "SxROM"@,
            self@ is Test ==> s@ == "Test"@,
    {
        match self {
            Mapper::Nrom(m) => m.type_of(),
            Mapper::Sxrom(m) => m.type_of(),
            Mapper::Test(m) => m.type_of(),
        }
    }

    /// The cartridge image behind the mapper.
    pub fn get_rom(&self) -> (r: &Rom)
        ensures
            r@ == mapper_rom(self@),
    {
        match self {
            Mapper::Nrom(m) => m.get_rom(),
            Mapper::Sxrom(m) => m.get_rom(),
            Mapper::Test(m) => m.get_rom(),
        }
    }

    pub fn load_prg_byte(&self, addr: u16) -> (b: u8)
        requires
            mapper_wf(self@),
        ensures
            b == mapper_load_prg_spec(self@, addr),
    {
        match self {
            Mapper::Nrom(m) => m.load_prg_byte(addr),
            Mapper::Sxrom(m) => m.load_prg_byte(addr),
            Mapper::Test(m) => m.load_prg_byte(addr),
        }
    }

    pub fn load_chr_byte(&self, addr: u16) -> (b: u8)
        requires
            self@ is Nrom ==> addr < mapper_rom(self@).chr.len(),
        ensures
            b == mapper_load_chr_spec(self@, addr),
    {
        match self {
            Mapper::Nrom(m) => m.load_chr_byte(addr),
            Mapper::Sxrom(m) => m.load_chr_byte(addr),
            Mapper::Test(m) => m.load_chr_byte(addr),
        }
    }

    pub fn store_prg_byte(&mut self, addr: u16, val: u8)
        requires
            mapper_wf(old(self)@),
        ensures
            mapper_wf(final(self)@),
            final(self)@ == mapper_store_prg_spec(old(self)@, addr, val),
    {
        match self {
            Mapper::Nrom(m) => m.store_prg_byte(addr, val),
            Mapper::Sxrom(m) => m.store_prg_byte(addr, val),
            Mapper::Test(m) => m.store_prg_byte(addr, val),
        }
    }

    pub fn store_chr_byte(&mut self, addr: u16, val: u8)
        requires
            mapper_wf(old(self)@),
        ensures
            mapper_wf(final(self)@),
            final(self)@ == old(self)@,
    {
        match self {
            Mapper::Nrom(m) => m.store_chr_byte(addr, val),
            Mapper::Sxrom(m) => m.store_chr_byte(addr, val),
            Mapper::Test(m) => m.store_chr_byte(addr, val),
        }
    }
}

/// The cartridge image a mapper carries.
pub open spec fn mapper_rom(m: MapperView) -> RomView {
    match m {
        MapperView::Nrom(rom) => rom,
        MapperView::Sxrom(s) => s.rom,
        MapperView::Test(t) => t.rom,
    }
}

/// Whether a mapper number selects a supported variant: 0 (the fixed
/// mapping) or 1 (the bank-switching variant).  A driver checks this
/// before construction, so that an unsupported cartridge aborts outside
/// the core.
pub fn mapper_supported(mapper_number: u8) -> (b: bool)
    ensures
        b == (mapper_number == 0 || mapper_number == 1),
{
    mapper_number == 0 || mapper_number == 1
}

/// Routes a cartridge image to the mapper its header selects: number 0
/// is the fixed mapping, number 1 the bank-switching variant.  Any other
/// number is an unsupported cartridge, which the driver must reject
/// before construction.
pub fn select_mapper(rom: Rom) -> (m: Mapper)
    requires
        mapper_number_spec(rom@.header) == 0 || mapper_number_spec(rom@.header) == 1,
    ensures
        mapper_number_spec(rom@.header) == 0 ==> m@ == MapperView::Nrom(rom@),
        mapper_number_spec(rom@.header) == 1 ==> m@ == MapperView::Sxrom(
            SxROMView {
                rom: rom@,
                regs: SxROMRegisters::init(),
                chr_ram: Seq::new(0x2000, |i: int| 0u8),
            },
        ),
{
    let mapper_number = rom.header.mapper_number();
    if mapper_number == 0 {
        Mapper::Nrom(NROM::new(rom))
    } else {
        Mapper::Sxrom(SxROM::new(rom))
    }
}

} // verus!
