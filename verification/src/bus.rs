//! The CPU's memory bus: routes each 16-bit address to work RAM, the
//! video chip's register ports, open bus, or the cartridge mapper.

use vstd::prelude::*;
use crate::mapper::{Mapper, MapperView, mapper_wf, mapper_load_prg_spec, mapper_store_prg_spec};
use crate::memory::{RAM, ram_index, ram_wf};
use crate::ppu::{PPU, PpuView, ppu_wf, ppu_port_load, ppu_port_store};

verus! {

/// The CPU's memory bus: it owns RAM, the video chip and the mapper, and
/// routes each 16-bit address to exactly one of them.
pub struct CPUMemoryMap {
    pub ram: RAM,
    pub ppu: PPU,
    pub mapper: Mapper,
}

/// Mathematical state of everything the bus reaches.
#[verifier::ext_equal]
pub ghost struct MemView {
    pub ram: Seq<u8>,
    pub ppu: PpuView,
    pub mapper: MapperView,
}

impl View for CPUMemoryMap {
    type V = MemView;

    open spec fn view(&self) -> MemView {
        MemView { ram: self.ram@, ppu: self.ppu@, mapper: self.mapper@ }
    }
}

/// Every backing store behind the bus has its fixed size.
pub open spec fn mem_view_wf(v: MemView) -> bool {
    &&& ram_wf(v.ram)
    &&& ppu_wf(v.ppu)
    &&& mapper_wf(v.mapper)
}

/// The byte a bus load returns: RAM below 0x2000 (masked to its 2KB),
/// a video register port below 0x4000 (masked to the low 3 bits), open
/// bus (0) below 0x6000, and the mapper's PRG port above.
pub open spec fn mem_load_spec(v: MemView, addr: u16) -> u8 {
    if addr < 0x2000 {
        v.ram[ram_index(addr)]
    } else if addr < 0x4000 {
        ppu_port_load(v.ppu, addr)
    } else if addr < 0x6000 {
        0
    } else {
        mapper_load_prg_spec(v.mapper, addr)
    }
}

/// The state a bus store leaves: the same range dispatch; stores into
/// the open-bus range are ignored.
pub open spec fn mem_store_spec(v: MemView, addr: u16, val: u8) -> MemView {
    if addr < 0x2000 {
        MemView { ram: v.ram.update(ram_index(addr), val), ..v }
    } else if addr < 0x4000 {
        MemView { ppu: ppu_port_store(v.ppu, addr, val), ..v }
    } else if addr < 0x6000 {
        v
    } else {
        MemView { mapper: mapper_store_prg_spec(v.mapper, addr, val), ..v }
    }
}

impl CPUMemoryMap {
    pub fn new(ppu: PPU, ram: RAM, mapper: Mapper) -> (m: CPUMemoryMap)
        ensures
            m@ == (MemView { ram: ram@, ppu: ppu@, mapper: mapper@ }),
    {
        CPUMemoryMap { ram, ppu, mapper }
    }

    /// Loads never mutate and have no side effect anywhere on the bus.
    pub fn load_byte(&self, addr: u16) -> (b: u8)
        requires
            mem_view_wf(self@),
        ensures
            b == mem_load_spec(self@, addr),
    {
        if addr < 0x2000 {
            self.ram.load_byte(addr)
        } else if addr < 0x4000 {
            self.ppu.load_byte(addr)
        } else if addr < 0x6000 {
            0
        } else {
            self.mapper.load_prg_byte(addr)
        }
    }

    pub fn store_byte(&mut self, addr: u16, val: u8)
        requires
            mem_view_wf(old(self)@),
        ensures
            mem_view_wf(final(self)@),
            final(self)@ == mem_store_spec(old(self)@, addr, val),
    {
        if addr < 0x2000 {
            self.ram.store_byte(addr, val);
        } else if addr < 0x4000 {
            self.ppu.store_byte(addr, val);
        } else if addr < 0x6000 {
        } else {
            self.mapper.store_prg_byte(addr, val);
        }
    }
}

/// RAM mirroring as seen from the bus: a store anywhere below 0x2000 is
/// read back by loading through the address masked to the 2KB range.
pub proof fn lemma_bus_ram_mirroring(m: MemView, addr: u16, val: u8)
    requires
        mem_view_wf(m),
        addr < 0x2000,
    ensures
        mem_load_spec(mem_store_spec(m, addr, val), addr & 0x7FF) == val,
{
    crate::memory::lemma_ram_mask(addr);
}

} // verus!
