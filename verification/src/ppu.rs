//! The bus-facing slice of the video chip: eight memory-mapped register
//! ports at 0x2000-0x2007 (mirrored through 0x3FFF), sprite attribute
//! memory, nametable/palette RAM and the pixel buffer.
//!
//! Port semantics are asymmetric: the control, mask, scroll and address
//! ports are write-only (reads return 0), the status port is read-only
//! (writes are ignored), and the OAM-data and data ports are both readable
//! and writable.

use vstd::prelude::*;

verus! {

pub const SCREEN_WIDTH: usize = 256;

pub const SCREEN_HEIGHT: usize = 240;

/// Bytes in the RGB pixel buffer: three per pixel.
pub const SCREEN_BYTES: usize = 256 * 240 * 3;

/// The eight ports plus the DMA port value, as plain bytes.
#[derive(Clone, Copy)]
pub struct Registers {
    pub ppu_ctrl: u8,
    pub ppu_mask: u8,
    pub ppu_status: u8,
    pub oam_addr: u8,
    pub oam_data: u8,
    pub ppu_scroll: u8,
    pub ppu_addr: u8,
    pub ppu_data: u8,
    pub oam_dma: u8,
}

impl Registers {
    pub fn new() -> (r: Registers)
        ensures
            r == Registers::init(),
    {
        Registers {
            ppu_ctrl: 0,
            ppu_mask: 0,
            ppu_status: 0,
            oam_addr: 0,
            oam_data: 0,
            ppu_scroll: 0,
            ppu_addr: 0,
            ppu_data: 0,
            oam_dma: 0,
        }
    }

    /// The power-on register file: every port byte zero.
    pub open spec fn init() -> Registers {
        Registers {
            ppu_ctrl: 0,
            ppu_mask: 0,
            ppu_status: 0,
            oam_addr: 0,
            oam_data: 0,
            ppu_scroll: 0,
            ppu_addr: 0,
            ppu_data: 0,
            oam_dma: 0,
        }
    }
}

/// Nametable and palette RAM.
pub struct VRAM {
    pub nametables: Vec<u8>,
    pub palettes: Vec<u8>,
}

/// Sprite attribute memory.
pub struct OAM {
    pub oam: Vec<u8>,
}

/// The video chip state visible to the bus and to a renderer.
pub struct PPU {
    pub regs: Registers,
    pub vram: VRAM,
    pub oam: OAM,
    pub screen: Vec<u8>,
}

/// An RGB color triple for the pixel buffer.
pub struct Pixel {
    pub r: u8,
    pub g: u8,
    pub b: u8,
}

/// Mathematical state of the video chip.
#[verifier::ext_equal]
pub ghost struct PpuView {
    pub regs: Registers,
    pub nametables: Seq<u8>,
    pub palettes: Seq<u8>,
    pub oam: Seq<u8>,
    pub screen: Seq<u8>,
}

impl View for PPU {
    type V = PpuView;

    open spec fn view(&self) -> PpuView {
        PpuView {
            regs: self.regs,
            nametables: self.vram.nametables@,
            palettes: self.vram.palettes@,
            oam: self.oam.oam@,
            screen: self.screen@,
        }
    }
}

/// The byte a read of port `addr & 7` returns: only the status, OAM-data
/// and data ports are readable; every other port reads as 0.
pub open spec fn ppu_port_load(v: PpuView, addr: u16) -> u8 {
    let port = addr & 7;
    if port == 2 {
        v.regs.ppu_status
    } else if port == 4 {
        v.regs.oam_data
    } else if port == 7 {
        v.regs.ppu_data
    } else {
        0
    }
}

/// The state a write of `val` to port `addr & 7` leaves: every port is
/// writable except status, whose writes are ignored.
pub open spec fn ppu_port_store(v: PpuView, addr: u16, val: u8) -> PpuView {
    let port = addr & 7;
    if port == 0 {
        PpuView { regs: Registers { ppu_ctrl: val, ..v.regs }, ..v }
    } else if port == 1 {
        PpuView { regs: Registers { ppu_mask: val, ..v.regs }, ..v }
    } else if port == 2 {
        v
    } else if port == 3 {
        PpuView { regs: Registers { oam_addr: val, ..v.regs }, ..v }
    } else if port == 4 {
        PpuView { regs: Registers { oam_data: val, ..v.regs }, ..v }
    } else if port == 5 {
        PpuView { regs: Registers { ppu_scroll: val, ..v.regs }, ..v }
    } else if port == 6 {
        PpuView { regs: Registers { ppu_addr: val, ..v.regs }, ..v }
    } else {
        PpuView { regs: Registers { ppu_data: val, ..v.regs }, ..v }
    }
}

impl PPU {
    pub fn new() -> (r: PPU)
        ensures
            r@ == PPU::init(),
    {
        let p = PPU {
            regs: Registers::new(),
            vram: VRAM { nametables: vec![0u8; 0x800], palettes: vec![0u8; 0x20] },
            oam: OAM { oam: vec![0u8; 0x100] },
            screen: vec![0u8; SCREEN_BYTES],
        };
        proof {
            assert(p@.nametables =~= PPU::init().nametables);
            assert(p@.palettes =~= PPU::init().palettes);
            assert(p@.oam =~= PPU::init().oam);
            assert(p@.screen =~= PPU::init().screen);
            assert(p@ =~= PPU::init());
        }
        p
    }

    /// The power-on state: registers and every byte array zeroed.
    pub open spec fn init() -> PpuView {
        PpuView {
            regs: Registers::init(),
            nametables: Seq::new(0x800, |i: int| 0u8),
            palettes: Seq::new(0x20, |i: int| 0u8),
            oam: Seq::new(0x100, |i: int| 0u8),
            screen: Seq::new(SCREEN_BYTES as nat, |i: int| 0u8),
        }
    }

    /// A read-only copy of the pixel buffer for a renderer.
    pub fn get_screen(&self) -> (s: Vec<u8>)
        ensures
            s@ == self@.screen,
    {
        let s = self.screen.clone();
        proof {
            assert forall|i: int| 0 <= i < self.screen@.len() implies s@[i]
                == self.screen@[i] by {
                assert(cloned::<u8>(self.screen[i], s[i]));
            }
            assert(s@ =~= self.screen@);
        }
        s
    }

    /// Writes one RGB pixel into the buffer.
    pub fn put_pixel(&mut self, x: usize, y: usize, color: Pixel)
        requires
            ppu_wf(old(self)@),
            x < SCREEN_WIDTH,
            y < SCREEN_HEIGHT,
        ensures
            ppu_wf(final(self)@),
            final(self)@ == (PpuView {
                screen: old(self)@.screen.update(
                    ((y * SCREEN_WIDTH + x) * 3) as int,
                    color.r,
                ).update(((y * SCREEN_WIDTH + x) * 3 + 1) as int, color.g).update(
                    ((y * SCREEN_WIDTH + x) * 3 + 2) as int,
                    color.b,
                ),
                ..old(self)@
            }),
    {
        let base = (y * SCREEN_WIDTH + x) * 3;
        self.screen[base] = color.r;
        self.screen[base + 1] = color.g;
        self.screen[base + 2] = color.b;
    }
}

/// The video chip's byte arrays have their fixed hardware sizes.
pub open spec fn ppu_wf(v: PpuView) -> bool {
    &&& v.nametables.len() == 0x800
    &&& v.palettes.len() == 0x20
    &&& v.oam.len() == 0x100
    &&& v.screen.len() == SCREEN_BYTES
}

impl PPU {
    /// Loads never mutate; only the readable ports return register bytes.
    pub fn load_byte(&self, addr: u16) -> (b: u8)
        ensures
            b == ppu_port_load(self@, addr),
    {
        let port = addr & 7;
        if port == 2 {
            self.regs.ppu_status
        } else if port == 4 {
            self.regs.oam_data
        } else if port == 7 {
            self.regs.ppu_data
        } else {
            0
        }
    }

    pub fn store_byte(&mut self, addr: u16, val: u8)
        ensures
            final(self)@ == ppu_port_store(old(self)@, addr, val),
    {
        let port = addr & 7;
        if port == 0 {
            self.regs.ppu_ctrl = val;
        } else if port == 1 {
            self.regs.ppu_mask = val;
        } else if port == 2 {
        } else if port == 3 {
            self.regs.oam_addr = val;
        } else if port == 4 {
            self.regs.oam_data = val;
        } else if port == 5 {
            self.regs.ppu_scroll = val;
        } else if port == 6 {
            self.regs.ppu_addr = val;
        } else {
            self.regs.ppu_data = val;
        }
    }
}

} // verus!
