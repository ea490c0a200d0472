use mr_cool_nes::cpu::{AddressingMode, CPU, F_CARRY, F_NEGATIVE, F_OVERFLOW, F_ZERO};
use mr_cool_nes::emu_config::EmuConfig;
use mr_cool_nes::font_map::get_letter;
use mr_cool_nes::mapper::{Mapper, NROM, TestMapper};
use mr_cool_nes::memory::RAM;
use mr_cool_nes::nes::NESBuilder;
use mr_cool_nes::ppu::{PPU, Pixel};
use mr_cool_nes::rom::{INesHeader, Rom};

fn blank_rom() -> Rom {
    Rom {
        header: INesHeader {
            magic: ['N' as u8, 'E' as u8, 'S' as u8, '\x1a' as u8],
            prg_rom_size: 1,
            chr_rom_size: 1,
            flags_6: 0,
            flags_7: 0,
            prg_ram_size: 1,
            flags_9: 0,
            flags_10: 0,
            zero: [0; 5],
        },
        prg_rom: vec![0; 16384],
        chr_rom: vec![0; 16384],
    }
}

fn blank_cpu() -> CPU {
    CPU::new(PPU::new(), RAM::new(), Mapper::Nrom(NROM::new(blank_rom())))
}

// RAM mirroring: a store anywhere in the first 8KB is read back through
// the masked address.
#[test]
fn ram_mirroring_roundtrip() {
    let mut cpu = blank_cpu();
    cpu.store_byte(0x1ABC, 0x5A);
    assert_eq!(cpu.load_byte(0x1ABC & 0x7FF), 0x5A);
    cpu.store_byte(0x0042, 0x77);
    assert_eq!(cpu.load_byte(0x0042), 0x77);
}

// Zero-page pointer wraparound: the pointer at 0xFF takes its high byte
// from 0x00.
#[test]
fn zeropage_pointer_wraparound_cpu() {
    let mut cpu = blank_cpu();
    cpu.store_byte(0xFF, 0xAD);
    cpu.store_byte(0x00, 0xDE);
    assert_eq!(cpu.load_word_zeropage_wraparound(0xFF), 0xDEAD);
}

// Push then pop returns the byte and restores the stack offset.
#[test]
fn push_pop_roundtrip() {
    let mut cpu = blank_cpu();
    let s_before = cpu.regs.s;
    cpu.push_byte(0xDD);
    assert_eq!(cpu.pop_byte(), 0xDD);
    assert_eq!(cpu.regs.s, s_before);
}

// One whole fetch-decode-execute step out of RAM.
#[test]
fn step_lda_immediate() {
    let mut cpu = blank_cpu();
    cpu.regs.pc = 0x200;
    cpu.mem_map.ram.mem[0x200] = 0xA9;
    cpu.mem_map.ram.mem[0x201] = 0x42;
    cpu.step();
    assert_eq!(cpu.regs.a, 0x42);
    assert_eq!(cpu.regs.pc, 0x202);
    assert_eq!(cpu.get_flag(F_ZERO), false);
    assert_eq!(cpu.get_flag(F_NEGATIVE), false);
}

#[test]
fn jsr_rts_roundtrip() {
    let mut cpu = blank_cpu();
    cpu.regs.pc = 0x200;
    cpu.mem_map.ram.mem[0x200] = 0x20;  // JSR 0x0300
    cpu.mem_map.ram.mem[0x201] = 0x00;
    cpu.mem_map.ram.mem[0x202] = 0x03;
    cpu.mem_map.ram.mem[0x300] = 0x60;  // RTS
    cpu.step();
    assert_eq!(cpu.regs.pc, 0x0300);
    cpu.step();
    assert_eq!(cpu.regs.pc, 0x0203);
}

#[test]
fn adc_sets_carry_and_overflow() {
    let mut cpu = blank_cpu();
    cpu.regs.a = 0x50;
    cpu.regs.pc = 0x200;
    cpu.mem_map.ram.mem[0x200] = 0x50;
    cpu.adc(AddressingMode::Immediate);
    assert_eq!(cpu.regs.a, 0xA0);
    assert_eq!(cpu.get_flag(F_CARRY), false);
    assert_eq!(cpu.get_flag(F_OVERFLOW), true);
    assert_eq!(cpu.get_flag(F_NEGATIVE), true);

    let mut cpu2 = blank_cpu();
    cpu2.regs.a = 0xFF;
    cpu2.regs.pc = 0x200;
    cpu2.mem_map.ram.mem[0x200] = 0x01;
    cpu2.adc(AddressingMode::Immediate);
    assert_eq!(cpu2.regs.a, 0x00);
    assert_eq!(cpu2.get_flag(F_CARRY), true);
    assert_eq!(cpu2.get_flag(F_ZERO), true);
    assert_eq!(cpu2.get_flag(F_OVERFLOW), false);
}

#[test]
fn sbc_borrow_clears_carry() {
    let mut cpu = blank_cpu();
    cpu.regs.a = 0x50;
    cpu.regs.pc = 0x200;
    cpu.mem_map.ram.mem[0x200] = 0xF0;
    cpu.set_flag(F_CARRY, true);
    cpu.sbc(AddressingMode::Immediate);
    assert_eq!(cpu.regs.a, 0x60);
    assert_eq!(cpu.get_flag(F_CARRY), false);
    assert_eq!(cpu.get_flag(F_OVERFLOW), false);
}

#[test]
fn shifts_and_rotates_accumulator() {
    let mut cpu = blank_cpu();
    cpu.regs.a = 0x81;
    cpu.asl(AddressingMode::Accumulator);
    assert_eq!(cpu.regs.a, 0x02);
    assert_eq!(cpu.get_flag(F_CARRY), true);

    cpu.rol(AddressingMode::Accumulator);
    assert_eq!(cpu.regs.a, 0x05);
    assert_eq!(cpu.get_flag(F_CARRY), false);

    cpu.lsr(AddressingMode::Accumulator);
    assert_eq!(cpu.regs.a, 0x02);
    assert_eq!(cpu.get_flag(F_CARRY), true);

    cpu.ror(AddressingMode::Accumulator);
    assert_eq!(cpu.regs.a, 0x81);
    assert_eq!(cpu.get_flag(F_CARRY), false);
}

// The DMA burst copies a page byte by byte into the OAM data port; the
// port ends up holding the page's last byte.
#[test]
fn dma_reaches_oam_port() {
    let mut cpu = blank_cpu();
    cpu.mem_map.ram.mem[0xFF] = 0x42;
    cpu.store_byte(0x4014, 0x00);
    assert_eq!(cpu.mem_map.ppu.regs.oam_data, 0x42);
}

#[test]
fn printable_stack_renders_hex() {
    let mut cpu = blank_cpu();
    cpu.regs.s = 0xFD;
    cpu.mem_map.ram.mem[0x1FE] = 0xAB;
    assert_eq!(cpu.printable_stack(), "0 AB ");
}

#[test]
fn put_pixel_writes_rgb() {
    let mut ppu = PPU::new();
    ppu.put_pixel(10, 10, Pixel { r: 0xFF, g: 0x00, b: 0x80 });
    let screen = ppu.get_screen();
    let base = (10 * 256 + 10) * 3;
    assert_eq!(screen[base], 0xFF);
    assert_eq!(screen[base + 1], 0x00);
    assert_eq!(screen[base + 2], 0x80);
}

#[test]
fn font_map_cells() {
    let a = get_letter(&'A');
    assert_eq!((a.x, a.y, a.w, a.h), (16, 32, 16, 16));
    let space = get_letter(&' ');
    assert_eq!((space.x, space.y), (0, 0));
    let fallback = get_letter(&'`');
    assert_eq!((fallback.x, fallback.y), (240, 16));
}

#[test]
fn emu_config_defaults() {
    let c = EmuConfig::new();
    assert_eq!(c.screen_size, 1);
    assert_eq!(c.font_path, "./nesfont.bmp");

    let d = EmuConfig::from_settings(None, None);
    assert_eq!(d.screen_size, 1);
    assert_eq!(d.font_path, "./nesfont.bmp");

    let e = EmuConfig::from_settings(Some(3), Some("font.bmp".to_owned()));
    assert_eq!(e.screen_size, 3);
    assert_eq!(e.font_path, "font.bmp");
}

#[test]
fn branch_negative_offset() {
    let mut cpu = blank_cpu();
    cpu.regs.pc = 0x300;
    cpu.mem_map.ram.mem[0x300] = 0xFB;  // displacement -5
    cpu.branch(true);
    assert_eq!(cpu.regs.pc, 0x2FC);
}

#[test]
fn brk_rti_roundtrip() {
    let mut rom = blank_rom();
    rom.prg_rom[0x3FFE] = 0x34;
    rom.prg_rom[0x3FFF] = 0x12;
    let mut cpu = CPU::new(PPU::new(), RAM::new(), Mapper::Nrom(NROM::new(rom)));
    cpu.regs.pc = 0x0200;
    cpu.regs.p = 0x20;
    cpu.regs.s = 0xFD;

    cpu.brk();
    assert_eq!(cpu.regs.pc, 0x1234);
    assert_eq!(cpu.regs.s, 0xFA);

    cpu.rti();
    assert_eq!(cpu.regs.pc, 0x0201);
    assert_eq!(cpu.regs.p, 0x20);
    assert_eq!(cpu.regs.s, 0xFD);
}

// PLP restores the popped flag byte through the hardware mask: bit 5
// always reads 1, bit 4 reads 0.
#[test]
fn plp_masks_unused_bits() {
    let mut cpu = blank_cpu();
    cpu.regs.s = 0xFC;
    cpu.mem_map.ram.mem[0x1FD] = 0x00;
    cpu.plp();
    assert_eq!(cpu.regs.p, 0x20);

    cpu.regs.s = 0xFC;
    cpu.mem_map.ram.mem[0x1FD] = 0xFF;
    cpu.plp();
    assert_eq!(cpu.regs.p, 0xEF);
}

// The stack offset wraps silently at 8 bits; wraparound is a hardware
// quirk, never an error.
#[test]
fn stack_pointer_wraparound() {
    let mut cpu = blank_cpu();
    cpu.regs.s = 0x00;
    cpu.push_byte(0xAA);
    assert_eq!(cpu.regs.s, 0xFF);
    assert_eq!(cpu.mem_map.ram.mem[0x100], 0xAA);
    cpu.push_byte(0xBB);
    assert_eq!(cpu.regs.s, 0xFE);
    assert_eq!(cpu.mem_map.ram.mem[0x1FF], 0xBB);
}

// End-to-end conformance run: a small cartridge program reports its
// status through the test mapper's scratch byte at 0x6000, moving from
// 0x00 (init) through 0x80 (running) to its terminal pass code 0x01.
#[test]
fn conformance_status_transitions() {
    let mut rom = blank_rom();
    let program: [u8; 16] = [
        0xA9, 0x80,  // LDA #$80
        0x8D, 0x00, 0x60,  // STA $6000
        0xA2, 0x05,  // LDX #$05
        0xCA,  // DEX
        0xA9, 0x01,  // LDA #$01
        0x8D, 0x00, 0x60,  // STA $6000
        0x4C, 0x0D, 0x80,  // JMP $800D
    ];
    for (i, b) in program.iter().enumerate() {
        rom.prg_rom[i] = *b;
    }
    rom.prg_rom[0x3FFC] = 0x00;
    rom.prg_rom[0x3FFD] = 0x80;

    let mapper = Mapper::Test(TestMapper::new(rom));
    let cpu = CPU::new(PPU::new(), RAM::new(), mapper);
    let mut nes = NESBuilder::new().cpu(cpu).finalize();

    nes.cpu.reset();
    assert_eq!(nes.cpu.regs.pc, 0x8000);

    let mut observed = vec![nes.cpu.load_byte(0x6000)];
    for _ in 0..20 {
        nes.cpu.step();
        let status = nes.cpu.load_byte(0x6000);
        if *observed.last().unwrap() != status {
            observed.push(status);
        }
    }
    assert_eq!(observed, vec![0x00, 0x80, 0x01]);
}
