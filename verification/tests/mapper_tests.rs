use mr_cool_nes::mapper::{Mapper, TestMapper, mapper_supported, select_mapper};
use mr_cool_nes::rom::{INesHeader, Rom};

fn setup_rom() -> Rom {
    Rom {
        header: INesHeader {
            magic: ['N' as u8, 'E' as u8, 'S' as u8, '\x1a' as u8],
            prg_rom_size: 1,
            chr_rom_size: 1,
            flags_6: 0,
            flags_7: 0,
            prg_ram_size: 1,
            flags_9: 0,
            flags_10: 0,
            zero: [0; 5],
        },
        prg_rom: vec![0; 16384],
        chr_rom: vec![0; 16384],
    }
}

#[test]
fn select_mapper_nrom() {
    let rom = setup_rom();
    let mapper = select_mapper(rom);
    assert_eq!(mapper.type_of(), "NROM");
}

#[test]
fn select_mapper_sxrom() {
    let mut rom = setup_rom();
    rom.header.flags_6 = 0x10;
    let mapper = select_mapper(rom);
    assert_eq!(mapper.type_of(), "SxROM");
}

#[test]
fn nrom_load_prg_byte() {
    let mut rom = setup_rom();
    rom.prg_rom[0xDE] = 0xAD;
    let mapper = select_mapper(rom);
    let byte = mapper.load_prg_byte(0x80DE);
    assert_eq!(byte, 0xAD);
}

// A 16KB image masks PRG addresses to 14 bits (the single bank is
// mirrored); a 32KB image masks to 15 bits.
#[test]
fn nrom_prg_masks() {
    let mut rom16 = setup_rom();
    rom16.prg_rom[0xDE] = 0x11;
    let mapper16 = select_mapper(rom16);
    assert_eq!(mapper16.load_prg_byte(0xC0DE), 0x11);

    let mut rom32 = setup_rom();
    rom32.header.prg_rom_size = 2;
    rom32.prg_rom = vec![0; 0x8000];
    rom32.prg_rom[0x40DE] = 0x22;
    let mapper32 = select_mapper(rom32);
    assert_eq!(mapper32.load_prg_byte(0xC0DE), 0x22);
    assert_eq!(mapper32.load_prg_byte(0x80DE), 0x00);
}

#[test]
fn supported_mapper_numbers() {
    assert!(mapper_supported(0));
    assert!(mapper_supported(1));
    assert!(!mapper_supported(2));
    assert!(!mapper_supported(0xFF));
}

// The test mapper's scratch RAM takes writes; the PRG image behaves
// like the fixed mapping and stays read-only.
#[test]
fn test_mapper_prg_image_read_only() {
    let mut rom = setup_rom();
    rom.prg_rom[0xDE] = 0xAD;
    let mut mapper = Mapper::Test(TestMapper::new(rom));
    mapper.store_prg_byte(0x80DE, 0x99);
    assert_eq!(mapper.load_prg_byte(0x80DE), 0xAD);
    mapper.store_prg_byte(0x6010, 0x55);
    assert_eq!(mapper.load_prg_byte(0x6010), 0x55);
}

#[test]
fn nrom_writes_are_ignored() {
    let mut rom = setup_rom();
    rom.prg_rom[0xDE] = 0xAD;
    let mut mapper = select_mapper(rom);
    mapper.store_prg_byte(0x80DE, 0x99);
    mapper.store_chr_byte(0x00DE, 0x99);
    assert_eq!(mapper.load_prg_byte(0x80DE), 0xAD);
}

#[test]
fn nrom_load_chr_byte() {
    let mut rom = setup_rom();
    rom.chr_rom[0xDE] = 0xAD;
    let mapper = select_mapper(rom);
    let byte = mapper.load_chr_byte(0xDE);
    assert_eq!(byte, 0xAD);
}
