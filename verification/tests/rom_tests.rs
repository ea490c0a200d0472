use mr_cool_nes::rom::{Rom, RomError};

fn image_bytes(prg_units: u8, chr_units: u8) -> Vec<u8> {
    let mut data = vec![
        'N' as u8, 'E' as u8, 'S' as u8, 0x1A, prg_units, chr_units, 0, 0, 1, 0, 0, 0, 0, 0, 0, 0,
    ];
    data.extend(vec![0u8; prg_units as usize * 16384]);
    data.extend(vec![0u8; chr_units as usize * 8192]);
    data
}

#[test]
fn parse_complete_image() {
    let mut data = image_bytes(1, 1);
    data[16] = 0xAB;
    data[16 + 16384] = 0xCD;
    data[6] = 0x10;
    let rom = Rom::parse(&data).unwrap();
    assert_eq!(rom.header.prg_rom_size, 1);
    assert_eq!(rom.header.chr_rom_size, 1);
    assert_eq!(rom.header.flags_6, 0x10);
    assert_eq!(rom.header.mapper_number(), 1);
    assert_eq!(rom.prg_rom.len(), 16384);
    assert_eq!(rom.chr_rom.len(), 8192);
    assert_eq!(rom.prg_rom[0], 0xAB);
    assert_eq!(rom.chr_rom[0], 0xCD);
}

#[test]
fn parse_ignores_trailing_bytes() {
    let mut data = image_bytes(1, 0);
    data.push(0xEE);
    let rom = Rom::parse(&data).unwrap();
    assert_eq!(rom.prg_rom.len(), 16384);
    assert_eq!(rom.chr_rom.len(), 0);
}

#[test]
fn parse_bad_magic() {
    let mut data = image_bytes(1, 1);
    data[0] = 'M' as u8;
    assert!(matches!(Rom::parse(&data), Err(RomError::BadMagic)));
}

#[test]
fn parse_short_header() {
    let data = vec!['N' as u8, 'E' as u8, 'S' as u8, 0x1A, 1];
    assert!(matches!(Rom::parse(&data), Err(RomError::Truncated)));
}

#[test]
fn parse_truncated_segments() {
    let mut data = image_bytes(1, 1);
    data.truncate(16 + 16384 + 100);
    assert!(matches!(Rom::parse(&data), Err(RomError::Truncated)));
}
