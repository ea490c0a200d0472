//! Cartridge images: the 16-byte header, the program (PRG) and graphics
//! (CHR) byte segments, and the parser that builds an image from the raw
//! bytes of a cartridge container file.
//!
//! The container layout is: a 4-byte magic (`NES` followed by 0x1A), the
//! PRG size in 16KB units, the CHR size in 8KB units, `flags_6`, `flags_7`,
//! the PRG-RAM size, `flags_9`, `flags_10` and five reserved zero bytes,
//! followed by the PRG bytes and then the CHR bytes.

use vstd::prelude::*;

verus! {

/// The parsed 16-byte container header.
#[derive(Debug)]
pub struct INesHeader {
    pub magic: [u8; 4],
    pub prg_rom_size: u8,
    pub chr_rom_size: u8,
    pub flags_6: u8,
    pub flags_7: u8,
    pub prg_ram_size: u8,
    pub flags_9: u8,
    pub flags_10: u8,
    pub zero: [u8; 5],
}

/// Mathematical view of a header.
#[verifier::ext_equal]
pub ghost struct HeaderView {
    pub magic: Seq<u8>,
    pub prg_rom_size: u8,
    pub chr_rom_size: u8,
    pub flags_6: u8,
    pub flags_7: u8,
    pub prg_ram_size: u8,
    pub flags_9: u8,
    pub flags_10: u8,
    pub zero: Seq<u8>,
}

impl View for INesHeader {
    type V = HeaderView;

    open spec fn view(&self) -> HeaderView {
        HeaderView {
            magic: self.magic@,
            prg_rom_size: self.prg_rom_size,
            chr_rom_size: self.chr_rom_size,
            flags_6: self.flags_6,
            flags_7: self.flags_7,
            prg_ram_size: self.prg_ram_size,
            flags_9: self.flags_9,
            flags_10: self.flags_10,
            zero: self.zero@,
        }
    }
}

/// The cartridge mapper number: high nibble of `flags_7` joined with the
/// high nibble of `flags_6`.
pub open spec fn mapper_number_spec(h: HeaderView) -> u8 {
    (h.flags_7 & 0xF0) | (h.flags_6 >> 4)
}

impl INesHeader {
    pub fn mapper_number(&self) -> (n: u8)
        ensures
            n == mapper_number_spec(self@),
    {
        (self.flags_7 & 0xF0) | (self.flags_6 >> 4)
    }
}

/// A fully parsed cartridge image: header plus PRG and CHR byte segments,
/// read-only after load.
#[derive(Debug)]
pub struct Rom {
    pub header: INesHeader,
    pub prg_rom: Vec<u8>,
    pub chr_rom: Vec<u8>,
}

/// Mathematical view of a cartridge image.
#[verifier::ext_equal]
pub ghost struct RomView {
    pub header: HeaderView,
    pub prg: Seq<u8>,
    pub chr: Seq<u8>,
}

impl View for Rom {
    type V = RomView;

    open spec fn view(&self) -> RomView {
        RomView { header: self.header@, prg: self.prg_rom@, chr: self.chr_rom@ }
    }
}

/// Why a byte sequence is not a cartridge image.
#[derive(Debug, PartialEq, Eq)]
pub enum RomError {
    /// The first four bytes are not the container magic.
    BadMagic,
    /// The data ends before the header, or before the PRG and CHR
    /// segments the header announces.
    Truncated,
}

/// The four magic bytes: `NES` followed by 0x1A.
pub open spec fn magic_ok(data: Seq<u8>) -> bool {
    &&& data[0] == 0x4E
    &&& data[1] == 0x45
    &&& data[2] == 0x53
    &&& data[3] == 0x1A
}

/// PRG segment length in bytes that the header at the front of `data`
/// announces.
pub open spec fn prg_bytes(data: Seq<u8>) -> int {
    data[4] * 0x4000
}

/// CHR segment length in bytes that the header announces.
pub open spec fn chr_bytes(data: Seq<u8>) -> int {
    data[5] * 0x2000
}

/// `data` holds a complete image: a header with good magic and both
/// segments present in full.
pub open spec fn complete_image(data: Seq<u8>) -> bool {
    &&& data.len() >= 16
    &&& magic_ok(data)
    &&& data.len() >= 16 + prg_bytes(data) + chr_bytes(data)
}

/// Copies `data[start .. start + len]` into a fresh vector.
fn copy_range(data: &Vec<u8>, start: usize, len: usize) -> (r: Vec<u8>)
    requires
        start + len <= data@.len(),
    ensures
        r@ == data@.subrange(start as int, start as int + len as int),
{
    let n = data.len();
    let mut r: Vec<u8> = Vec::new();
    let mut i: usize = 0;
    while i < len
        invariant
            i <= len,
            start + len <= n,
            n == data@.len(),
            r@ == data@.subrange(start as int, start as int + i as int),
        decreases len - i,
    {
        r.push(data[start + i]);
        proof {
            assert(r@ =~= data@.subrange(start as int, start as int + (i + 1) as int));
        }
        i = i + 1;
    }
    r
}

impl Rom {
    /// Parses a cartridge image from the raw bytes of a container file.
    ///
    /// Succeeds exactly on a complete image; data with a well-formed
    /// header but wrong magic is rejected as `BadMagic`, and data that
    /// ends early is rejected as `Truncated`.  Trailing bytes after the
    /// CHR segment are ignored.
    pub fn parse(data: &Vec<u8>) -> (r: Result<Rom, RomError>)
        ensures
            r is Ok <==> complete_image(data@),
            r is Ok ==> (r matches Ok(rom) && rom@ == parsed_rom(data@)),
            r == Result::<Rom, RomError>::Err(RomError::BadMagic) <==> (data@.len() >= 16
                && !magic_ok(data@)),
            r == Result::<Rom, RomError>::Err(RomError::Truncated) <==> (data@.len() < 16 || (
            magic_ok(data@) && data@.len() < 16 + prg_bytes(data@) + chr_bytes(data@))),
    {
        if data.len() < 16 {
            return Err(RomError::Truncated);
        }
        if !(data[0] == 0x4E && data[1] == 0x45 && data[2] == 0x53 && data[3] == 0x1A) {
            return Err(RomError::BadMagic);
        }
        let prg_size = (data[4] as usize) * 0x4000;
        let chr_size = (data[5] as usize) * 0x2000;
        if data.len() < 16 + prg_size || data.len() - 16 - prg_size < chr_size {
            return Err(RomError::Truncated);
        }
        let header = INesHeader {
            magic: [data[0], data[1], data[2], data[3]],
            prg_rom_size: data[4],
            chr_rom_size: data[5],
            flags_6: data[6],
            flags_7: data[7],
            prg_ram_size: data[8],
            flags_9: data[9],
            flags_10: data[10],
            zero: [0, 0, 0, 0, 0],
        };
        let prg_rom = copy_range(data, 16, prg_size);
        let chr_rom = copy_range(data, 16 + prg_size, chr_size);
        let rom = Rom { header, prg_rom, chr_rom };
        proof {
            assert(rom@.header.magic =~= parsed_rom(data@).header.magic);
            assert(rom@.header.zero =~= parsed_rom(data@).header.zero);
            assert(rom@.header =~= parsed_rom(data@).header);
            assert(rom@ =~= parsed_rom(data@));
        }
        Ok(rom)
    }
}

/// The image that parsing a complete container yields: the header fields
/// read from the first 16 bytes (reserved bytes forced to zero), the PRG
/// segment right after the header, and the CHR segment after that.
pub open spec fn parsed_rom(data: Seq<u8>) -> RomView {
    RomView {
        header: HeaderView {
            magic: data.subrange(0, 4),
            prg_rom_size: data[4],
            chr_rom_size: data[5],
            flags_6: data[6],
            flags_7: data[7],
            prg_ram_size: data[8],
            flags_9: data[9],
            flags_10: data[10],
            zero: Seq::new(5, |i: int| 0u8),
        },
        prg: data.subrange(16, 16 + prg_bytes(data)),
        chr: data.subrange(16 + prg_bytes(data), 16 + prg_bytes(data) + chr_bytes(data)),
    }
}

} // verus!
