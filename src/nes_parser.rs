use vstd::prelude::*;

use crate::mappers::{get_mapper, mapper_for, CartMapper};

verus! {

/// Flags byte 6: bit 0 mirroring (0 horizontal, 1 vertical).
pub const FLAGS6_MIRRORING: u8 = 1;
/// Flags byte 6: battery-backed PRG-RAM.
pub const FLAGS6_PERSISTENCE: u8 = 2;
/// Flags byte 6: a 512-byte trainer follows the header.
pub const FLAGS6_TRAINER: u8 = 4;
/// Flags byte 6: four-screen VRAM.
pub const FLAGS6_FOUR_SCREEN: u8 = 8;

/// Size of the iNES header.
pub const HEADER_LEN: usize = 16;
/// Size of the optional trainer.
pub const TRAINER_LEN: usize = 512;
/// Size of one PRG-ROM bank.
pub const PRG_BANK_LEN: usize = 16384;
/// Size of one CHR-ROM bank.
pub const CHR_BANK_LEN: usize = 8192;
/// Size of one PRG-RAM unit.
pub const PRG_RAM_UNIT: usize = 8192;

/// Why a ROM image could not be loaded.
#[derive(Clone, Copy, Debug, PartialEq, Eq, Structural)]
pub enum RomError {
    /// The first four bytes are not `"NES\x1A"`.
    BadSignature,
    /// The image is shorter than its header says.
    UnexpectedEof,
    /// The header names a mapper other than 0 and 3.
    UnsupportedMapper,
}

#[derive(Clone, Copy, Debug, PartialEq, Eq, Structural)]
pub enum Mirroring {
    Vertical,
    Horizontal,
    FourScreen,
}

/// Flags bytes 6 and 7, without the mapper nibbles.
#[derive(Clone, Copy, Debug, PartialEq, Eq, Structural)]
pub struct InesHeaderFlags {
    pub flags6: u8,
    pub flags7: u8,
}

#[derive(Clone, Copy, Debug, PartialEq, Eq, Structural)]
pub struct InesHeader {
    /// PRG-ROM size in 16 KiB banks.
    pub prg_size: u8,
    /// CHR-ROM size in 8 KiB banks (0: the cartridge uses CHR-RAM).
    pub chr_size: u8,
    pub flags: InesHeaderFlags,
    pub mapper: u8,
    /// PRG-RAM size in 8 KiB units, as written (0 stands for 1).
    pub prg_ram_size: u8,
}

#[derive(Debug)]
pub struct InesFile {
    pub header: InesHeader,
    pub trainer: Option<Vec<u8>>,
    pub prg_rom: Vec<u8>,
    pub chr_rom: Vec<u8>,
    pub prg_ram: Vec<u8>,
}

/// What the bus needs of a loaded ROM image.
#[derive(Debug)]
pub struct Cartridge {
    pub trainer: Option<Vec<u8>>,
    pub prg_rom: Vec<u8>,
    pub chr_rom: Vec<u8>,
    pub prg_ram: Vec<u8>,
    pub mapper: CartMapper,
    pub mirroring: Mirroring,
}

pub open spec fn has_signature(b: Seq<u8>) -> bool {
    b.len() >= 4 && b[0] == 0x4E && b[1] == 0x45 && b[2] == 0x53 && b[3] == 0x1A
}

/// `(flags6 >> 4) | (flags7 & 0xF0)`.
pub open spec fn mapper_number(flags6: u8, flags7: u8) -> u8 {
    (flags6 >> 4) | (flags7 & 0xF0)
}

pub open spec fn trainer_len(b: Seq<u8>) -> int {
    if b[6] & FLAGS6_TRAINER != 0 {
        TRAINER_LEN as int
    } else {
        0
    }
}

pub open spec fn prg_start(b: Seq<u8>) -> int {
    HEADER_LEN + trainer_len(b)
}

pub open spec fn chr_start(b: Seq<u8>) -> int {
    prg_start(b) + PRG_BANK_LEN * b[4]
}

pub open spec fn image_end(b: Seq<u8>) -> int {
    chr_start(b) + CHR_BANK_LEN * b[5]
}

/// Whether `b` holds the whole image that its header describes.
pub open spec fn is_complete(b: Seq<u8>) -> bool {
    b.len() >= HEADER_LEN && b.len() >= image_end(b)
}

pub open spec fn prg_ram_len(size: u8) -> int {
    if size == 0 {
        PRG_RAM_UNIT as int
    } else {
        PRG_RAM_UNIT * size
    }
}

/// The header that the first 16 bytes of `b` hold.
pub open spec fn header_of(b: Seq<u8>) -> InesHeader {
    InesHeader {
        prg_size: b[4],
        chr_size: b[5],
        flags: InesHeaderFlags { flags6: b[6] & 0x0F, flags7: b[7] & 0x0F },
        mapper: mapper_number(b[6], b[7]),
        prg_ram_size: b[8],
    }
}

/// What a successful parse of `b` yields.
pub open spec fn parsed_file(b: Seq<u8>, f: InesFile) -> bool {
    &&& f.header == header_of(b)
    &&& f.trainer is Some <==> trainer_len(b) > 0
    &&& f.trainer is Some ==> f.trainer.unwrap()@ == b.subrange(HEADER_LEN as int, prg_start(b))
    &&& f.prg_rom@ == b.subrange(prg_start(b), chr_start(b))
    &&& f.chr_rom@ == b.subrange(chr_start(b), image_end(b))
    &&& f.prg_ram@ == Seq::new(prg_ram_len(b[8]) as nat, |i: int| 0u8)
}

/// The bytes `b[start..start + len]`.
fn copy_range(b: &[u8], start: usize, len: usize) -> (r: Vec<u8>)
    requires
        start + len <= b@.len(),
    ensures
        r@ == b@.subrange(start as int, start + len),
{
    let n: usize = b.len();
    let mut r: Vec<u8> = Vec::new();
    let mut i: usize = 0;
    while i < len
        invariant
            i <= len,
            n == b@.len(),
            start + len <= b@.len(),
            r@ == b@.subrange(start as int, start + i),
        decreases len - i,
    {
        r.push(b[start + i]);
        i = i + 1;
        assert(r@ =~= b@.subrange(start as int, start + i));
    }
    r
}

/// `len` zero bytes.
fn zeroed(len: usize) -> (r: Vec<u8>)
    ensures
        r@ == Seq::new(len as nat, |i: int| 0u8),
{
    let mut r: Vec<u8> = Vec::new();
    let mut i: usize = 0;
    while i < len
        invariant
            i <= len,
            r@ == Seq::new(i as nat, |j: int| 0u8),
        decreases len - i,
    {
        r.push(0);
        i = i + 1;
        assert(r@ =~= Seq::new(i as nat, |j: int| 0u8));
    }
    r
}

/// Whether `input` starts with `"NES\x1A"`.
fn sign_parse(input: &[u8]) -> (r: bool)
    ensures
        r == has_signature(input@),
{
    input.len() >= 4 && input[0] == 0x4E && input[1] == 0x45 && input[2] == 0x53 && input[3]
        == 0x1A
}

/// The mapper number and the flag bits kept from header bytes 6 and 7.
fn mapper_flags_parse(flags6: u8, flags7: u8) -> (r: (u8, InesHeaderFlags))
    ensures
        r.0 == mapper_number(flags6, flags7),
        r.1 == (InesHeaderFlags { flags6: flags6 & 0x0F, flags7: flags7 & 0x0F }),
{
    ((flags6 >> 4) | (flags7 & 0xF0), InesHeaderFlags { flags6: flags6 & 0x0F, flags7: flags7 & 0x0F })
}

/// Decodes the 16-byte header.
pub fn parse_ines_header(input: &[u8]) -> (r: Result<InesHeader, RomError>)
    ensures
        r == Err::<InesHeader, RomError>(RomError::BadSignature) <==> !has_signature(input@),
        r == Err::<InesHeader, RomError>(RomError::UnexpectedEof) <==> has_signature(input@)
            && input@.len() < HEADER_LEN,
        r is Ok <==> has_signature(input@) && input@.len() >= HEADER_LEN,
        r is Ok ==> r == Ok::<InesHeader, RomError>(header_of(input@)),
{
    if !sign_parse(input) {
        return Err(RomError::BadSignature);
    }
    if input.len() < HEADER_LEN {
        return Err(RomError::UnexpectedEof);
    }
    let (mapper, flags) = mapper_flags_parse(input[6], input[7]);
    Ok(InesHeader { prg_size: input[4], chr_size: input[5], flags, mapper, prg_ram_size: input[8] })
}

/// Decodes an iNES 1.0 image: the 16-byte header, the trainer if the header
/// announces one, then the PRG-ROM and CHR-ROM banks. Bytes after the
/// CHR-ROM are ignored.
pub fn parse_ines_bytes(input: &[u8]) -> (r: Result<InesFile, RomError>)
    ensures
        r == Err::<InesFile, RomError>(RomError::BadSignature) <==> !has_signature(input@),
        r == Err::<InesFile, RomError>(RomError::UnexpectedEof) <==> has_signature(input@)
            && !is_complete(input@),
        r is Ok <==> has_signature(input@) && is_complete(input@),
        r is Ok ==> parsed_file(input@, r.unwrap()),
{
    let header = match parse_ines_header(input) {
        Ok(h) => h,
        Err(e) => {
            return Err(e);
        },
    };
    let flags6 = input[6];
    let prg_size = input[4];
    let chr_size = input[5];
    let trainer_len: usize = if flags6 & FLAGS6_TRAINER != 0 {
        TRAINER_LEN
    } else {
        0
    };
    let prg_len: usize = PRG_BANK_LEN * prg_size as usize;
    let chr_len: usize = CHR_BANK_LEN * chr_size as usize;
    let avail: usize = input.len() - HEADER_LEN;
    if avail < trainer_len || avail - trainer_len < prg_len || avail - trainer_len - prg_len
        < chr_len {
        return Err(RomError::UnexpectedEof);
    }
    let prg_start: usize = HEADER_LEN + trainer_len;
    let chr_start: usize = prg_start + prg_len;
    let trainer = if trainer_len > 0 {
        Some(copy_range(input, HEADER_LEN, trainer_len))
    } else {
        None
    };
    let prg_rom = copy_range(input, prg_start, prg_len);
    let chr_rom = copy_range(input, chr_start, chr_len);
    let ram_units: usize = if input[8] == 0 {
        1
    } else {
        input[8] as usize
    };
    let prg_ram = zeroed(PRG_RAM_UNIT * ram_units);
    Ok(InesFile { header, trainer, prg_rom, chr_rom, prg_ram })
}

pub open spec fn mirroring_of(flags6: u8) -> Mirroring {
    if flags6 & FLAGS6_FOUR_SCREEN != 0 {
        Mirroring::FourScreen
    } else if flags6 & FLAGS6_MIRRORING != 0 {
        Mirroring::Vertical
    } else {
        Mirroring::Horizontal
    }
}

/// Builds the cartridge that the file describes, with the mapper its header
/// selects; fails with `UnsupportedMapper` for any mapper but 0 and 3.
pub fn ines_to_cartridge(ines: InesFile) -> (r: Result<Cartridge, RomError>)
    ensures
        mapper_for(ines.header.mapper, ines.header.prg_size, ines.header.chr_size) is None
            <==> r == Err::<Cartridge, RomError>(RomError::UnsupportedMapper),
        r is Ok <==> mapper_for(ines.header.mapper, ines.header.prg_size, ines.header.chr_size) is Some,
        r is Ok ==> {
            let c = r.unwrap();
            &&& Some(c.mapper) == mapper_for(
                ines.header.mapper,
                ines.header.prg_size,
                ines.header.chr_size,
            )
            &&& c.prg_rom@ == ines.prg_rom@
            &&& c.chr_rom@ == ines.chr_rom@
            &&& c.prg_ram@ == ines.prg_ram@
            &&& c.trainer == ines.trainer
            &&& c.mirroring == mirroring_of(ines.header.flags.flags6)
        },
{
    let mapper = match get_mapper(&ines) {
        Some(m) => m,
        None => {
            return Err(RomError::UnsupportedMapper);
        },
    };
    let flags6 = ines.header.flags.flags6;
    let mirroring = if flags6 & FLAGS6_FOUR_SCREEN != 0 {
        Mirroring::FourScreen
    } else if flags6 & FLAGS6_MIRRORING != 0 {
        Mirroring::Vertical
    } else {
        Mirroring::Horizontal
    };
    Ok(
        Cartridge {
            trainer: ines.trainer,
            prg_rom: ines.prg_rom,
            chr_rom: ines.chr_rom,
            prg_ram: ines.prg_ram,
            mapper,
            mirroring,
        },
    )
}

} // verus!
