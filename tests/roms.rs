use nes_emu::mappers::{get_mapper, CartMapper, MapResult, Mapper, Mapper0, Mapper3};
use nes_emu::nes_parser::{ines_to_cartridge, parse_ines_bytes, Mirroring, RomError};

fn header(prg: u8, chr: u8, flags6: u8, flags7: u8, ram: u8) -> Vec<u8> {
    vec![0x4E, 0x45, 0x53, 0x1A, prg, chr, flags6, flags7, ram, 0, 0, 0, 0, 0, 0, 0]
}

#[test]
fn parses_header_and_banks() {
    let mut image = header(1, 1, 0x31, 0x00, 0);
    image.extend((0..16384).map(|i| (i % 251) as u8));
    image.extend(vec![7u8; 8192]);
    image.push(0xEE);
    let ines = parse_ines_bytes(&image).unwrap();
    assert_eq!(ines.header.prg_size, 1);
    assert_eq!(ines.header.chr_size, 1);
    assert_eq!(ines.header.mapper, 3);
    assert_eq!(ines.header.flags.flags6, 0x01);
    assert!(ines.trainer.is_none());
    assert_eq!(ines.prg_rom.len(), 16384);
    assert_eq!(ines.prg_rom[300], (300 % 251) as u8);
    assert_eq!(ines.chr_rom, vec![7u8; 8192]);
    assert_eq!(ines.prg_ram.len(), 8192);
    assert!(ines.prg_ram.iter().all(|b| *b == 0));
}

#[test]
fn mapper_number_takes_both_nibbles() {
    let mut image = header(1, 0, 0x40, 0x10, 2);
    image.extend(vec![0u8; 16384]);
    let ines = parse_ines_bytes(&image).unwrap();
    assert_eq!(ines.header.mapper, 0x14);
    assert_eq!(ines.prg_ram.len(), 16384);
    assert_eq!(ines_to_cartridge(ines).err(), Some(RomError::UnsupportedMapper));
}

#[test]
fn trainer_is_512_bytes() {
    let mut image = header(1, 0, 0x04, 0, 0);
    image.extend(vec![9u8; 512]);
    image.extend(vec![1u8; 16384]);
    let ines = parse_ines_bytes(&image).unwrap();
    assert_eq!(ines.trainer, Some(vec![9u8; 512]));
    assert_eq!(ines.prg_rom, vec![1u8; 16384]);
}

#[test]
fn bad_signature() {
    let mut image = header(1, 0, 0, 0, 0);
    image[3] = 0x1B;
    image.extend(vec![0u8; 16384]);
    assert_eq!(parse_ines_bytes(&image).err(), Some(RomError::BadSignature));
    assert_eq!(parse_ines_bytes(&[0x4E, 0x45]).err(), Some(RomError::BadSignature));
}

#[test]
fn unexpected_eof() {
    let mut image = header(2, 1, 0, 0, 0);
    image.extend(vec![0u8; 32768]);
    assert_eq!(parse_ines_bytes(&image).err(), Some(RomError::UnexpectedEof));
    assert_eq!(
        parse_ines_bytes(&[0x4E, 0x45, 0x53, 0x1A, 1]).err(),
        Some(RomError::UnexpectedEof)
    );
}

#[test]
fn cartridge_mirroring() {
    for (flags6, expected) in [
        (0x00, Mirroring::Horizontal),
        (0x01, Mirroring::Vertical),
        (0x09, Mirroring::FourScreen),
    ] {
        let mut image = header(1, 0, flags6, 0, 0);
        image.extend(vec![0u8; 16384]);
        let crt = ines_to_cartridge(parse_ines_bytes(&image).unwrap()).unwrap();
        assert_eq!(crt.mirroring, expected);
        assert_eq!(crt.mapper, CartMapper::Nrom(Mapper0 { prg_banks: 1, chr_banks: 0 }));
    }
}

#[test]
fn get_mapper_selects_by_number() {
    let mut image = header(2, 1, 0x30, 0, 0);
    image.extend(vec![0u8; 32768 + 8192]);
    let ines = parse_ines_bytes(&image).unwrap();
    assert_eq!(
        get_mapper(&ines),
        Some(CartMapper::Cnrom(Mapper3 { prg_banks: 2, chr_banks: 1, current_chrbank: 0 }))
    );
}

#[test]
fn nrom_mirrors_16k() {
    let m = Mapper0 { prg_banks: 1, chr_banks: 1 };
    assert_eq!(m.cpu_map_read(0xC123), MapResult::PrgRom(0x0123));
    assert_eq!(m.cpu_map_read(0x8123), MapResult::PrgRom(0x0123));
    let big = Mapper0 { prg_banks: 2, chr_banks: 1 };
    assert_eq!(big.cpu_map_read(0xC123), MapResult::PrgRom(0x4123));
    assert_eq!(m.cpu_map_read(0x6005), MapResult::PrgRam(0x0005));
    assert_eq!(m.cpu_map_read(0x5000), MapResult::Unmapped);
    let mut w = m;
    assert_eq!(w.cpu_map_write(0x8000, 5), MapResult::Handled);
    assert_eq!(m.ppu_map_read(0x1234), MapResult::ChrRom(0x1234));
}

#[test]
fn cnrom_latches_chr_bank() {
    let mut m = Mapper3 { prg_banks: 1, chr_banks: 4, current_chrbank: 0 };
    assert_eq!(m.cpu_map_write(0x8000, 0xFE), MapResult::Handled);
    assert_eq!(m.current_chrbank, 2);
    assert_eq!(m.ppu_map_read(0x0010), MapResult::ChrRom(0x4010));
    assert_eq!(m.cpu_map_read(0xFFFC), MapResult::PrgRom(0x3FFC));
}

#[test]
fn cpu_build_follows_mapper_support() {
    let mut image = header(1, 0, 0x20, 0, 0);
    image.extend(vec![0u8; 16384]);
    let ines = parse_ines_bytes(&image).unwrap();
    assert_eq!(nes_emu::cpu::Cpu::create_from_ines(ines).err(), Some(RomError::UnsupportedMapper));
    let mut image = header(1, 0, 0x30, 0, 0);
    image.extend(vec![0u8; 16384]);
    let ines = parse_ines_bytes(&image).unwrap();
    assert!(nes_emu::cpu::Cpu::create_from_ines(ines).is_ok());
}
