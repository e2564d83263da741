use vstd::prelude::*;

use crate::nes_parser::InesFile;

verus! {

/// Where a mapper sends an access.
#[derive(Clone, Copy, Debug, PartialEq, Eq, Structural)]
pub enum MapResult {
    /// An offset into PRG-ROM.
    PrgRom(u16),
    /// An offset into CHR-ROM.
    ChrRom(u16),
    /// An offset into PRG-RAM.
    PrgRam(u16),
    /// The mapper took the write itself (a bank-select register).
    Handled,
    /// Nothing answers at this address.
    Unmapped,
}

/// PRG-ROM address mask: 32 KiB ROMs are seen whole, 16 KiB ROMs are mirrored
/// into both halves of `$8000-$FFFF`.
pub open spec fn prg_mask(prg_banks: u8) -> u16 {
    if prg_banks > 1 {
        0x7FFF
    } else {
        0x3FFF
    }
}

/// The PRG side that both supported mappers share.
pub open spec fn prg_read(prg_banks: u8, addr: u16) -> MapResult {
    if addr >= 0x8000 {
        MapResult::PrgRom(addr & prg_mask(prg_banks))
    } else if addr >= 0x6000 {
        MapResult::PrgRam((addr - 0x6000) as u16)
    } else {
        MapResult::Unmapped
    }
}

/// A cartridge's mapper: where CPU and PPU accesses land.
pub trait Mapper: Sized {
    spec fn spec_cpu_read(&self, addr: u16) -> MapResult;

    /// The mapper's state after a CPU write, and where the write goes.
    spec fn spec_cpu_write(&self, addr: u16, value: u8) -> (Self, MapResult);

    spec fn spec_ppu_read(&self, addr: u16) -> MapResult;

    spec fn spec_ppu_write(&self, addr: u16, value: u8) -> (Self, MapResult);

    fn cpu_map_read(&self, addr: u16) -> (r: MapResult)
        ensures
            r == self.spec_cpu_read(addr),
    ;

    fn cpu_map_write(&mut self, addr: u16, value: u8) -> (r: MapResult)
        ensures
            (*final(self), r) == old(self).spec_cpu_write(addr, value),
    ;

    fn ppu_map_read(&self, addr: u16) -> (r: MapResult)
        ensures
            r == self.spec_ppu_read(addr),
    ;

    fn ppu_map_write(&mut self, addr: u16, value: u8) -> (r: MapResult)
        ensures
            (*final(self), r) == old(self).spec_ppu_write(addr, value),
    ;
}

fn prg_read_exec(prg_banks: u8, addr: u16) -> (r: MapResult)
    ensures
        r == prg_read(prg_banks, addr),
{
    if addr >= 0x8000 {
        let mask: u16 = if prg_banks > 1 {
            0x7FFF
        } else {
            0x3FFF
        };
        MapResult::PrgRom(addr & mask)
    } else if addr >= 0x6000 {
        MapResult::PrgRam(addr - 0x6000)
    } else {
        MapResult::Unmapped
    }
}

/// Mapper 0 (NROM): no bank switching.
#[derive(Clone, Copy, Debug, PartialEq, Eq, Structural)]
pub struct Mapper0 {
    pub prg_banks: u8,
    pub chr_banks: u8,
}

impl Mapper for Mapper0 {
    open spec fn spec_cpu_read(&self, addr: u16) -> MapResult {
        prg_read(self.prg_banks, addr)
    }

    open spec fn spec_cpu_write(&self, addr: u16, value: u8) -> (Self, MapResult) {
        if addr >= 0x8000 {
            (*self, MapResult::Handled)
        } else {
            (*self, prg_read(self.prg_banks, addr))
        }
    }

    open spec fn spec_ppu_read(&self, addr: u16) -> MapResult {
        if addr <= 0x1FFF {
            MapResult::ChrRom(addr)
        } else {
            MapResult::Unmapped
        }
    }

    open spec fn spec_ppu_write(&self, addr: u16, value: u8) -> (Self, MapResult) {
        (*self, self.spec_ppu_read(addr))
    }

    fn cpu_map_read(&self, addr: u16) -> (r: MapResult) {
        prg_read_exec(self.prg_banks, addr)
    }

    fn cpu_map_write(&mut self, addr: u16, value: u8) -> (r: MapResult) {
        if addr >= 0x8000 {
            MapResult::Handled
        } else {
            prg_read_exec(self.prg_banks, addr)
        }
    }

    fn ppu_map_read(&self, addr: u16) -> (r: MapResult) {
        if addr <= 0x1FFF {
            MapResult::ChrRom(addr)
        } else {
            MapResult::Unmapped
        }
    }

    fn ppu_map_write(&mut self, addr: u16, value: u8) -> (r: MapResult) {
        self.ppu_map_read(addr)
    }
}

/// Mapper 3 (CNROM): NROM's PRG side, with a CHR bank latched by writes to
/// `$8000-$FFFF`.
#[derive(Clone, Copy, Debug, PartialEq, Eq, Structural)]
pub struct Mapper3 {
    pub prg_banks: u8,
    pub chr_banks: u8,
    pub current_chrbank: u8,
}

impl Mapper for Mapper3 {
    open spec fn spec_cpu_read(&self, addr: u16) -> MapResult {
        prg_read(self.prg_banks, addr)
    }

    open spec fn spec_cpu_write(&self, addr: u16, value: u8) -> (Self, MapResult) {
        if addr >= 0x8000 {
            (Mapper3 { current_chrbank: value & 3, ..*self }, MapResult::Handled)
        } else {
            (*self, prg_read(self.prg_banks, addr))
        }
    }

    open spec fn spec_ppu_read(&self, addr: u16) -> MapResult {
        if addr <= 0x1FFF && self.current_chrbank <= 3 {
            MapResult::ChrRom((self.current_chrbank * 0x2000 + addr) as u16)
        } else {
            MapResult::Unmapped
        }
    }

    open spec fn spec_ppu_write(&self, addr: u16, value: u8) -> (Self, MapResult) {
        (*self, self.spec_ppu_read(addr))
    }

    fn cpu_map_read(&self, addr: u16) -> (r: MapResult) {
        prg_read_exec(self.prg_banks, addr)
    }

    fn cpu_map_write(&mut self, addr: u16, value: u8) -> (r: MapResult) {
        if addr >= 0x8000 {
            self.current_chrbank = value & 3;
            MapResult::Handled
        } else {
            prg_read_exec(self.prg_banks, addr)
        }
    }

    fn ppu_map_read(&self, addr: u16) -> (r: MapResult) {
        if addr <= 0x1FFF && self.current_chrbank <= 3 {
            MapResult::ChrRom(self.current_chrbank as u16 * 0x2000 + addr)
        } else {
            MapResult::Unmapped
        }
    }

    fn ppu_map_write(&mut self, addr: u16, value: u8) -> (r: MapResult) {
        self.ppu_map_read(addr)
    }
}

/// The mapper that a cartridge holds for its whole life.
#[derive(Clone, Copy, Debug, PartialEq, Eq, Structural)]
pub enum CartMapper {
    Nrom(Mapper0),
    Cnrom(Mapper3),
}

impl Mapper for CartMapper {
    open spec fn spec_cpu_read(&self, addr: u16) -> MapResult {
        match self {
            CartMapper::Nrom(m) => m.spec_cpu_read(addr),
            CartMapper::Cnrom(m) => m.spec_cpu_read(addr),
        }
    }

    open spec fn spec_cpu_write(&self, addr: u16, value: u8) -> (Self, MapResult) {
        match self {
            CartMapper::Nrom(m) => {
                let (m2, r) = m.spec_cpu_write(addr, value);
                (CartMapper::Nrom(m2), r)
            },
            CartMapper::Cnrom(m) => {
                let (m2, r) = m.spec_cpu_write(addr, value);
                (CartMapper::Cnrom(m2), r)
            },
        }
    }

    open spec fn spec_ppu_read(&self, addr: u16) -> MapResult {
        match self {
            CartMapper::Nrom(m) => m.spec_ppu_read(addr),
            CartMapper::Cnrom(m) => m.spec_ppu_read(addr),
        }
    }

    open spec fn spec_ppu_write(&self, addr: u16, value: u8) -> (Self, MapResult) {
        match self {
            CartMapper::Nrom(m) => {
                let (m2, r) = m.spec_ppu_write(addr, value);
                (CartMapper::Nrom(m2), r)
            },
            CartMapper::Cnrom(m) => {
                let (m2, r) = m.spec_ppu_write(addr, value);
                (CartMapper::Cnrom(m2), r)
            },
        }
    }

    fn cpu_map_read(&self, addr: u16) -> (r: MapResult) {
        match self {
            CartMapper::Nrom(m) => m.cpu_map_read(addr),
            CartMapper::Cnrom(m) => m.cpu_map_read(addr),
        }
    }

    fn cpu_map_write(&mut self, addr: u16, value: u8) -> (r: MapResult) {
        match self {
            CartMapper::Nrom(m) => m.cpu_map_write(addr, value),
            CartMapper::Cnrom(m) => m.cpu_map_write(addr, value),
        }
    }

    fn ppu_map_read(&self, addr: u16) -> (r: MapResult) {
        match self {
            CartMapper::Nrom(m) => m.ppu_map_read(addr),
            CartMapper::Cnrom(m) => m.ppu_map_read(addr),
        }
    }

    fn ppu_map_write(&mut self, addr: u16, value: u8) -> (r: MapResult) {
        match self {
            CartMapper::Nrom(m) => m.ppu_map_write(addr, value),
            CartMapper::Cnrom(m) => m.ppu_map_write(addr, value),
        }
    }
}

/// The mapper that a cartridge's header selects, if it is one of the
/// supported ones.
pub open spec fn mapper_for(mapper: u8, prg_banks: u8, chr_banks: u8) -> Option<CartMapper> {
    if mapper == 0 {
        Some(CartMapper::Nrom(Mapper0 { prg_banks, chr_banks }))
    } else if mapper == 3 {
        Some(CartMapper::Cnrom(Mapper3 { prg_banks, chr_banks, current_chrbank: 0 }))
    } else {
        None
    }
}

/// Selects the mapper named by the file's header: `None` for any mapper
/// number but 0 and 3.
pub fn get_mapper(ines: &InesFile) -> (r: Option<CartMapper>)
    ensures
        r == mapper_for(ines.header.mapper, ines.header.prg_size, ines.header.chr_size),
{
    match ines.header.mapper {
        0 => Some(
            CartMapper::Nrom(
                Mapper0 { prg_banks: ines.header.prg_size, chr_banks: ines.header.chr_size },
            ),
        ),
        3 => Some(
            CartMapper::Cnrom(
                Mapper3 {
                    prg_banks: ines.header.prg_size,
                    chr_banks: ines.header.chr_size,
                    current_chrbank: 0,
                },
            ),
        ),
        _ => None,
    }
}

} // verus!
