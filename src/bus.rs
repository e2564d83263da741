use vstd::prelude::*;

use crate::mappers::{CartMapper, MapResult, Mapper};
use crate::nes_parser::{Cartridge, Mirroring};

verus! {

/// Size of the CPU's internal RAM.
pub const RAM_LEN: usize = 0x800;

/// The cycle count at power-on, after the reset sequence.
pub const RESET_CYCLES: usize = 7;

/// The bus as a mathematical value.
pub struct BusState {
    pub ram: Seq<u8>,
    pub prg_rom: Seq<u8>,
    pub chr_rom: Seq<u8>,
    pub prg_ram: Seq<u8>,
    pub mapper: CartMapper,
    pub mirroring: Mirroring,
    pub cycles: nat,
}

/// `s[i]`, or 0 past the end of `s`.
pub open spec fn byte_at(s: Seq<u8>, i: int) -> u8 {
    if 0 <= i < s.len() {
        s[i]
    } else {
        0
    }
}

/// The little-endian word `lo | hi << 8`.
pub open spec fn word(lo: u8, hi: u8) -> u16 {
    (lo + 256 * hi) as u16
}

impl BusState {
    pub open spec fn wf(self) -> bool {
        self.ram.len() == RAM_LEN
    }

    /// What a CPU read of `addr` returns.
    pub open spec fn read(self, addr: u16) -> u8 {
        if addr <= 0x1FFF {
            self.ram[(addr % 0x800) as int]
        } else if addr < 0x6000 {
            0
        } else {
            match self.mapper.spec_cpu_read(addr) {
                MapResult::PrgRom(o) => byte_at(self.prg_rom, o as int),
                MapResult::PrgRam(o) => byte_at(self.prg_ram, o as int),
                _ => 0,
            }
        }
    }

    /// The bus after a CPU write of `value` to `addr`.
    pub open spec fn write(self, addr: u16, value: u8) -> BusState {
        if addr <= 0x1FFF {
            BusState { ram: self.ram.update((addr % 0x800) as int, value), ..self }
        } else if addr < 0x6000 {
            self
        } else {
            let (m, r) = self.mapper.spec_cpu_write(addr, value);
            match r {
                MapResult::PrgRam(o) => if o < self.prg_ram.len() {
                    BusState { mapper: m, prg_ram: self.prg_ram.update(o as int, value), ..self }
                } else {
                    BusState { mapper: m, ..self }
                },
                _ => BusState { mapper: m, ..self },
            }
        }
    }

    pub open spec fn read_word(self, addr: u16) -> u16 {
        word(self.read(addr), self.read(addr.wrapping_add(1)))
    }

    /// A word read from the zero page: the high byte comes from
    /// `addr + 1` wrapped to the zero page.
    pub open spec fn read_zp_word(self, addr: u8) -> u16 {
        word(self.read(addr as u16), self.read(addr.wrapping_add(1) as u16))
    }

    pub open spec fn tick(self, n: nat) -> BusState {
        BusState { cycles: self.cycles + n, ..self }
    }
}

proof fn lemma_ram_mirror(addr: u16)
    by (bit_vector)
    ensures
        addr & 0x7FF == addr % 0x800,
        addr & 0x7FF < 0x800,
{
}

/// The CPU's view of memory: internal RAM, the stubbed PPU and APU register
/// windows, and the cartridge behind its mapper. Counts cycles.
pub struct Bus {
    ram: Vec<u8>,
    crt: Cartridge,
    cycles: usize,
}

impl View for Bus {
    type V = BusState;

    closed spec fn view(&self) -> BusState {
        BusState {
            ram: self.ram@,
            prg_rom: self.crt.prg_rom@,
            chr_rom: self.crt.chr_rom@,
            prg_ram: self.crt.prg_ram@,
            mapper: self.crt.mapper,
            mirroring: self.crt.mirroring,
            cycles: self.cycles as nat,
        }
    }
}

impl Bus {
    pub open spec fn wf(&self) -> bool {
        self@.wf()
    }

    pub fn cpu_read(&self, addr: u16) -> (r: u8)
        requires
            self.wf(),
        ensures
            r == self@.read(addr),
    {
        proof {
            lemma_ram_mirror(addr);
        }
        if addr <= 0x1FFF {
            self.ram[(addr & 0x7FF) as usize]
        } else if addr < 0x6000 {
            // PPU and APU registers are stubs; expansion space is unmapped.
            0
        } else {
            match self.crt.mapper.cpu_map_read(addr) {
                MapResult::PrgRom(o) => if (o as usize) < self.crt.prg_rom.len() {
                    self.crt.prg_rom[o as usize]
                } else {
                    0
                },
                MapResult::PrgRam(o) => if (o as usize) < self.crt.prg_ram.len() {
                    self.crt.prg_ram[o as usize]
                } else {
                    0
                },
                _ => 0,
            }
        }
    }

    pub fn cpu_read_word(&self, addr: u16) -> (r: u16)
        requires
            self.wf(),
        ensures
            r == self@.read_word(addr),
    {
        let lo = self.cpu_read(addr);
        let hi = self.cpu_read(addr.wrapping_add(1));
        hi as u16 * 256 + lo as u16
    }

    pub fn cpu_read_zp_word(&self, addr: u8) -> (r: u16)
        requires
            self.wf(),
        ensures
            r == self@.read_zp_word(addr),
    {
        let lo = self.cpu_read(addr as u16);
        let hi = self.cpu_read(addr.wrapping_add(1) as u16);
        hi as u16 * 256 + lo as u16
    }

    pub fn cpu_write(&mut self, addr: u16, value: u8)
        requires
            old(self).wf(),
        ensures
            final(self)@ == old(self)@.write(addr, value),
    {
        proof {
            lemma_ram_mirror(addr);
        }
        if addr <= 0x1FFF {
            self.ram.set((addr & 0x7FF) as usize, value);
        } else if addr < 0x6000 {
            // PPU and APU registers are stubs; expansion space is unmapped.
        } else {
            match self.crt.mapper.cpu_map_write(addr, value) {
                MapResult::PrgRam(o) => if (o as usize) < self.crt.prg_ram.len() {
                    self.crt.prg_ram.set(o as usize, value);
                },
                _ => {},
            }
        }
    }

    /// Writes `value` little-endian at `addr` and `addr + 1`, high byte
    /// first.
    pub fn cpu_write_word(&mut self, addr: u16, value: u16)
        requires
            old(self).wf(),
        ensures
            final(self)@ == old(self)@.write(addr.wrapping_add(1), (value / 256) as u8).write(
                addr,
                (value % 256) as u8,
            ),
    {
        self.cpu_write(addr.wrapping_add(1), (value / 256) as u8);
        self.cpu_write(addr, (value % 256) as u8);
    }

    /// Writes `value` little-endian at `addr` and `addr + 1` wrapped to the
    /// zero page, high byte first.
    pub fn cpu_write_zp_word(&mut self, addr: u8, value: u16)
        requires
            old(self).wf(),
        ensures
            final(self)@ == old(self)@.write(addr.wrapping_add(1) as u16, (value / 256) as u8).write(
                addr as u16,
                (value % 256) as u8,
            ),
    {
        self.cpu_write(addr.wrapping_add(1) as u16, (value / 256) as u8);
        self.cpu_write(addr as u16, (value % 256) as u8);
    }

    /// Adds `cycles` to the cycle counter.
    pub fn cycle(&mut self, cycles: u8)
        requires
            old(self)@.cycles + cycles <= usize::MAX,
        ensures
            final(self)@ == old(self)@.tick(cycles as nat),
    {
        self.cycles = self.cycles + cycles as usize;
    }

    pub fn get_cycles(&self) -> (r: usize)
        ensures
            r == self@.cycles,
    {
        self.cycles
    }

    /// A bus with cleared RAM around `crt`, its counter at the cost of the
    /// reset sequence.
    pub fn create_from_crt(crt: Cartridge) -> (r: Bus)
        ensures
            r.wf(),
            r@.ram == Seq::new(RAM_LEN as nat, |i: int| 0u8),
            r@.prg_rom == crt.prg_rom@,
            r@.chr_rom == crt.chr_rom@,
            r@.prg_ram == crt.prg_ram@,
            r@.mapper == crt.mapper,
            r@.mirroring == crt.mirroring,
            r@.cycles == RESET_CYCLES,
    {
        let mut ram: Vec<u8> = Vec::new();
        let mut i: usize = 0;
        while i < RAM_LEN
            invariant
                i <= RAM_LEN,
                ram@ == Seq::new(i as nat, |j: int| 0u8),
            decreases RAM_LEN - i,
        {
            ram.push(0);
            i = i + 1;
            assert(ram@ =~= Seq::new(i as nat, |j: int| 0u8));
        }
        Bus { ram, crt, cycles: RESET_CYCLES }
    }
}

} // verus!
