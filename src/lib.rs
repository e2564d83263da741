//! A cycle-counting MOS 6502 (Ricoh 2A03) core with an iNES cartridge loader,
//! NROM/CNROM mappers, a CPU memory bus and a nestest-style trace writer.

pub mod flags;
pub mod instructions;
pub mod mappers;
pub mod nes_parser;
pub mod bus;
pub mod semantics;
pub mod cpu;
pub mod laws;
pub mod trace;
