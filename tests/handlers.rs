use nes_emu::cpu::Cpu;
use nes_emu::flags::{CpuFlags, FLAG_C, FLAG_N, FLAG_Z};
use nes_emu::instructions::imp_opcodes::{instr_dex, instr_inx, instr_sec};
use nes_emu::instructions::read_opcodes::instr_lda;
use nes_emu::instructions::utils::{get_input, get_value, read_instr_value, set_nz_flags};
use nes_emu::instructions::{AddresingMode, Instruction};
use nes_emu::instructions::decode_opcode;
use nes_emu::nes_parser::parse_ines_bytes;

fn cpu_with(code: &[u8]) -> Cpu {
    let mut image = vec![0x4E, 0x45, 0x53, 0x1A, 2, 0, 0, 0, 0, 0, 0, 0, 0, 0, 0, 0];
    let mut prg = vec![0u8; 32768];
    prg[..code.len()].copy_from_slice(code);
    prg[0x7FFC] = 0x00;
    prg[0x7FFD] = 0x80;
    image.extend_from_slice(&prg);
    Cpu::create_from_ines(parse_ines_bytes(&image).unwrap()).unwrap()
}

#[test]
fn get_input_indexed_page_cross() {
    let mut cpu = cpu_with(&[0xBD, 0xF0, 0x12]);
    cpu.reg_x = 0x20;
    assert_eq!(get_input(&cpu, AddresingMode::ABX), (0x1310, true));
    cpu.reg_x = 0x0F;
    assert_eq!(get_input(&cpu, AddresingMode::ABX), (0x12FF, false));
    assert_eq!(get_input(&cpu, AddresingMode::ZPG), (0xF0, false));
    assert_eq!(get_input(&cpu, AddresingMode::ABS), (0x12F0, false));
    cpu.reg_y = 0x20;
    assert_eq!(get_input(&cpu, AddresingMode::ZPY), (0x10, false));
    assert_eq!(get_input(&cpu, AddresingMode::IMP), (0, false));
}

#[test]
fn get_input_indirect_indexed() {
    let mut cpu = cpu_with(&[0xB1, 0x40]);
    cpu.bus.cpu_write(0x40, 0xF0);
    cpu.bus.cpu_write(0x41, 0x03);
    cpu.reg_y = 0x10;
    assert_eq!(get_input(&cpu, AddresingMode::IDY), (0x0400, true));
}

#[test]
fn read_instr_value_charges_crossing_for_reads() {
    let mut cpu = cpu_with(&[0xBD, 0xF0, 0x02]);
    cpu.reg_x = 0x20;
    cpu.bus.cpu_write(0x0310, 0x5E);
    assert_eq!(read_instr_value(&mut cpu, AddresingMode::ABX), (0x0310, 0x5E, true));
    assert_eq!(cpu.bus.get_cycles(), 8);
}

#[test]
fn read_instr_value_no_charge_for_stores() {
    let mut cpu = cpu_with(&[0x9D, 0xF0, 0x02]);
    cpu.reg_x = 0x20;
    assert_eq!(read_instr_value(&mut cpu, AddresingMode::ABX).2, false);
    assert_eq!(cpu.bus.get_cycles(), 7);
}

#[test]
fn get_value_reads_addresses_only() {
    let mut cpu = cpu_with(&[]);
    cpu.bus.cpu_write(0x0042, 0x99);
    assert_eq!(get_value(&cpu, AddresingMode::ZPG, 0x42), 0x99);
    assert_eq!(get_value(&cpu, AddresingMode::IMM, 0x42), 0x42);
}

#[test]
fn set_nz_flags_from_result() {
    let mut cpu = cpu_with(&[]);
    set_nz_flags(&mut cpu, 0x80);
    assert!(cpu.status.contains(FLAG_N) && !cpu.status.contains(FLAG_Z));
    set_nz_flags(&mut cpu, 0);
    assert!(!cpu.status.contains(FLAG_N) && cpu.status.contains(FLAG_Z));
}

#[test]
fn handlers_called_directly() {
    let mut cpu = cpu_with(&[0xA9, 0x7F]);
    instr_lda(&mut cpu, AddresingMode::IMM);
    assert_eq!(cpu.reg_a, 0x7F);
    assert_eq!(cpu.program_counter, 0x8000);
    instr_inx(&mut cpu, AddresingMode::IMP);
    instr_dex(&mut cpu, AddresingMode::IMP);
    instr_dex(&mut cpu, AddresingMode::IMP);
    assert_eq!(cpu.reg_x, 0xFF);
    assert!(cpu.status.contains(FLAG_N));
    instr_sec(&mut cpu, AddresingMode::IMP);
    assert_eq!(cpu.status.get_bit(CpuFlags::from_bits(FLAG_C)), 1);
}

#[test]
fn decode_table_entries() {
    let op = decode_opcode(0x71);
    assert_eq!(op.instr, Instruction::ADC);
    assert_eq!(op.addresing_mode, AddresingMode::IDY);
    assert_eq!(op.cycle_count, 5);
    assert_eq!(decode_opcode(0x02).instr, Instruction::INV);
    assert_eq!(AddresingMode::IND.get_length(), 3);
    assert!(AddresingMode::ZPX.is_input_address());
    assert!(!AddresingMode::IMM.is_input_address());
}

#[test]
fn every_step_costs_one_to_eight_cycles() {
    // A loop: LDX #$05; DEX; STA $0300,X; BNE -6 (to DEX); ROL $10; JMP ($0200)
    let mut cpu = cpu_with(&[
        0xA2, 0x05, 0xCA, 0x9D, 0x00, 0x03, 0xD0, 0xFA, 0x26, 0x10, 0x6C, 0x00, 0x02,
    ]);
    cpu.bus.cpu_write(0x0200, 0x00);
    cpu.bus.cpu_write(0x0201, 0x80);
    for _ in 0..40 {
        let before = cpu.bus.get_cycles();
        cpu.execute_next().unwrap();
        let delta = cpu.bus.get_cycles() - before;
        assert!((1..=8).contains(&delta));
    }
}
