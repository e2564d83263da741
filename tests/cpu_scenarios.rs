use nes_emu::cpu::{Cpu, CpuError};
use nes_emu::flags::{FLAG_C, FLAG_N, FLAG_V, FLAG_Z};
use nes_emu::nes_parser::parse_ines_bytes;

/// A 32 KiB NROM image whose PRG-ROM holds `program` at `$8000` and the
/// reset vector `$8000`.
fn rom_with(program: &[(u16, u8)]) -> Vec<u8> {
    let mut image = vec![0x4E, 0x45, 0x53, 0x1A, 2, 1, 0, 0, 0, 0, 0, 0, 0, 0, 0, 0];
    let mut prg = vec![0u8; 32768];
    prg[0x7FFC] = 0x00;
    prg[0x7FFD] = 0x80;
    for &(addr, byte) in program {
        prg[(addr - 0x8000) as usize] = byte;
    }
    image.extend_from_slice(&prg);
    image.extend_from_slice(&vec![0u8; 8192]);
    image
}

fn cpu_with(program: &[(u16, u8)]) -> Cpu {
    let ines = parse_ines_bytes(&rom_with(program)).unwrap();
    Cpu::create_from_ines(ines).unwrap()
}

fn code_at(start: u16, bytes: &[u8]) -> Vec<(u16, u8)> {
    bytes.iter().enumerate().map(|(i, b)| (start + i as u16, *b)).collect()
}

fn flag(cpu: &Cpu, mask: u8) -> bool {
    cpu.status.contains(mask)
}

#[test]
fn reset_vector() {
    let cpu = cpu_with(&[]);
    assert_eq!(cpu.program_counter, 0x8000);
    assert_eq!(cpu.stack_pointer, 0xFD);
    assert_eq!(cpu.status.bits(), 0x24);
    assert_eq!(cpu.bus.get_cycles(), 7);
    assert_eq!((cpu.reg_a, cpu.reg_x, cpu.reg_y), (0, 0, 0));
}

#[test]
fn lda_immediate_sets_zero() {
    let mut cpu = cpu_with(&code_at(0x8000, &[0xA9, 0x00]));
    cpu.execute_next().unwrap();
    assert_eq!(cpu.reg_a, 0);
    assert!(flag(&cpu, FLAG_Z));
    assert!(!flag(&cpu, FLAG_N));
    assert_eq!(cpu.bus.get_cycles(), 9);
    assert_eq!(cpu.program_counter, 0x8002);
}

#[test]
fn adc_with_overflow() {
    let mut cpu = cpu_with(&code_at(0x8000, &[0x69, 0x50]));
    cpu.reg_a = 0x50;
    cpu.status.remove(FLAG_C);
    cpu.execute_next().unwrap();
    assert_eq!(cpu.reg_a, 0xA0);
    assert!(!flag(&cpu, FLAG_C));
    assert!(flag(&cpu, FLAG_V));
    assert!(flag(&cpu, FLAG_N));
    assert!(!flag(&cpu, FLAG_Z));
}

#[test]
fn jsr_rts_round_trip() {
    let mut program = code_at(0x8000, &[0x20, 0x10, 0x80]);
    program.push((0x8010, 0x60));
    let mut cpu = cpu_with(&program);
    cpu.execute_next().unwrap();
    assert_eq!(cpu.program_counter, 0x8010);
    assert_eq!(cpu.stack_pointer, 0xFB);
    cpu.execute_next().unwrap();
    assert_eq!(cpu.program_counter, 0x8003);
    assert_eq!(cpu.stack_pointer, 0xFD);
    assert_eq!(cpu.bus.cpu_read(0x01FC), 0x02);
    assert_eq!(cpu.bus.cpu_read(0x01FD), 0x80);
    assert_eq!(cpu.bus.get_cycles(), 7 + 6 + 6);
}

#[test]
fn indirect_jmp_page_wrap() {
    // $3000-$3FFF is the PPU register window on this bus, so the pointer
    // sits in RAM: $02FF = $40, $0200 = $80, $0300 = $50.
    let mut cpu = cpu_with(&code_at(0x8000, &[0x6C, 0xFF, 0x02]));
    cpu.bus.cpu_write(0x02FF, 0x40);
    cpu.bus.cpu_write(0x0200, 0x80);
    cpu.bus.cpu_write(0x0300, 0x50);
    cpu.execute_next().unwrap();
    assert_eq!(cpu.program_counter, 0x8040);
    assert_eq!(cpu.bus.get_cycles(), 7 + 5);
}

#[test]
fn zero_page_indexed_indirect_wraps() {
    // LDX #1; LDA ($FE,X): the pointer is read from $FF and $00.
    let mut cpu = cpu_with(&code_at(0x8000, &[0xA2, 0x01, 0xA1, 0xFE]));
    cpu.bus.cpu_write(0x00FF, 0x34);
    cpu.bus.cpu_write(0x0000, 0x02);
    cpu.bus.cpu_write(0x0100, 0x07);
    cpu.bus.cpu_write(0x0234, 0x99);
    cpu.execute_next().unwrap();
    cpu.execute_next().unwrap();
    assert_eq!(cpu.reg_a, 0x99);
    assert!(flag(&cpu, FLAG_N));
}

#[test]
fn zero_page_x_wraps() {
    // LDX #$10; LDA $F8,X reads $0008.
    let mut cpu = cpu_with(&code_at(0x8000, &[0xA2, 0x10, 0xB5, 0xF8]));
    cpu.bus.cpu_write(0x0008, 0x42);
    cpu.bus.cpu_write(0x0108, 0x13);
    cpu.execute_next().unwrap();
    cpu.execute_next().unwrap();
    assert_eq!(cpu.reg_a, 0x42);
}

#[test]
fn branch_costs() {
    // BNE not taken (Z set by LDA #0), then BEQ taken within the page.
    let mut cpu = cpu_with(&code_at(0x8000, &[0xA9, 0x00, 0xD0, 0x10, 0xF0, 0x10]));
    cpu.execute_next().unwrap();
    let c0 = cpu.bus.get_cycles();
    cpu.execute_next().unwrap();
    assert_eq!(cpu.bus.get_cycles() - c0, 2);
    assert_eq!(cpu.program_counter, 0x8004);
    cpu.execute_next().unwrap();
    assert_eq!(cpu.bus.get_cycles() - c0, 2 + 3);
    assert_eq!(cpu.program_counter, 0x8016);
}

#[test]
fn branch_across_page_costs_two_more() {
    // At $80F0: BEQ +$20 goes from next = $80F2 to $8112.
    let mut program = code_at(0x8000, &[0xA9, 0x00, 0x4C, 0xF0, 0x80]);
    program.extend(code_at(0x80F0, &[0xF0, 0x20]));
    let mut cpu = cpu_with(&program);
    cpu.execute_next().unwrap();
    cpu.execute_next().unwrap();
    assert_eq!(cpu.program_counter, 0x80F0);
    let c0 = cpu.bus.get_cycles();
    cpu.execute_next().unwrap();
    assert_eq!(cpu.program_counter, 0x8112);
    assert_eq!(cpu.bus.get_cycles() - c0, 4);
}

#[test]
fn backward_branch() {
    // At $8010: BNE -4 (taken, Z clear after reset) goes to $800E.
    let mut program = code_at(0x8000, &[0x4C, 0x10, 0x80]);
    program.extend(code_at(0x8010, &[0xD0, 0xFC]));
    let mut cpu = cpu_with(&program);
    cpu.execute_next().unwrap();
    cpu.execute_next().unwrap();
    assert_eq!(cpu.program_counter, 0x800E);
}

#[test]
fn page_cross_penalty_for_reads_only() {
    // LDX #$FF; LDA $02F1,X (crosses: 4 + 1); STA $02F1,X (always 5).
    let mut cpu = cpu_with(&code_at(
        0x8000,
        &[0xA2, 0xFF, 0xBD, 0xF1, 0x02, 0x9D, 0xF1, 0x02, 0xBD, 0x00, 0x02],
    ));
    cpu.bus.cpu_write(0x03F0, 0x77);
    cpu.execute_next().unwrap();
    let c0 = cpu.bus.get_cycles();
    cpu.execute_next().unwrap();
    assert_eq!(cpu.reg_a, 0x77);
    assert_eq!(cpu.bus.get_cycles() - c0, 5);
    let c1 = cpu.bus.get_cycles();
    cpu.execute_next().unwrap();
    assert_eq!(cpu.bus.get_cycles() - c1, 5);
    assert_eq!(cpu.bus.cpu_read(0x03F0), 0x77);
    // LDA $0200,X does not cross: 4 cycles.
    let c2 = cpu.bus.get_cycles();
    cpu.execute_next().unwrap();
    assert_eq!(cpu.bus.get_cycles() - c2, 4);
}

#[test]
fn adc_then_sbc_restores() {
    // SEC; LDA #$20; ADC #$35; SBC #$35
    let mut cpu = cpu_with(&code_at(0x8000, &[0x38, 0xA9, 0x20, 0x69, 0x35, 0xE9, 0x35]));
    for _ in 0..4 {
        cpu.execute_next().unwrap();
    }
    assert_eq!(cpu.reg_a, 0x20);
    assert!(flag(&cpu, FLAG_C));
}

#[test]
fn sbc_borrow() {
    // SEC; LDA #$10; SBC #$20 = $F0 with a borrow (C clear), N set.
    let mut cpu = cpu_with(&code_at(0x8000, &[0x38, 0xA9, 0x10, 0xE9, 0x20]));
    for _ in 0..3 {
        cpu.execute_next().unwrap();
    }
    assert_eq!(cpu.reg_a, 0xF0);
    assert!(!flag(&cpu, FLAG_C));
    assert!(flag(&cpu, FLAG_N));
}

#[test]
fn pha_pla_round_trip() {
    // LDA #$80; PHA; LDA #$00; PLA
    let mut cpu = cpu_with(&code_at(0x8000, &[0xA9, 0x80, 0x48, 0xA9, 0x00, 0x68]));
    for _ in 0..4 {
        cpu.execute_next().unwrap();
    }
    assert_eq!(cpu.reg_a, 0x80);
    assert_eq!(cpu.stack_pointer, 0xFD);
    assert!(flag(&cpu, FLAG_N));
    assert!(!flag(&cpu, FLAG_Z));
}

#[test]
fn php_plp_round_trip() {
    // SEC; SED; PHP; CLC; CLD; PLP
    let mut cpu = cpu_with(&code_at(0x8000, &[0x38, 0xF8, 0x08, 0x18, 0xD8, 0x28]));
    for _ in 0..3 {
        cpu.execute_next().unwrap();
    }
    assert_eq!(cpu.bus.cpu_read(0x01FD), 0x24 | 0x01 | 0x08 | 0x30);
    for _ in 0..3 {
        cpu.execute_next().unwrap();
    }
    assert_eq!(cpu.status.bits(), 0x24 | 0x01 | 0x08);
    assert_eq!(cpu.stack_pointer, 0xFD);
}

#[test]
fn stack_push_pop_balance() {
    let mut cpu = cpu_with(&[]);
    cpu.bus.cpu_write(0x01FE, 0xAB);
    cpu.stack_push(1);
    cpu.stack_push_word(0x1234);
    assert_eq!(cpu.stack_pointer, 0xFA);
    assert_eq!(cpu.stack_pop_word(), 0x1234);
    assert_eq!(cpu.stack_pop(), 1);
    assert_eq!(cpu.stack_pointer, 0xFD);
    assert_eq!(cpu.bus.cpu_read(0x01FE), 0xAB);
}

#[test]
fn stack_pointer_wraps() {
    let mut cpu = cpu_with(&[]);
    cpu.stack_pointer = 0x00;
    cpu.stack_push(0x5A);
    assert_eq!(cpu.stack_pointer, 0xFF);
    assert_eq!(cpu.bus.cpu_read(0x0100), 0x5A);
    assert_eq!(cpu.stack_pop(), 0x5A);
    assert_eq!(cpu.stack_pointer, 0x00);
}

#[test]
fn brk_and_rti() {
    // BRK at $8000 with the IRQ vector at $9000; RTI there.
    let mut program = vec![(0x8000, 0x00), (0xFFFE, 0x00), (0xFFFF, 0x90)];
    program.push((0x9000, 0x40));
    let mut cpu = cpu_with(&program);
    cpu.execute_next().unwrap();
    assert_eq!(cpu.program_counter, 0x9000);
    assert_eq!(cpu.stack_pointer, 0xFA);
    assert_eq!(cpu.bus.cpu_read(0x01FD), 0x80);
    assert_eq!(cpu.bus.cpu_read(0x01FC), 0x02);
    assert_eq!(cpu.bus.cpu_read(0x01FB), 0x24 | 0x30);
    assert_eq!(cpu.status.bits() & 0x04, 0x04);
    assert_eq!(cpu.bus.get_cycles(), 7 + 7);
    cpu.execute_next().unwrap();
    assert_eq!(cpu.program_counter, 0x8002);
    assert_eq!(cpu.stack_pointer, 0xFD);
    assert_eq!(cpu.status.bits(), 0x24);
}

#[test]
fn shifts_and_rotates() {
    // SEC; LDA #$81; ROL A -> $03, C=1; ROR A -> $81, C=1; ASL A -> $02, C=1; LSR A -> $01, C=0
    let mut cpu = cpu_with(&code_at(0x8000, &[0x38, 0xA9, 0x81, 0x2A, 0x6A, 0x0A, 0x4A]));
    cpu.execute_next().unwrap();
    cpu.execute_next().unwrap();
    cpu.execute_next().unwrap();
    assert_eq!(cpu.reg_a, 0x03);
    assert!(flag(&cpu, FLAG_C));
    cpu.execute_next().unwrap();
    assert_eq!(cpu.reg_a, 0x81);
    assert!(flag(&cpu, FLAG_C));
    cpu.execute_next().unwrap();
    assert_eq!(cpu.reg_a, 0x02);
    assert!(flag(&cpu, FLAG_C));
    cpu.execute_next().unwrap();
    assert_eq!(cpu.reg_a, 0x01);
    assert!(!flag(&cpu, FLAG_C));
}

#[test]
fn inc_dec_memory() {
    // INC $10; INC $10; DEC $11 -> $10 = 2, $11 = $FF with N.
    let mut cpu = cpu_with(&code_at(0x8000, &[0xE6, 0x10, 0xE6, 0x10, 0xC6, 0x11]));
    cpu.execute_next().unwrap();
    cpu.execute_next().unwrap();
    assert_eq!(cpu.bus.cpu_read(0x10), 2);
    cpu.execute_next().unwrap();
    assert_eq!(cpu.bus.cpu_read(0x11), 0xFF);
    assert!(flag(&cpu, FLAG_N));
    assert_eq!(cpu.bus.get_cycles(), 7 + 5 + 5 + 5);
}

#[test]
fn compare_sets_carry_and_nz() {
    // LDA #$40; CMP #$40 -> Z, C; CMP #$41 -> N, no C
    let mut cpu = cpu_with(&code_at(0x8000, &[0xA9, 0x40, 0xC9, 0x40, 0xC9, 0x41]));
    cpu.execute_next().unwrap();
    cpu.execute_next().unwrap();
    assert!(flag(&cpu, FLAG_Z) && flag(&cpu, FLAG_C));
    cpu.execute_next().unwrap();
    assert!(!flag(&cpu, FLAG_Z) && !flag(&cpu, FLAG_C) && flag(&cpu, FLAG_N));
}

#[test]
fn bit_copies_bits_six_and_seven() {
    // LDA #$01; BIT $20 with $20 = $C0 -> Z, V, N
    let mut cpu = cpu_with(&code_at(0x8000, &[0xA9, 0x01, 0x24, 0x20]));
    cpu.bus.cpu_write(0x20, 0xC0);
    cpu.execute_next().unwrap();
    cpu.execute_next().unwrap();
    assert!(flag(&cpu, FLAG_Z) && flag(&cpu, FLAG_V) && flag(&cpu, FLAG_N));
}

#[test]
fn transfers() {
    // LDX #$00; TXS (no flags); LDA #$05; TAY; DEY; TYA
    let mut cpu = cpu_with(&code_at(0x8000, &[0xA2, 0x00, 0x9A, 0xA9, 0x05, 0xA8, 0x88, 0x98]));
    cpu.execute_next().unwrap();
    cpu.execute_next().unwrap();
    assert_eq!(cpu.stack_pointer, 0);
    for _ in 0..4 {
        cpu.execute_next().unwrap();
    }
    assert_eq!(cpu.reg_a, 4);
    assert_eq!(cpu.reg_y, 4);
}

#[test]
fn illegal_opcode_is_reported() {
    let mut cpu = cpu_with(&code_at(0x8000, &[0x02]));
    assert_eq!(cpu.execute_next(), Err(CpuError::IllegalOpcode { pc: 0x8000, opcode: 0x02 }));
    assert_eq!(cpu.program_counter, 0x8000);
    assert_eq!(cpu.bus.get_cycles(), 7);
}

#[test]
fn ram_is_mirrored() {
    let mut cpu = cpu_with(&[]);
    cpu.bus.cpu_write(0x0801, 0x3C);
    assert_eq!(cpu.bus.cpu_read(0x0001), 0x3C);
    assert_eq!(cpu.bus.cpu_read(0x1801), 0x3C);
    cpu.bus.cpu_write(0x2000, 0x11);
    assert_eq!(cpu.bus.cpu_read(0x2000), 0);
    assert_eq!(cpu.bus.cpu_read(0x4000), 0);
}

#[test]
fn words_are_little_endian() {
    let mut cpu = cpu_with(&[]);
    cpu.bus.cpu_write_word(0x0300, 0xBEEF);
    assert_eq!(cpu.bus.cpu_read(0x0300), 0xEF);
    assert_eq!(cpu.bus.cpu_read_word(0x0300), 0xBEEF);
    cpu.bus.cpu_write_zp_word(0xFF, 0x1234);
    assert_eq!(cpu.bus.cpu_read(0x00FF), 0x34);
    assert_eq!(cpu.bus.cpu_read(0x0000), 0x12);
    assert_eq!(cpu.bus.cpu_read_zp_word(0xFF), 0x1234);
}

#[test]
fn cycle_counter_ticks() {
    let mut cpu = cpu_with(&[]);
    cpu.bus.cycle(3);
    assert_eq!(cpu.bus.get_cycles(), 10);
}

#[test]
fn pushes_come_back_last_first() {
    let mut cpu = cpu_with(&[]);
    for v in [3u8, 1, 4, 1, 5] {
        cpu.stack_push(v);
    }
    let pulled: Vec<u8> = (0..5).map(|_| cpu.stack_pop()).collect();
    assert_eq!(pulled, vec![5, 1, 4, 1, 3]);
    assert_eq!(cpu.stack_pointer, 0xFD);
}
