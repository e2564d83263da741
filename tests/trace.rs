use nes_emu::cpu::Cpu;
use nes_emu::nes_parser::parse_ines_bytes;
use nes_emu::trace::{addr_to_instr, dump_current_instruction};

/// A 16 KiB NROM image (mirrored at `$8000` and `$C000`) holding `code` at
/// `$C000`.
fn cpu_with(code: &[u8]) -> Cpu {
    let mut image = vec![0x4E, 0x45, 0x53, 0x1A, 1, 0, 0, 0, 0, 0, 0, 0, 0, 0, 0, 0];
    let mut prg = vec![0u8; 16384];
    prg[..code.len()].copy_from_slice(code);
    prg[0x3FFC] = 0x00;
    prg[0x3FFD] = 0xC0;
    image.extend_from_slice(&prg);
    Cpu::create_from_ines(parse_ines_bytes(&image).unwrap()).unwrap()
}

#[test]
fn trace_line_of_jump() {
    let cpu = cpu_with(&[0x4C, 0xF5, 0xC5]);
    assert_eq!(
        dump_current_instruction(&cpu),
        "C000  4C F5 C5  JMP $C5F5                       A:00 X:00 Y:00 P:24 SP:FD PPU:---,--- CYC:7"
    );
}

#[test]
fn trace_line_pads_short_instructions() {
    let mut cpu = cpu_with(&[0xEA]);
    cpu.reg_a = 0xAB;
    cpu.bus.cycle(200);
    assert_eq!(
        dump_current_instruction(&cpu),
        "C000  EA        NOP                             A:AB X:00 Y:00 P:24 SP:FD PPU:---,--- CYC:207"
    );
}

#[test]
fn disassembly_formats() {
    let mut cpu = cpu_with(&[
        0xA9, 0x00, // LDA #$00
        0x86, 0x10, // STX $10
        0xB5, 0x33, // LDA $33, X
        0x8D, 0x00, 0x03, // STA $0300
        0x6C, 0xFF, 0x02, // JMP ($02FF)
        0xD0, 0xFC, // BNE -4
        0xA1, 0x80, // LDA ($80, X)
        0xB1, 0x89, // LDA ($89),Y
        0x0A, // ASL A
        0x20, 0x00, 0x80, // JSR $8000
        0xFF, // unassigned
    ]);
    cpu.bus.cpu_write(0x10, 0x5A);
    cpu.bus.cpu_write(0x0300, 0x11);
    cpu.bus.cpu_write(0x02FF, 0x40);
    cpu.bus.cpu_write(0x0200, 0x80);
    cpu.reg_x = 2;
    cpu.reg_y = 0x34;
    cpu.bus.cpu_write(0x82, 0x00);
    cpu.bus.cpu_write(0x83, 0x02);
    cpu.bus.cpu_write(0x0200, 0x80);
    cpu.bus.cpu_write(0x89, 0x00);
    cpu.bus.cpu_write(0x8A, 0x03);
    cpu.bus.cpu_write(0x0334, 0x66);
    assert_eq!(addr_to_instr(&cpu, 0xC000), "LDA #$00");
    assert_eq!(addr_to_instr(&cpu, 0xC002), "STX $10 = 5A");
    assert_eq!(addr_to_instr(&cpu, 0xC004), "LDA $33, X");
    assert_eq!(addr_to_instr(&cpu, 0xC006), "STA $0300 = 11");
    assert_eq!(addr_to_instr(&cpu, 0xC009), "JMP ($02FF) = 8040");
    assert_eq!(addr_to_instr(&cpu, 0xC00C), "BNE $C00A");
    assert_eq!(addr_to_instr(&cpu, 0xC00E), "LDA ($80, X) @ 82 = 0200 = 80");
    assert_eq!(addr_to_instr(&cpu, 0xC010), "LDA ($89),Y = 0300 @ 0334 = 66");
    assert_eq!(addr_to_instr(&cpu, 0xC012), "ASL A");
    assert_eq!(addr_to_instr(&cpu, 0xC013), "JSR $8000");
    assert_eq!(addr_to_instr(&cpu, 0xC016), "INV");
}

#[test]
fn opcode_table_lengths() {
    let cpu = cpu_with(&[]);
    let table = cpu.get_opcode_table();
    assert_eq!(table.len(), 256);
    assert_eq!(table[0x4C].get_length(), 3);
    assert_eq!(table[0xA9].get_length(), 2);
    assert_eq!(table[0xEA].get_length(), 1);
    assert_eq!(table[0x9D].cycle_count, 5);
    assert!(!table[0x9D].page_penalty);
    assert!(table[0xBD].page_penalty);
    assert_eq!(table.iter().filter(|o| o.cycle_count > 0).count(), 151);
}
