//! The nestest-style trace line and the disassembler behind it.
use vstd::prelude::*;

use crate::bus::BusState;
use crate::cpu::Cpu;
use crate::instructions::{decode_opcode, mode_length, opcode_entry, AddresingMode, Instruction};
use crate::semantics::{branch_target, indirect_target, CpuState};

verus! {

/// The uppercase hexadecimal digit of `n` (below 16).
pub open spec fn hex_char(n: u8) -> char {
    match n {
        0 => '0',
        1 => '1',
        2 => '2',
        3 => '3',
        4 => '4',
        5 => '5',
        6 => '6',
        7 => '7',
        8 => '8',
        9 => '9',
        10 => 'A',
        11 => 'B',
        12 => 'C',
        13 => 'D',
        14 => 'E',
        15 => 'F',
        _ => '?',
    }
}

/// Two uppercase hex digits.
pub open spec fn hex2(v: u8) -> Seq<char> {
    seq![hex_char(v / 16), hex_char(v % 16)]
}

/// Four uppercase hex digits.
pub open spec fn hex4(w: u16) -> Seq<char> {
    hex2((w / 256) as u8) + hex2((w % 256) as u8)
}

/// `n` in decimal, without leading zeros.
pub open spec fn dec(n: nat) -> Seq<char>
    decreases n,
{
    if n < 10 {
        seq![hex_char(n as u8)]
    } else {
        dec(n / 10) + seq![hex_char((n % 10) as u8)]
    }
}

/// The three-letter mnemonic.
pub open spec fn mnemonic(i: Instruction) -> Seq<char> {
    match i {
        Instruction::ADC => seq!['A', 'D', 'C'],
        Instruction::AND => seq!['A', 'N', 'D'],
        Instruction::ASL => seq!['A', 'S', 'L'],
        Instruction::BCC => seq!['B', 'C', 'C'],
        Instruction::BCS => seq!['B', 'C', 'S'],
        Instruction::BEQ => seq!['B', 'E', 'Q'],
        Instruction::BIT => seq!['B', 'I', 'T'],
        Instruction::BMI => seq!['B', 'M', 'I'],
        Instruction::BNE => seq!['B', 'N', 'E'],
        Instruction::BPL => seq!['B', 'P', 'L'],
        Instruction::BRK => seq!['B', 'R', 'K'],
        Instruction::BVC => seq!['B', 'V', 'C'],
        Instruction::BVS => seq!['B', 'V', 'S'],
        Instruction::CLC => seq!['C', 'L', 'C'],
        Instruction::CLD => seq!['C', 'L', 'D'],
        Instruction::CLI => seq!['C', 'L', 'I'],
        Instruction::CLV => seq!['C', 'L', 'V'],
        Instruction::CMP => seq!['C', 'M', 'P'],
        Instruction::CPX => seq!['C', 'P', 'X'],
        Instruction::CPY => seq!['C', 'P', 'Y'],
        Instruction::DEC => seq!['D', 'E', 'C'],
        Instruction::DEX => seq!['D', 'E', 'X'],
        Instruction::DEY => seq!['D', 'E', 'Y'],
        Instruction::EOR => seq!['E', 'O', 'R'],
        Instruction::INC => seq!['I', 'N', 'C'],
        Instruction::INX => seq!['I', 'N', 'X'],
        Instruction::INY => seq!['I', 'N', 'Y'],
        Instruction::JMP => seq!['J', 'M', 'P'],
        Instruction::JSR => seq!['J', 'S', 'R'],
        Instruction::LDA => seq!['L', 'D', 'A'],
        Instruction::LDX => seq!['L', 'D', 'X'],
        Instruction::LDY => seq!['L', 'D', 'Y'],
        Instruction::LSR => seq!['L', 'S', 'R'],
        Instruction::NOP => seq!['N', 'O', 'P'],
        Instruction::ORA => seq!['O', 'R', 'A'],
        Instruction::PHA => seq!['P', 'H', 'A'],
        Instruction::PHP => seq!['P', 'H', 'P'],
        Instruction::PLA => seq!['P', 'L', 'A'],
        Instruction::PLP => seq!['P', 'L', 'P'],
        Instruction::ROL => seq!['R', 'O', 'L'],
        Instruction::ROR => seq!['R', 'O', 'R'],
        Instruction::RTI => seq!['R', 'T', 'I'],
        Instruction::RTS => seq!['R', 'T', 'S'],
        Instruction::SBC => seq!['S', 'B', 'C'],
        Instruction::SEC => seq!['S', 'E', 'C'],
        Instruction::SED => seq!['S', 'E', 'D'],
        Instruction::SEI => seq!['S', 'E', 'I'],
        Instruction::STA => seq!['S', 'T', 'A'],
        Instruction::STX => seq!['S', 'T', 'X'],
        Instruction::STY => seq!['S', 'T', 'Y'],
        Instruction::TAX => seq!['T', 'A', 'X'],
        Instruction::TAY => seq!['T', 'A', 'Y'],
        Instruction::TSX => seq!['T', 'S', 'X'],
        Instruction::TXA => seq!['T', 'X', 'A'],
        Instruction::TXS => seq!['T', 'X', 'S'],
        Instruction::TYA => seq!['T', 'Y', 'A'],
        Instruction::INV => seq!['I', 'N', 'V'],
    }
}

/// `$XX` and `$XXXX`.
pub open spec fn dollar2(b: u8) -> Seq<char> {
    seq!['$'] + hex2(b)
}

pub open spec fn dollar4(w: u16) -> Seq<char> {
    seq!['$'] + hex4(w)
}

/// `" = "`.
pub open spec fn equals() -> Seq<char> {
    seq![' ', '=', ' ']
}

/// `", X"` or `", Y"`.
pub open spec fn index_suffix(reg: char) -> Seq<char> {
    seq![',', ' ', reg]
}

/// `($XX, X) @ ZZ = PPPP = VV`.
pub open spec fn idx_text(b: u8, z: u8, p: u16, v: u8) -> Seq<char> {
    seq!['(', '$'] + hex2(b) + seq![',', ' ', 'X', ')', ' ', '@', ' '] + hex2(z) + equals() + hex4(p)
        + equals() + hex2(v)
}

/// `($XX),Y = PPPP @ EEEE = VV`.
pub open spec fn idy_text(b: u8, p: u16, e: u16, v: u8) -> Seq<char> {
    seq!['(', '$'] + hex2(b) + seq![')', ',', 'Y', ' ', '=', ' '] + hex4(p) + seq![' ', '@', ' ']
        + hex4(e) + equals() + hex2(v)
}

/// `($WWWW) = TTTT`.
pub open spec fn ind_text(w: u16, t: u16) -> Seq<char> {
    seq!['(', '$'] + hex4(w) + seq![')'] + equals() + hex4(t)
}

/// The operand as the disassembly shows it, for the instruction at `addr`.
pub open spec fn operand_text(s: CpuState, addr: u16) -> Seq<char> {
    let bus = s.bus;
    let op = opcode_entry(bus.read(addr));
    let b = bus.read(addr.wrapping_add(1));
    let w = bus.read_word(addr.wrapping_add(1));
    match op.addresing_mode {
        AddresingMode::NON | AddresingMode::IMP => seq![],
        AddresingMode::ACC => seq!['A'],
        AddresingMode::IMM => seq!['#'] + dollar2(b),
        AddresingMode::ZPG => dollar2(b) + equals() + hex2(bus.read(b as u16)),
        AddresingMode::ZPX => dollar2(b) + index_suffix('X'),
        AddresingMode::ZPY => dollar2(b) + index_suffix('Y'),
        AddresingMode::ABS => if op.instr is JMP || op.instr is JSR {
            dollar4(w)
        } else {
            dollar4(w) + equals() + hex2(bus.read(w))
        },
        AddresingMode::ABX => dollar4(w) + index_suffix('X'),
        AddresingMode::ABY => dollar4(w) + index_suffix('Y'),
        AddresingMode::IND => ind_text(w, indirect_target(bus, w)),
        AddresingMode::REL => dollar4(branch_target(addr.wrapping_add(2), b)),
        AddresingMode::IDX => {
            let z = b.wrapping_add(s.x);
            let p = bus.read_zp_word(z);
            idx_text(b, z, p, bus.read(p))
        },
        AddresingMode::IDY => {
            let p = bus.read_zp_word(b);
            let e = p.wrapping_add(s.y as u16);
            idy_text(b, p, e, bus.read(e))
        },
    }
}

/// The disassembly of the instruction at `addr`: its mnemonic, then a space
/// and its operand if it has one.
pub open spec fn disassembly(s: CpuState, addr: u16) -> Seq<char> {
    let m = mnemonic(opcode_entry(s.bus.read(addr)).instr);
    let t = operand_text(s, addr);
    if t.len() == 0 {
        m
    } else {
        m + seq![' '] + t
    }
}

/// `t` followed by spaces up to `width` characters.
pub open spec fn padded(t: Seq<char>, width: nat) -> Seq<char> {
    if t.len() < width {
        t + Seq::new((width - t.len()) as nat, |i: int| ' ')
    } else {
        t
    }
}

/// The instruction's bytes, each as `" XX"`, and `"   "` for each of the
/// three slots that it does not use.
pub open spec fn bytes_text(bus: BusState, pc: u16) -> Seq<char> {
    bytes_prefix(bus, pc, 3)
}

/// `" XX:VV"`: a register's label and value.
pub open spec fn reg_text(label: Seq<char>, v: u8) -> Seq<char> {
    seq![' '] + label + seq![':'] + hex2(v)
}

/// PC, a space, and the instruction's bytes.
pub open spec fn line_head(s: CpuState) -> Seq<char> {
    hex4(s.pc) + seq![' '] + bytes_text(s.bus, s.pc)
}

/// The registers, a stubbed PPU position and the cycle count.
pub open spec fn line_tail(s: CpuState) -> Seq<char> {
    reg_text(seq!['A'], s.a) + reg_text(seq!['X'], s.x) + reg_text(seq!['Y'], s.y) + reg_text(
        seq!['P'],
        s.p,
    ) + reg_text(seq!['S', 'P'], s.s) + seq![' ', 'P', 'P', 'U', ':', '-', '-', '-', ',', '-', '-', '-']
        + seq![' ', 'C', 'Y', 'C', ':'] + dec(s.bus.cycles)
}

/// One line of the trace for the instruction about to execute: PC, its
/// bytes, its disassembly starting at column 16, then from column 48 the
/// registers, a stubbed PPU position, and the cycle count.
pub open spec fn trace_line(s: CpuState) -> Seq<char> {
    line_head(s) + seq![' ', ' '] + padded(disassembly(s, s.pc), 31) + line_tail(s)
}

fn hex_digit(n: u8) -> (r: char)
    requires
        n < 16,
    ensures
        r == hex_char(n),
{
    match n {
        0 => '0',
        1 => '1',
        2 => '2',
        3 => '3',
        4 => '4',
        5 => '5',
        6 => '6',
        7 => '7',
        8 => '8',
        9 => '9',
        10 => 'A',
        11 => 'B',
        12 => 'C',
        13 => 'D',
        14 => 'E',
        15 => 'F',
        _ => 'F',
    }
}

fn push_hex2(out: &mut Vec<char>, v: u8)
    ensures
        final(out)@ == old(out)@ + hex2(v),
{
    out.push(hex_digit(v / 16));
    out.push(hex_digit(v % 16));
    assert(final(out)@ =~= old(out)@ + hex2(v));
}

fn push_hex4(out: &mut Vec<char>, w: u16)
    ensures
        final(out)@ == old(out)@ + hex4(w),
{
    push_hex2(out, (w / 256) as u8);
    push_hex2(out, (w % 256) as u8);
    assert(final(out)@ =~= old(out)@ + hex4(w));
}

fn push_dec(out: &mut Vec<char>, n: usize)
    ensures
        final(out)@ == old(out)@ + dec(n as nat),
    decreases n,
{
    if n >= 10 {
        push_dec(out, n / 10);
    }
    out.push(hex_digit((n % 10) as u8));
    assert(final(out)@ =~= old(out)@ + dec(n as nat));
}

fn mnemonic_chars(i: Instruction) -> (r: (char, char, char))
    ensures
        seq![r.0, r.1, r.2] == mnemonic(i),
{
    match i {
        Instruction::ADC => ('A', 'D', 'C'),
        Instruction::AND => ('A', 'N', 'D'),
        Instruction::ASL => ('A', 'S', 'L'),
        Instruction::BCC => ('B', 'C', 'C'),
        Instruction::BCS => ('B', 'C', 'S'),
        Instruction::BEQ => ('B', 'E', 'Q'),
        Instruction::BIT => ('B', 'I', 'T'),
        Instruction::BMI => ('B', 'M', 'I'),
        Instruction::BNE => ('B', 'N', 'E'),
        Instruction::BPL => ('B', 'P', 'L'),
        Instruction::BRK => ('B', 'R', 'K'),
        Instruction::BVC => ('B', 'V', 'C'),
        Instruction::BVS => ('B', 'V', 'S'),
        Instruction::CLC => ('C', 'L', 'C'),
        Instruction::CLD => ('C', 'L', 'D'),
        Instruction::CLI => ('C', 'L', 'I'),
        Instruction::CLV => ('C', 'L', 'V'),
        Instruction::CMP => ('C', 'M', 'P'),
        Instruction::CPX => ('C', 'P', 'X'),
        Instruction::CPY => ('C', 'P', 'Y'),
        Instruction::DEC => ('D', 'E', 'C'),
        Instruction::DEX => ('D', 'E', 'X'),
        Instruction::DEY => ('D', 'E', 'Y'),
        Instruction::EOR => ('E', 'O', 'R'),
        Instruction::INC => ('I', 'N', 'C'),
        Instruction::INX => ('I', 'N', 'X'),
        Instruction::INY => ('I', 'N', 'Y'),
        Instruction::JMP => ('J', 'M', 'P'),
        Instruction::JSR => ('J', 'S', 'R'),
        Instruction::LDA => ('L', 'D', 'A'),
        Instruction::LDX => ('L', 'D', 'X'),
        Instruction::LDY => ('L', 'D', 'Y'),
        Instruction::LSR => ('L', 'S', 'R'),
        Instruction::NOP => ('N', 'O', 'P'),
        Instruction::ORA => ('O', 'R', 'A'),
        Instruction::PHA => ('P', 'H', 'A'),
        Instruction::PHP => ('P', 'H', 'P'),
        Instruction::PLA => ('P', 'L', 'A'),
        Instruction::PLP => ('P', 'L', 'P'),
        Instruction::ROL => ('R', 'O', 'L'),
        Instruction::ROR => ('R', 'O', 'R'),
        Instruction::RTI => ('R', 'T', 'I'),
        Instruction::RTS => ('R', 'T', 'S'),
        Instruction::SBC => ('S', 'B', 'C'),
        Instruction::SEC => ('S', 'E', 'C'),
        Instruction::SED => ('S', 'E', 'D'),
        Instruction::SEI => ('S', 'E', 'I'),
        Instruction::STA => ('S', 'T', 'A'),
        Instruction::STX => ('S', 'T', 'X'),
        Instruction::STY => ('S', 'T', 'Y'),
        Instruction::TAX => ('T', 'A', 'X'),
        Instruction::TAY => ('T', 'A', 'Y'),
        Instruction::TSX => ('T', 'S', 'X'),
        Instruction::TXA => ('T', 'X', 'A'),
        Instruction::TXS => ('T', 'X', 'S'),
        Instruction::TYA => ('T', 'Y', 'A'),
        Instruction::INV => ('I', 'N', 'V'),
    }
}

fn push_dollar2(out: &mut Vec<char>, b: u8)
    ensures
        final(out)@ == old(out)@ + dollar2(b),
{
    out.push('$');
    push_hex2(out, b);
    assert(final(out)@ =~= old(out)@ + dollar2(b));
}

fn push_dollar4(out: &mut Vec<char>, w: u16)
    ensures
        final(out)@ == old(out)@ + dollar4(w),
{
    out.push('$');
    push_hex4(out, w);
    assert(final(out)@ =~= old(out)@ + dollar4(w));
}

fn push_equals(out: &mut Vec<char>)
    ensures
        final(out)@ == old(out)@ + equals(),
{
    out.push(' ');
    out.push('=');
    out.push(' ');
    assert(final(out)@ =~= old(out)@ + equals());
}

fn push_index_suffix(out: &mut Vec<char>, reg: char)
    ensures
        final(out)@ == old(out)@ + index_suffix(reg),
{
    out.push(',');
    out.push(' ');
    out.push(reg);
    assert(final(out)@ =~= old(out)@ + index_suffix(reg));
}

fn idx_chars(b: u8, z: u8, p: u16, v: u8) -> (r: Vec<char>)
    ensures
        r@ == idx_text(b, z, p, v),
{
    let mut out: Vec<char> = Vec::new();
    out.push('(');
    push_dollar2(&mut out, b);
    out.push(',');
    out.push(' ');
    out.push('X');
    out.push(')');
    out.push(' ');
    out.push('@');
    out.push(' ');
    push_hex2(&mut out, z);
    push_equals(&mut out);
    push_hex4(&mut out, p);
    push_equals(&mut out);
    push_hex2(&mut out, v);
    assert(out@ =~= idx_text(b, z, p, v));
    out
}

fn idy_chars(b: u8, p: u16, e: u16, v: u8) -> (r: Vec<char>)
    ensures
        r@ == idy_text(b, p, e, v),
{
    let mut out: Vec<char> = Vec::new();
    out.push('(');
    push_dollar2(&mut out, b);
    out.push(')');
    out.push(',');
    out.push('Y');
    push_equals(&mut out);
    push_hex4(&mut out, p);
    out.push(' ');
    out.push('@');
    out.push(' ');
    push_hex4(&mut out, e);
    push_equals(&mut out);
    push_hex2(&mut out, v);
    assert(out@ =~= idy_text(b, p, e, v));
    out
}

fn ind_chars(w: u16, t: u16) -> (r: Vec<char>)
    ensures
        r@ == ind_text(w, t),
{
    let mut out: Vec<char> = Vec::new();
    out.push('(');
    push_dollar4(&mut out, w);
    out.push(')');
    push_equals(&mut out);
    push_hex4(&mut out, t);
    assert(out@ =~= ind_text(w, t));
    out
}

/// The operand text of the instruction at `addr`.
fn operand_chars(cpu: &Cpu, addr: u16) -> (r: Vec<char>)
    requires
        cpu.wf(),
    ensures
        r@ == operand_text(cpu@, addr),
{
    let op = decode_opcode(cpu.bus.cpu_read(addr));
    let b = cpu.bus.cpu_read(addr.wrapping_add(1));
    let w = cpu.bus.cpu_read_word(addr.wrapping_add(1));
    let mut out: Vec<char> = Vec::new();
    match op.addresing_mode {
        AddresingMode::NON | AddresingMode::IMP => {},
        AddresingMode::ACC => {
            out.push('A');
        },
        AddresingMode::IMM => {
            out.push('#');
            push_dollar2(&mut out, b);
        },
        AddresingMode::ZPG => {
            push_dollar2(&mut out, b);
            push_equals(&mut out);
            push_hex2(&mut out, cpu.bus.cpu_read(b as u16));
        },
        AddresingMode::ZPX => {
            push_dollar2(&mut out, b);
            push_index_suffix(&mut out, 'X');
        },
        AddresingMode::ZPY => {
            push_dollar2(&mut out, b);
            push_index_suffix(&mut out, 'Y');
        },
        AddresingMode::ABS => {
            push_dollar4(&mut out, w);
            if !matches!(op.instr, Instruction::JMP | Instruction::JSR) {
                push_equals(&mut out);
                push_hex2(&mut out, cpu.bus.cpu_read(w));
            }
        },
        AddresingMode::ABX => {
            push_dollar4(&mut out, w);
            push_index_suffix(&mut out, 'X');
        },
        AddresingMode::ABY => {
            push_dollar4(&mut out, w);
            push_index_suffix(&mut out, 'Y');
        },
        AddresingMode::IND => {
            let target = if w % 256 == 0xFF {
                let lo = cpu.bus.cpu_read(w);
                let hi = cpu.bus.cpu_read(w - 0xFF);
                hi as u16 * 256 + lo as u16
            } else {
                cpu.bus.cpu_read_word(w)
            };
            out = ind_chars(w, target);
        },
        AddresingMode::REL => {
            let back: u16 = if b >= 128 {
                256
            } else {
                0
            };
            push_dollar4(&mut out, addr.wrapping_add(2).wrapping_add(b as u16).wrapping_sub(back));
        },
        AddresingMode::IDX => {
            let z = b.wrapping_add(cpu.reg_x);
            let p = cpu.bus.cpu_read_zp_word(z);
            out = idx_chars(b, z, p, cpu.bus.cpu_read(p));
        },
        AddresingMode::IDY => {
            let p = cpu.bus.cpu_read_zp_word(b);
            let e = p.wrapping_add(cpu.reg_y as u16);
            out = idy_chars(b, p, e, cpu.bus.cpu_read(e));
        },
    }
    assert(out@ =~= operand_text(cpu@, addr));
    out
}

fn push_disassembly(out: &mut Vec<char>, cpu: &Cpu, addr: u16)
    requires
        cpu.wf(),
    ensures
        final(out)@ == old(out)@ + disassembly(cpu@, addr),
{
    let op = decode_opcode(cpu.bus.cpu_read(addr));
    let (c0, c1, c2) = mnemonic_chars(op.instr);
    let mut text = operand_chars(cpu, addr);
    let ghost start = out@;
    out.push(c0);
    out.push(c1);
    out.push(c2);
    if text.len() > 0 {
        out.push(' ');
    }
    out.append(&mut text);
    assert(out@ =~= start + disassembly(cpu@, addr));
}

/// Relies on `String`'s `FromIterator<char>`: the string holds exactly the
/// given characters, in order.
#[verifier::external_body]
fn string_of(chars: Vec<char>) -> (r: String)
    ensures
        r@ == chars@,
{
    chars.into_iter().collect()
}

/// The disassembly of the instruction at `addr`, e.g. `LDA #$00`.
pub fn addr_to_instr(cpu: &Cpu, addr: u16) -> (r: String)
    requires
        cpu.wf(),
    ensures
        r@ == disassembly(cpu@, addr),
{
    let mut out: Vec<char> = Vec::new();
    push_disassembly(&mut out, cpu, addr);
    assert(out@ =~= disassembly(cpu@, addr));
    string_of(out)
}

fn push_reg(out: &mut Vec<char>, c0: char, c1: char, two: bool, v: u8)
    ensures
        final(out)@ == old(out)@ + reg_text(
            if two {
                seq![c0, c1]
            } else {
                seq![c0]
            },
            v,
        ),
{
    out.push(' ');
    out.push(c0);
    if two {
        out.push(c1);
    }
    out.push(':');
    push_hex2(out, v);
    assert(final(out)@ =~= old(out)@ + reg_text(
        if two {
            seq![c0, c1]
        } else {
            seq![c0]
        },
        v,
    ));
}

fn head_chars(cpu: &Cpu) -> (r: Vec<char>)
    requires
        cpu.wf(),
    ensures
        r@ == line_head(cpu@),
{
    let pc = cpu.program_counter;
    let op = decode_opcode(cpu.bus.cpu_read(pc));
    let len = op.get_length();
    let mut out: Vec<char> = Vec::new();
    push_hex4(&mut out, pc);
    out.push(' ');
    let ghost before = out@;
    let mut i: u16 = 0;
    while i < 3
        invariant
            i <= 3,
            cpu.wf(),
            pc == cpu@.pc,
            len == mode_length(opcode_entry(cpu@.bus.read(pc)).addresing_mode),
            out@ == before + bytes_prefix(cpu@.bus, pc, i),
        decreases 3 - i,
    {
        if i < len {
            out.push(' ');
            push_hex2(&mut out, cpu.bus.cpu_read(pc.wrapping_add(i)));
        } else {
            out.push(' ');
            out.push(' ');
            out.push(' ');
        }
        i = i + 1;
        assert(out@ =~= before + bytes_prefix(cpu@.bus, pc, i));
    }
    assert(out@ =~= line_head(cpu@));
    out
}

fn tail_chars(cpu: &Cpu) -> (r: Vec<char>)
    ensures
        r@ == line_tail(cpu@),
{
    let mut out: Vec<char> = Vec::new();
    push_reg(&mut out, 'A', ' ', false, cpu.reg_a);
    push_reg(&mut out, 'X', ' ', false, cpu.reg_x);
    push_reg(&mut out, 'Y', ' ', false, cpu.reg_y);
    push_reg(&mut out, 'P', ' ', false, cpu.status.bits());
    push_reg(&mut out, 'S', 'P', true, cpu.stack_pointer);
    let ghost regs = out@;
    out.push(' ');
    out.push('P');
    out.push('P');
    out.push('U');
    out.push(':');
    out.push('-');
    out.push('-');
    out.push('-');
    out.push(',');
    out.push('-');
    out.push('-');
    out.push('-');
    out.push(' ');
    out.push('C');
    out.push('Y');
    out.push('C');
    out.push(':');
    let ghost labels = out@;
    assert(labels =~= regs + seq![' ', 'P', 'P', 'U', ':', '-', '-', '-', ',', '-', '-', '-']
        + seq![' ', 'C', 'Y', 'C', ':']);
    push_dec(&mut out, cpu.bus.get_cycles());
    assert(out@ =~= line_tail(cpu@));
    out
}

/// The trace line for the instruction at PC, before it executes.
pub fn dump_current_instruction(cpu: &Cpu) -> (r: String)
    requires
        cpu.wf(),
    ensures
        r@ == trace_line(cpu@),
{
    let mut out = head_chars(cpu);
    out.push(' ');
    out.push(' ');
    let ghost head = out@;
    let mut dis: Vec<char> = Vec::new();
    push_disassembly(&mut dis, cpu, cpu.program_counter);
    let ghost dis_text = dis@;
    let dlen = dis.len();
    out.append(&mut dis);
    let ghost with_dis = out@;
    let mut k: usize = dlen;
    while k < 31
        invariant
            dlen <= k,
            dlen == dis_text.len(),
            k == dlen || k <= 31,
            out@ == with_dis + Seq::new((k - dlen) as nat, |j: int| ' '),
        decreases 31 - k,
    {
        out.push(' ');
        k = k + 1;
        assert(out@ =~= with_dis + Seq::new((k - dlen) as nat, |j: int| ' '));
    }
    assert(out@ =~= head + padded(dis_text, 31));
    let mut tail = tail_chars(cpu);
    out.append(&mut tail);
    assert(out@ =~= trace_line(cpu@));
    string_of(out)
}

/// The first `n` of the three byte slots of `bytes_text`.
pub open spec fn bytes_prefix(bus: BusState, pc: u16, n: u16) -> Seq<char>
    decreases n,
{
    if n == 0 {
        seq![]
    } else {
        let len = mode_length(opcode_entry(bus.read(pc)).addresing_mode);
        let i = (n - 1) as u16;
        bytes_prefix(bus, pc, i) + if i < len {
            seq![' '] + hex2(bus.read(pc.wrapping_add(i)))
        } else {
            seq![' ', ' ', ' ']
        }
    }
}

} // verus!
