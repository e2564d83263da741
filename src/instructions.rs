use vstd::prelude::*;

pub mod branch_opcodes;
pub mod imp_opcodes;
pub mod read_opcodes;
pub mod rmw_opcodes;
pub mod routine_opcodes;
pub mod utils;
pub mod write_opcodes;

verus! {

/// How an instruction finds its operand.
#[allow(non_camel_case_types)]
#[derive(Clone, Copy, Debug, PartialEq, Eq, Structural)]
pub enum AddresingMode {
    /// No valid instruction.
    NON,
    /// Zero page.
    ZPG,
    /// Zero page, X.
    ZPX,
    /// Zero page, Y.
    ZPY,
    /// Absolute.
    ABS,
    /// Absolute, X.
    ABX,
    /// Absolute, Y.
    ABY,
    /// Indirect (JMP only).
    IND,
    /// Implied.
    IMP,
    /// Accumulator.
    ACC,
    /// Immediate.
    IMM,
    /// Relative (branches).
    REL,
    /// (Indirect, X).
    IDX,
    /// (Indirect), Y.
    IDY,
}

/// The mnemonics of the official instruction set, and `INV` for the bytes
/// that encode none of them.
#[allow(non_camel_case_types)]
#[derive(Clone, Copy, Debug, PartialEq, Eq, Structural)]
pub enum Instruction {
    ADC,
    AND,
    ASL,
    BCC,
    BCS,
    BEQ,
    BIT,
    BMI,
    BNE,
    BPL,
    BRK,
    BVC,
    BVS,
    CLC,
    CLD,
    CLI,
    CLV,
    CMP,
    CPX,
    CPY,
    DEC,
    DEX,
    DEY,
    EOR,
    INC,
    INX,
    INY,
    JMP,
    JSR,
    LDA,
    LDX,
    LDY,
    LSR,
    NOP,
    ORA,
    PHA,
    PHP,
    PLA,
    PLP,
    ROL,
    ROR,
    RTI,
    RTS,
    SBC,
    SEC,
    SED,
    SEI,
    STA,
    STX,
    STY,
    TAX,
    TAY,
    TSX,
    TXA,
    TXS,
    TYA,
    INV,
}

/// One entry of the opcode table.
#[derive(Clone, Copy, Debug, PartialEq, Eq, Structural)]
pub struct Opcode {
    pub instr: Instruction,
    pub addresing_mode: AddresingMode,
    /// Base cost in cycles.
    pub cycle_count: u8,
    /// Whether an indexed access that crosses a page costs one more cycle
    /// (true for the read instructions only).
    pub page_penalty: bool,
}

/// Whether the operand computed for `mode` is an address to be read or
/// written, rather than the value itself.
pub open spec fn is_address_mode(mode: AddresingMode) -> bool {
    !(mode is NON || mode is REL || mode is IMP || mode is ACC || mode is IMM)
}

/// Bytes that an instruction in `mode` takes, opcode byte included.
pub open spec fn mode_length(mode: AddresingMode) -> u16 {
    match mode {
        AddresingMode::NON | AddresingMode::IMP | AddresingMode::ACC => 1,
        AddresingMode::ZPG | AddresingMode::ZPX | AddresingMode::ZPY | AddresingMode::IMM
        | AddresingMode::REL | AddresingMode::IDX | AddresingMode::IDY => 2,
        AddresingMode::ABS | AddresingMode::ABX | AddresingMode::ABY | AddresingMode::IND => 3,
    }
}

impl AddresingMode {
    pub fn is_input_address(&self) -> (r: bool)
        ensures
            r == is_address_mode(*self),
    {
        match self {
            AddresingMode::NON
            | AddresingMode::REL
            | AddresingMode::IMP
            | AddresingMode::ACC
            | AddresingMode::IMM => false,
            _ => true,
        }
    }

    /// Bytes that an instruction in this mode takes, opcode byte included.
    pub fn get_length(&self) -> (r: u16)
        ensures
            r == mode_length(*self),
            1 <= r <= 3,
    {
        match self {
            AddresingMode::NON | AddresingMode::IMP | AddresingMode::ACC => 1,
            AddresingMode::ZPG
            | AddresingMode::ZPX
            | AddresingMode::ZPY
            | AddresingMode::IMM
            | AddresingMode::REL
            | AddresingMode::IDX
            | AddresingMode::IDY => 2,
            _ => 3,
        }
    }
}

impl Opcode {
    /// Bytes that this instruction takes, opcode byte included.
    pub fn get_length(&self) -> (r: u16)
        ensures
            r == mode_length(self.addresing_mode),
    {
        self.addresing_mode.get_length()
    }
}

/// Whether `instr` pays one cycle more when its indexed operand crosses a page.
pub open spec fn is_read_instr(instr: Instruction) -> bool {
    match instr {
        Instruction::ADC | Instruction::AND | Instruction::CMP | Instruction::EOR
        | Instruction::LDA | Instruction::LDX | Instruction::LDY | Instruction::ORA
        | Instruction::SBC | Instruction::BIT | Instruction::CPX | Instruction::CPY => true,
        _ => false,
    }
}

pub open spec fn spec_opcode(instr: Instruction, mode: AddresingMode, cycles: u8) -> Opcode {
    Opcode { instr, addresing_mode: mode, cycle_count: cycles, page_penalty: is_read_instr(instr) }
}

/// The table entry for an unassigned opcode byte.
pub open spec fn illegal_opcode() -> Opcode {
    Opcode {
        instr: Instruction::INV,
        addresing_mode: AddresingMode::NON,
        cycle_count: 0,
        page_penalty: false,
    }
}

/// The opcode table: what each of the 256 opcode bytes decodes to.
pub open spec fn opcode_entry(byte: u8) -> Opcode {
    match byte {
        0x00 => spec_opcode(Instruction::BRK, AddresingMode::IMP, 7),
        0x01 => spec_opcode(Instruction::ORA, AddresingMode::IDX, 6),
        0x05 => spec_opcode(Instruction::ORA, AddresingMode::ZPG, 3),
        0x06 => spec_opcode(Instruction::ASL, AddresingMode::ZPG, 5),
        0x08 => spec_opcode(Instruction::PHP, AddresingMode::IMP, 3),
        0x09 => spec_opcode(Instruction::ORA, AddresingMode::IMM, 2),
        0x0A => spec_opcode(Instruction::ASL, AddresingMode::ACC, 2),
        0x0D => spec_opcode(Instruction::ORA, AddresingMode::ABS, 4),
        0x0E => spec_opcode(Instruction::ASL, AddresingMode::ABS, 6),
        0x10 => spec_opcode(Instruction::BPL, AddresingMode::REL, 2),
        0x11 => spec_opcode(Instruction::ORA, AddresingMode::IDY, 5),
        0x15 => spec_opcode(Instruction::ORA, AddresingMode::ZPX, 4),
        0x16 => spec_opcode(Instruction::ASL, AddresingMode::ZPX, 6),
        0x18 => spec_opcode(Instruction::CLC, AddresingMode::IMP, 2),
        0x19 => spec_opcode(Instruction::ORA, AddresingMode::ABY, 4),
        0x1D => spec_opcode(Instruction::ORA, AddresingMode::ABX, 4),
        0x1E => spec_opcode(Instruction::ASL, AddresingMode::ABX, 7),
        0x20 => spec_opcode(Instruction::JSR, AddresingMode::ABS, 6),
        0x21 => spec_opcode(Instruction::AND, AddresingMode::IDX, 6),
        0x24 => spec_opcode(Instruction::BIT, AddresingMode::ZPG, 3),
        0x25 => spec_opcode(Instruction::AND, AddresingMode::ZPG, 3),
        0x26 => spec_opcode(Instruction::ROL, AddresingMode::ZPG, 5),
        0x28 => spec_opcode(Instruction::PLP, AddresingMode::IMP, 4),
        0x29 => spec_opcode(Instruction::AND, AddresingMode::IMM, 2),
        0x2A => spec_opcode(Instruction::ROL, AddresingMode::ACC, 2),
        0x2C => spec_opcode(Instruction::BIT, AddresingMode::ABS, 4),
        0x2D => spec_opcode(Instruction::AND, AddresingMode::ABS, 4),
        0x2E => spec_opcode(Instruction::ROL, AddresingMode::ABS, 6),
        0x30 => spec_opcode(Instruction::BMI, AddresingMode::REL, 2),
        0x31 => spec_opcode(Instruction::AND, AddresingMode::IDY, 5),
        0x35 => spec_opcode(Instruction::AND, AddresingMode::ZPX, 4),
        0x36 => spec_opcode(Instruction::ROL, AddresingMode::ZPX, 6),
        0x38 => spec_opcode(Instruction::SEC, AddresingMode::IMP, 2),
        0x39 => spec_opcode(Instruction::AND, AddresingMode::ABY, 4),
        0x3D => spec_opcode(Instruction::AND, AddresingMode::ABX, 4),
        0x3E => spec_opcode(Instruction::ROL, AddresingMode::ABX, 7),
        0x40 => spec_opcode(Instruction::RTI, AddresingMode::IMP, 6),
        0x41 => spec_opcode(Instruction::EOR, AddresingMode::IDX, 6),
        0x45 => spec_opcode(Instruction::EOR, AddresingMode::ZPG, 3),
        0x46 => spec_opcode(Instruction::LSR, AddresingMode::ZPG, 5),
        0x48 => spec_opcode(Instruction::PHA, AddresingMode::IMP, 3),
        0x49 => spec_opcode(Instruction::EOR, AddresingMode::IMM, 2),
        0x4A => spec_opcode(Instruction::LSR, AddresingMode::ACC, 2),
        0x4C => spec_opcode(Instruction::JMP, AddresingMode::ABS, 3),
        0x4D => spec_opcode(Instruction::EOR, AddresingMode::ABS, 4),
        0x4E => spec_opcode(Instruction::LSR, AddresingMode::ABS, 6),
        0x50 => spec_opcode(Instruction::BVC, AddresingMode::REL, 2),
        0x51 => spec_opcode(Instruction::EOR, AddresingMode::IDY, 5),
        0x55 => spec_opcode(Instruction::EOR, AddresingMode::ZPX, 4),
        0x56 => spec_opcode(Instruction::LSR, AddresingMode::ZPX, 6),
        0x58 => spec_opcode(Instruction::CLI, AddresingMode::IMP, 2),
        0x59 => spec_opcode(Instruction::EOR, AddresingMode::ABY, 4),
        0x5D => spec_opcode(Instruction::EOR, AddresingMode::ABX, 4),
        0x5E => spec_opcode(Instruction::LSR, AddresingMode::ABX, 7),
        0x60 => spec_opcode(Instruction::RTS, AddresingMode::IMP, 6),
        0x61 => spec_opcode(Instruction::ADC, AddresingMode::IDX, 6),
        0x65 => spec_opcode(Instruction::ADC, AddresingMode::ZPG, 3),
        0x66 => spec_opcode(Instruction::ROR, AddresingMode::ZPG, 5),
        0x68 => spec_opcode(Instruction::PLA, AddresingMode::IMP, 4),
        0x69 => spec_opcode(Instruction::ADC, AddresingMode::IMM, 2),
        0x6A => spec_opcode(Instruction::ROR, AddresingMode::ACC, 2),
        0x6C => spec_opcode(Instruction::JMP, AddresingMode::IND, 5),
        0x6D => spec_opcode(Instruction::ADC, AddresingMode::ABS, 4),
        0x6E => spec_opcode(Instruction::ROR, AddresingMode::ABS, 6),
        0x70 => spec_opcode(Instruction::BVS, AddresingMode::REL, 2),
        0x71 => spec_opcode(Instruction::ADC, AddresingMode::IDY, 5),
        0x75 => spec_opcode(Instruction::ADC, AddresingMode::ZPX, 4),
        0x76 => spec_opcode(Instruction::ROR, AddresingMode::ZPX, 6),
        0x78 => spec_opcode(Instruction::SEI, AddresingMode::IMP, 2),
        0x79 => spec_opcode(Instruction::ADC, AddresingMode::ABY, 4),
        0x7D => spec_opcode(Instruction::ADC, AddresingMode::ABX, 4),
        0x7E => spec_opcode(Instruction::ROR, AddresingMode::ABX, 7),
        0x81 => spec_opcode(Instruction::STA, AddresingMode::IDX, 6),
        0x84 => spec_opcode(Instruction::STY, AddresingMode::ZPG, 3),
        0x85 => spec_opcode(Instruction::STA, AddresingMode::ZPG, 3),
        0x86 => spec_opcode(Instruction::STX, AddresingMode::ZPG, 3),
        0x88 => spec_opcode(Instruction::DEY, AddresingMode::IMP, 2),
        0x8A => spec_opcode(Instruction::TXA, AddresingMode::IMP, 2),
        0x8C => spec_opcode(Instruction::STY, AddresingMode::ABS, 4),
        0x8D => spec_opcode(Instruction::STA, AddresingMode::ABS, 4),
        0x8E => spec_opcode(Instruction::STX, AddresingMode::ABS, 4),
        0x90 => spec_opcode(Instruction::BCC, AddresingMode::REL, 2),
        0x91 => spec_opcode(Instruction::STA, AddresingMode::IDY, 6),
        0x94 => spec_opcode(Instruction::STY, AddresingMode::ZPX, 4),
        0x95 => spec_opcode(Instruction::STA, AddresingMode::ZPX, 4),
        0x96 => spec_opcode(Instruction::STX, AddresingMode::ZPY, 4),
        0x98 => spec_opcode(Instruction::TYA, AddresingMode::IMP, 2),
        0x99 => spec_opcode(Instruction::STA, AddresingMode::ABY, 5),
        0x9A => spec_opcode(Instruction::TXS, AddresingMode::IMP, 2),
        0x9D => spec_opcode(Instruction::STA, AddresingMode::ABX, 5),
        0xA0 => spec_opcode(Instruction::LDY, AddresingMode::IMM, 2),
        0xA1 => spec_opcode(Instruction::LDA, AddresingMode::IDX, 6),
        0xA2 => spec_opcode(Instruction::LDX, AddresingMode::IMM, 2),
        0xA4 => spec_opcode(Instruction::LDY, AddresingMode::ZPG, 3),
        0xA5 => spec_opcode(Instruction::LDA, AddresingMode::ZPG, 3),
        0xA6 => spec_opcode(Instruction::LDX, AddresingMode::ZPG, 3),
        0xA8 => spec_opcode(Instruction::TAY, AddresingMode::IMP, 2),
        0xA9 => spec_opcode(Instruction::LDA, AddresingMode::IMM, 2),
        0xAA => spec_opcode(Instruction::TAX, AddresingMode::IMP, 2),
        0xAC => spec_opcode(Instruction::LDY, AddresingMode::ABS, 4),
        0xAD => spec_opcode(Instruction::LDA, AddresingMode::ABS, 4),
        0xAE => spec_opcode(Instruction::LDX, AddresingMode::ABS, 4),
        0xB0 => spec_opcode(Instruction::BCS, AddresingMode::REL, 2),
        0xB1 => spec_opcode(Instruction::LDA, AddresingMode::IDY, 5),
        0xB4 => spec_opcode(Instruction::LDY, AddresingMode::ZPX, 4),
        0xB5 => spec_opcode(Instruction::LDA, AddresingMode::ZPX, 4),
        0xB6 => spec_opcode(Instruction::LDX, AddresingMode::ZPY, 4),
        0xB8 => spec_opcode(Instruction::CLV, AddresingMode::IMP, 2),
        0xB9 => spec_opcode(Instruction::LDA, AddresingMode::ABY, 4),
        0xBA => spec_opcode(Instruction::TSX, AddresingMode::IMP, 2),
        0xBC => spec_opcode(Instruction::LDY, AddresingMode::ABX, 4),
        0xBD => spec_opcode(Instruction::LDA, AddresingMode::ABX, 4),
        0xBE => spec_opcode(Instruction::LDX, AddresingMode::ABY, 4),
        0xC0 => spec_opcode(Instruction::CPY, AddresingMode::IMM, 2),
        0xC1 => spec_opcode(Instruction::CMP, AddresingMode::IDX, 6),
        0xC4 => spec_opcode(Instruction::CPY, AddresingMode::ZPG, 3),
        0xC5 => spec_opcode(Instruction::CMP, AddresingMode::ZPG, 3),
        0xC6 => spec_opcode(Instruction::DEC, AddresingMode::ZPG, 5),
        0xC8 => spec_opcode(Instruction::INY, AddresingMode::IMP, 2),
        0xC9 => spec_opcode(Instruction::CMP, AddresingMode::IMM, 2),
        0xCA => spec_opcode(Instruction::DEX, AddresingMode::IMP, 2),
        0xCC => spec_opcode(Instruction::CPY, AddresingMode::ABS, 4),
        0xCD => spec_opcode(Instruction::CMP, AddresingMode::ABS, 4),
        0xCE => spec_opcode(Instruction::DEC, AddresingMode::ABS, 6),
        0xD0 => spec_opcode(Instruction::BNE, AddresingMode::REL, 2),
        0xD1 => spec_opcode(Instruction::CMP, AddresingMode::IDY, 5),
        0xD5 => spec_opcode(Instruction::CMP, AddresingMode::ZPX, 4),
        0xD6 => spec_opcode(Instruction::DEC, AddresingMode::ZPX, 6),
        0xD8 => spec_opcode(Instruction::CLD, AddresingMode::IMP, 2),
        0xD9 => spec_opcode(Instruction::CMP, AddresingMode::ABY, 4),
        0xDD => spec_opcode(Instruction::CMP, AddresingMode::ABX, 4),
        0xDE => spec_opcode(Instruction::DEC, AddresingMode::ABX, 7),
        0xE0 => spec_opcode(Instruction::CPX, AddresingMode::IMM, 2),
        0xE1 => spec_opcode(Instruction::SBC, AddresingMode::IDX, 6),
        0xE4 => spec_opcode(Instruction::CPX, AddresingMode::ZPG, 3),
        0xE5 => spec_opcode(Instruction::SBC, AddresingMode::ZPG, 3),
        0xE6 => spec_opcode(Instruction::INC, AddresingMode::ZPG, 5),
        0xE8 => spec_opcode(Instruction::INX, AddresingMode::IMP, 2),
        0xE9 => spec_opcode(Instruction::SBC, AddresingMode::IMM, 2),
        0xEA => spec_opcode(Instruction::NOP, AddresingMode::IMP, 2),
        0xEC => spec_opcode(Instruction::CPX, AddresingMode::ABS, 4),
        0xED => spec_opcode(Instruction::SBC, AddresingMode::ABS, 4),
        0xEE => spec_opcode(Instruction::INC, AddresingMode::ABS, 6),
        0xF0 => spec_opcode(Instruction::BEQ, AddresingMode::REL, 2),
        0xF1 => spec_opcode(Instruction::SBC, AddresingMode::IDY, 5),
        0xF5 => spec_opcode(Instruction::SBC, AddresingMode::ZPX, 4),
        0xF6 => spec_opcode(Instruction::INC, AddresingMode::ZPX, 6),
        0xF8 => spec_opcode(Instruction::SED, AddresingMode::IMP, 2),
        0xF9 => spec_opcode(Instruction::SBC, AddresingMode::ABY, 4),
        0xFD => spec_opcode(Instruction::SBC, AddresingMode::ABX, 4),
        0xFE => spec_opcode(Instruction::INC, AddresingMode::ABX, 7),
        _ => illegal_opcode(),
    }
}

fn is_read_instr_exec(instr: Instruction) -> (r: bool)
    ensures
        r == is_read_instr(instr),
{
    match instr {
        Instruction::ADC | Instruction::AND | Instruction::CMP | Instruction::EOR
        | Instruction::LDA | Instruction::LDX | Instruction::LDY | Instruction::ORA
        | Instruction::SBC | Instruction::BIT | Instruction::CPX | Instruction::CPY => true,
        _ => false,
    }
}

fn make_opcode(instr: Instruction, addresing_mode: AddresingMode, cycle_count: u8) -> (r: Opcode)
    ensures
        r == spec_opcode(instr, addresing_mode, cycle_count),
{
    Opcode { instr, addresing_mode, cycle_count, page_penalty: is_read_instr_exec(instr) }
}

/// Decodes one opcode byte.
pub fn decode_opcode(byte: u8) -> (r: Opcode)
    ensures
        r == opcode_entry(byte),
{
    match byte {
        0x00 => make_opcode(Instruction::BRK, AddresingMode::IMP, 7),
        0x01 => make_opcode(Instruction::ORA, AddresingMode::IDX, 6),
        0x05 => make_opcode(Instruction::ORA, AddresingMode::ZPG, 3),
        0x06 => make_opcode(Instruction::ASL, AddresingMode::ZPG, 5),
        0x08 => make_opcode(Instruction::PHP, AddresingMode::IMP, 3),
        0x09 => make_opcode(Instruction::ORA, AddresingMode::IMM, 2),
        0x0A => make_opcode(Instruction::ASL, AddresingMode::ACC, 2),
        0x0D => make_opcode(Instruction::ORA, AddresingMode::ABS, 4),
        0x0E => make_opcode(Instruction::ASL, AddresingMode::ABS, 6),
        0x10 => make_opcode(Instruction::BPL, AddresingMode::REL, 2),
        0x11 => make_opcode(Instruction::ORA, AddresingMode::IDY, 5),
        0x15 => make_opcode(Instruction::ORA, AddresingMode::ZPX, 4),
        0x16 => make_opcode(Instruction::ASL, AddresingMode::ZPX, 6),
        0x18 => make_opcode(Instruction::CLC, AddresingMode::IMP, 2),
        0x19 => make_opcode(Instruction::ORA, AddresingMode::ABY, 4),
        0x1D => make_opcode(Instruction::ORA, AddresingMode::ABX, 4),
        0x1E => make_opcode(Instruction::ASL, AddresingMode::ABX, 7),
        0x20 => make_opcode(Instruction::JSR, AddresingMode::ABS, 6),
        0x21 => make_opcode(Instruction::AND, AddresingMode::IDX, 6),
        0x24 => make_opcode(Instruction::BIT, AddresingMode::ZPG, 3),
        0x25 => make_opcode(Instruction::AND, AddresingMode::ZPG, 3),
        0x26 => make_opcode(Instruction::ROL, AddresingMode::ZPG, 5),
        0x28 => make_opcode(Instruction::PLP, AddresingMode::IMP, 4),
        0x29 => make_opcode(Instruction::AND, AddresingMode::IMM, 2),
        0x2A => make_opcode(Instruction::ROL, AddresingMode::ACC, 2),
        0x2C => make_opcode(Instruction::BIT, AddresingMode::ABS, 4),
        0x2D => make_opcode(Instruction::AND, AddresingMode::ABS, 4),
        0x2E => make_opcode(Instruction::ROL, AddresingMode::ABS, 6),
        0x30 => make_opcode(Instruction::BMI, AddresingMode::REL, 2),
        0x31 => make_opcode(Instruction::AND, AddresingMode::IDY, 5),
        0x35 => make_opcode(Instruction::AND, AddresingMode::ZPX, 4),
        0x36 => make_opcode(Instruction::ROL, AddresingMode::ZPX, 6),
        0x38 => make_opcode(Instruction::SEC, AddresingMode::IMP, 2),
        0x39 => make_opcode(Instruction::AND, AddresingMode::ABY, 4),
        0x3D => make_opcode(Instruction::AND, AddresingMode::ABX, 4),
        0x3E => make_opcode(Instruction::ROL, AddresingMode::ABX, 7),
        0x40 => make_opcode(Instruction::RTI, AddresingMode::IMP, 6),
        0x41 => make_opcode(Instruction::EOR, AddresingMode::IDX, 6),
        0x45 => make_opcode(Instruction::EOR, AddresingMode::ZPG, 3),
        0x46 => make_opcode(Instruction::LSR, AddresingMode::ZPG, 5),
        0x48 => make_opcode(Instruction::PHA, AddresingMode::IMP, 3),
        0x49 => make_opcode(Instruction::EOR, AddresingMode::IMM, 2),
        0x4A => make_opcode(Instruction::LSR, AddresingMode::ACC, 2),
        0x4C => make_opcode(Instruction::JMP, AddresingMode::ABS, 3),
        0x4D => make_opcode(Instruction::EOR, AddresingMode::ABS, 4),
        0x4E => make_opcode(Instruction::LSR, AddresingMode::ABS, 6),
        0x50 => make_opcode(Instruction::BVC, AddresingMode::REL, 2),
        0x51 => make_opcode(Instruction::EOR, AddresingMode::IDY, 5),
        0x55 => make_opcode(Instruction::EOR, AddresingMode::ZPX, 4),
        0x56 => make_opcode(Instruction::LSR, AddresingMode::ZPX, 6),
        0x58 => make_opcode(Instruction::CLI, AddresingMode::IMP, 2),
        0x59 => make_opcode(Instruction::EOR, AddresingMode::ABY, 4),
        0x5D => make_opcode(Instruction::EOR, AddresingMode::ABX, 4),
        0x5E => make_opcode(Instruction::LSR, AddresingMode::ABX, 7),
        0x60 => make_opcode(Instruction::RTS, AddresingMode::IMP, 6),
        0x61 => make_opcode(Instruction::ADC, AddresingMode::IDX, 6),
        0x65 => make_opcode(Instruction::ADC, AddresingMode::ZPG, 3),
        0x66 => make_opcode(Instruction::ROR, AddresingMode::ZPG, 5),
        0x68 => make_opcode(Instruction::PLA, AddresingMode::IMP, 4),
        0x69 => make_opcode(Instruction::ADC, AddresingMode::IMM, 2),
        0x6A => make_opcode(Instruction::ROR, AddresingMode::ACC, 2),
        0x6C => make_opcode(Instruction::JMP, AddresingMode::IND, 5),
        0x6D => make_opcode(Instruction::ADC, AddresingMode::ABS, 4),
        0x6E => make_opcode(Instruction::ROR, AddresingMode::ABS, 6),
        0x70 => make_opcode(Instruction::BVS, AddresingMode::REL, 2),
        0x71 => make_opcode(Instruction::ADC, AddresingMode::IDY, 5),
        0x75 => make_opcode(Instruction::ADC, AddresingMode::ZPX, 4),
        0x76 => make_opcode(Instruction::ROR, AddresingMode::ZPX, 6),
        0x78 => make_opcode(Instruction::SEI, AddresingMode::IMP, 2),
        0x79 => make_opcode(Instruction::ADC, AddresingMode::ABY, 4),
        0x7D => make_opcode(Instruction::ADC, AddresingMode::ABX, 4),
        0x7E => make_opcode(Instruction::ROR, AddresingMode::ABX, 7),
        0x81 => make_opcode(Instruction::STA, AddresingMode::IDX, 6),
        0x84 => make_opcode(Instruction::STY, AddresingMode::ZPG, 3),
        0x85 => make_opcode(Instruction::STA, AddresingMode::ZPG, 3),
        0x86 => make_opcode(Instruction::STX, AddresingMode::ZPG, 3),
        0x88 => make_opcode(Instruction::DEY, AddresingMode::IMP, 2),
        0x8A => make_opcode(Instruction::TXA, AddresingMode::IMP, 2),
        0x8C => make_opcode(Instruction::STY, AddresingMode::ABS, 4),
        0x8D => make_opcode(Instruction::STA, AddresingMode::ABS, 4),
        0x8E => make_opcode(Instruction::STX, AddresingMode::ABS, 4),
        0x90 => make_opcode(Instruction::BCC, AddresingMode::REL, 2),
        0x91 => make_opcode(Instruction::STA, AddresingMode::IDY, 6),
        0x94 => make_opcode(Instruction::STY, AddresingMode::ZPX, 4),
        0x95 => make_opcode(Instruction::STA, AddresingMode::ZPX, 4),
        0x96 => make_opcode(Instruction::STX, AddresingMode::ZPY, 4),
        0x98 => make_opcode(Instruction::TYA, AddresingMode::IMP, 2),
        0x99 => make_opcode(Instruction::STA, AddresingMode::ABY, 5),
        0x9A => make_opcode(Instruction::TXS, AddresingMode::IMP, 2),
        0x9D => make_opcode(Instruction::STA, AddresingMode::ABX, 5),
        0xA0 => make_opcode(Instruction::LDY, AddresingMode::IMM, 2),
        0xA1 => make_opcode(Instruction::LDA, AddresingMode::IDX, 6),
        0xA2 => make_opcode(Instruction::LDX, AddresingMode::IMM, 2),
        0xA4 => make_opcode(Instruction::LDY, AddresingMode::ZPG, 3),
        0xA5 => make_opcode(Instruction::LDA, AddresingMode::ZPG, 3),
        0xA6 => make_opcode(Instruction::LDX, AddresingMode::ZPG, 3),
        0xA8 => make_opcode(Instruction::TAY, AddresingMode::IMP, 2),
        0xA9 => make_opcode(Instruction::LDA, AddresingMode::IMM, 2),
        0xAA => make_opcode(Instruction::TAX, AddresingMode::IMP, 2),
        0xAC => make_opcode(Instruction::LDY, AddresingMode::ABS, 4),
        0xAD => make_opcode(Instruction::LDA, AddresingMode::ABS, 4),
        0xAE => make_opcode(Instruction::LDX, AddresingMode::ABS, 4),
        0xB0 => make_opcode(Instruction::BCS, AddresingMode::REL, 2),
        0xB1 => make_opcode(Instruction::LDA, AddresingMode::IDY, 5),
        0xB4 => make_opcode(Instruction::LDY, AddresingMode::ZPX, 4),
        0xB5 => make_opcode(Instruction::LDA, AddresingMode::ZPX, 4),
        0xB6 => make_opcode(Instruction::LDX, AddresingMode::ZPY, 4),
        0xB8 => make_opcode(Instruction::CLV, AddresingMode::IMP, 2),
        0xB9 => make_opcode(Instruction::LDA, AddresingMode::ABY, 4),
        0xBA => make_opcode(Instruction::TSX, AddresingMode::IMP, 2),
        0xBC => make_opcode(Instruction::LDY, AddresingMode::ABX, 4),
        0xBD => make_opcode(Instruction::LDA, AddresingMode::ABX, 4),
        0xBE => make_opcode(Instruction::LDX, AddresingMode::ABY, 4),
        0xC0 => make_opcode(Instruction::CPY, AddresingMode::IMM, 2),
        0xC1 => make_opcode(Instruction::CMP, AddresingMode::IDX, 6),
        0xC4 => make_opcode(Instruction::CPY, AddresingMode::ZPG, 3),
        0xC5 => make_opcode(Instruction::CMP, AddresingMode::ZPG, 3),
        0xC6 => make_opcode(Instruction::DEC, AddresingMode::ZPG, 5),
        0xC8 => make_opcode(Instruction::INY, AddresingMode::IMP, 2),
        0xC9 => make_opcode(Instruction::CMP, AddresingMode::IMM, 2),
        0xCA => make_opcode(Instruction::DEX, AddresingMode::IMP, 2),
        0xCC => make_opcode(Instruction::CPY, AddresingMode::ABS, 4),
        0xCD => make_opcode(Instruction::CMP, AddresingMode::ABS, 4),
        0xCE => make_opcode(Instruction::DEC, AddresingMode::ABS, 6),
        0xD0 => make_opcode(Instruction::BNE, AddresingMode::REL, 2),
        0xD1 => make_opcode(Instruction::CMP, AddresingMode::IDY, 5),
        0xD5 => make_opcode(Instruction::CMP, AddresingMode::ZPX, 4),
        0xD6 => make_opcode(Instruction::DEC, AddresingMode::ZPX, 6),
        0xD8 => make_opcode(Instruction::CLD, AddresingMode::IMP, 2),
        0xD9 => make_opcode(Instruction::CMP, AddresingMode::ABY, 4),
        0xDD => make_opcode(Instruction::CMP, AddresingMode::ABX, 4),
        0xDE => make_opcode(Instruction::DEC, AddresingMode::ABX, 7),
        0xE0 => make_opcode(Instruction::CPX, AddresingMode::IMM, 2),
        0xE1 => make_opcode(Instruction::SBC, AddresingMode::IDX, 6),
        0xE4 => make_opcode(Instruction::CPX, AddresingMode::ZPG, 3),
        0xE5 => make_opcode(Instruction::SBC, AddresingMode::ZPG, 3),
        0xE6 => make_opcode(Instruction::INC, AddresingMode::ZPG, 5),
        0xE8 => make_opcode(Instruction::INX, AddresingMode::IMP, 2),
        0xE9 => make_opcode(Instruction::SBC, AddresingMode::IMM, 2),
        0xEA => make_opcode(Instruction::NOP, AddresingMode::IMP, 2),
        0xEC => make_opcode(Instruction::CPX, AddresingMode::ABS, 4),
        0xED => make_opcode(Instruction::SBC, AddresingMode::ABS, 4),
        0xEE => make_opcode(Instruction::INC, AddresingMode::ABS, 6),
        0xF0 => make_opcode(Instruction::BEQ, AddresingMode::REL, 2),
        0xF1 => make_opcode(Instruction::SBC, AddresingMode::IDY, 5),
        0xF5 => make_opcode(Instruction::SBC, AddresingMode::ZPX, 4),
        0xF6 => make_opcode(Instruction::INC, AddresingMode::ZPX, 6),
        0xF8 => make_opcode(Instruction::SED, AddresingMode::IMP, 2),
        0xF9 => make_opcode(Instruction::SBC, AddresingMode::ABY, 4),
        0xFD => make_opcode(Instruction::SBC, AddresingMode::ABX, 4),
        0xFE => make_opcode(Instruction::INC, AddresingMode::ABX, 7),
        _ => Opcode {
            instr: Instruction::INV,
            addresing_mode: AddresingMode::NON,
            cycle_count: 0,
            page_penalty: false,
        },
    }
}

/// The whole opcode table, indexed by opcode byte.
pub fn get_opcode_table() -> (r: Vec<Opcode>)
    ensures
        r@.len() == 256,
        forall|i: int| 0 <= i < 256 ==> #[trigger] r@[i] == opcode_entry(i as u8),
{
    let mut table: Vec<Opcode> = Vec::new();
    let mut i: u16 = 0;
    while i < 256
        invariant
            i <= 256,
            table@.len() == i,
            forall|j: int| 0 <= j < i ==> #[trigger] table@[j] == opcode_entry(j as u8),
        decreases 256 - i,
    {
        table.push(decode_opcode(i as u8));
        i = i + 1;
    }
    table
}

} // verus!
