//! The instruction set as functions on a mathematical CPU state.
use vstd::prelude::*;

use crate::bus::{word, BusState};
use crate::flags::{has_flag, with_flag, with_nz, FLAG_B, FLAG_C, FLAG_D, FLAG_I, FLAG_N, FLAG_U, FLAG_V, FLAG_Z};
use crate::instructions::{is_address_mode, mode_length, opcode_entry, AddresingMode, Instruction};

verus! {

/// The CPU as a mathematical value: registers, flags and the bus.
pub struct CpuState {
    pub pc: u16,
    pub a: u8,
    pub x: u8,
    pub y: u8,
    pub s: u8,
    pub p: u8,
    pub bus: BusState,
}

/// The address of stack slot `sp`, in page `$01`.
pub open spec fn stack_addr(sp: u8) -> u16 {
    (0x100 + sp) as u16
}

impl CpuState {
    pub open spec fn wf(self) -> bool {
        self.bus.wf()
    }

    pub open spec fn tick(self, n: nat) -> CpuState {
        CpuState { bus: self.bus.tick(n), ..self }
    }

    /// Store at the stack pointer, then decrement it.
    pub open spec fn push(self, v: u8) -> CpuState {
        CpuState { bus: self.bus.write(stack_addr(self.s), v), s: self.s.wrapping_sub(1), ..self }
    }

    /// The byte that a pull would return.
    pub open spec fn pop_value(self) -> u8 {
        self.bus.read(stack_addr(self.s.wrapping_add(1)))
    }

    /// The state after a pull.
    pub open spec fn popped(self) -> CpuState {
        CpuState { s: self.s.wrapping_add(1), ..self }
    }

    /// High byte first, then low byte.
    pub open spec fn push_word(self, w: u16) -> CpuState {
        self.push((w / 256) as u8).push((w % 256) as u8)
    }

    /// Low byte first, then high byte.
    pub open spec fn pop_word_value(self) -> u16 {
        word(self.pop_value(), self.popped().pop_value())
    }

    pub open spec fn popped_word(self) -> CpuState {
        self.popped().popped()
    }
}

/// The byte after the opcode.
pub open spec fn arg_b(s: CpuState) -> u8 {
    s.bus.read(s.pc.wrapping_add(1))
}

/// The word after the opcode.
pub open spec fn arg_w(s: CpuState) -> u16 {
    s.bus.read_word(s.pc.wrapping_add(1))
}

/// Whether `a` and `b` lie in different 256-byte pages.
pub open spec fn page_crossed(a: u16, b: u16) -> bool {
    a / 256 != b / 256
}

/// The word that an indirect jump through `ptr` reads: when `ptr` ends in
/// `$FF` the high byte comes from the start of the same page.
pub open spec fn indirect_target(bus: BusState, ptr: u16) -> u16 {
    if ptr % 256 == 0xFF {
        word(bus.read(ptr), bus.read((ptr - 0xFF) as u16))
    } else {
        bus.read_word(ptr)
    }
}

/// The operand of an instruction in `mode` at `s.pc`, and whether indexing
/// crossed a page.
pub open spec fn operand(s: CpuState, mode: AddresingMode) -> (u16, bool) {
    match mode {
        AddresingMode::NON | AddresingMode::IMP => (0, false),
        AddresingMode::ACC => (s.a as u16, false),
        AddresingMode::IMM | AddresingMode::REL | AddresingMode::ZPG => (arg_b(s) as u16, false),
        AddresingMode::ZPX => (arg_b(s).wrapping_add(s.x) as u16, false),
        AddresingMode::ZPY => (arg_b(s).wrapping_add(s.y) as u16, false),
        AddresingMode::ABS => (arg_w(s), false),
        AddresingMode::ABX => {
            let e = arg_w(s).wrapping_add(s.x as u16);
            (e, page_crossed(arg_w(s), e))
        },
        AddresingMode::ABY => {
            let e = arg_w(s).wrapping_add(s.y as u16);
            (e, page_crossed(arg_w(s), e))
        },
        AddresingMode::IND => (indirect_target(s.bus, arg_w(s)), false),
        AddresingMode::IDX => (s.bus.read_zp_word(arg_b(s).wrapping_add(s.x)), false),
        AddresingMode::IDY => {
            let base = s.bus.read_zp_word(arg_b(s));
            let e = base.wrapping_add(s.y as u16);
            (e, page_crossed(base, e))
        },
    }
}

/// The value an instruction works on: read from the operand address, or
/// the operand itself.
pub open spec fn operand_value(s: CpuState, mode: AddresingMode) -> u8 {
    let i = operand(s, mode).0;
    if is_address_mode(mode) {
        s.bus.read(i)
    } else {
        i as u8
    }
}

/// Whether the instruction at `s.pc` pays a cycle for a crossed page.
pub open spec fn pays_page_penalty(s: CpuState, mode: AddresingMode) -> bool {
    operand(s, mode).1 && opcode_entry(s.bus.read(s.pc)).page_penalty
}

/// The state after fetching the operand of a read instruction.
pub open spec fn fetched(s: CpuState, mode: AddresingMode) -> CpuState {
    if pays_page_penalty(s, mode) {
        s.tick(1)
    } else {
        s
    }
}

/// `reg` compared with `v`: C when `reg >= v`, N and Z from `reg - v`.
pub open spec fn compare_flags(p: u8, reg: u8, v: u8) -> u8 {
    with_nz(with_flag(p, FLAG_C, reg >= v), reg.wrapping_sub(v))
}

/// BIT: V and N from bits 6 and 7 of `v`, Z from `a & v`.
pub open spec fn bit_flags(p: u8, a: u8, v: u8) -> u8 {
    with_flag(
        with_flag(with_flag(p, FLAG_V, v & 0x40 != 0), FLAG_N, v & 0x80 != 0),
        FLAG_Z,
        a & v == 0,
    )
}

pub open spec fn adc_sum(a: u8, v: u8, carry: bool) -> int {
    a + v + if carry {
        1int
    } else {
        0int
    }
}

pub open spec fn adc_result(a: u8, v: u8, carry: bool) -> u8 {
    (adc_sum(a, v, carry) % 256) as u8
}

/// Signed overflow: both inputs differ in sign from the result.
pub open spec fn adc_overflow(a: u8, v: u8, r: u8) -> bool {
    (a ^ r) & (v ^ r) & 0x80 != 0
}

/// Flags after adding `v` and the carry to `a` (decimal mode is ignored).
pub open spec fn adc_flags(p: u8, a: u8, v: u8) -> u8 {
    let c = has_flag(p, FLAG_C);
    let r = adc_result(a, v, c);
    with_nz(with_flag(with_flag(p, FLAG_C, adc_sum(a, v, c) > 255), FLAG_V, adc_overflow(a, v, r)), r)
}

/// ADC of `v`; SBC is ADC of `v ^ 0xFF`.
pub open spec fn add_state(s: CpuState, v: u8) -> CpuState {
    CpuState { a: adc_result(s.a, v, has_flag(s.p, FLAG_C)), p: adc_flags(s.p, s.a, v), ..s }
}

/// A shift or rotate whose result `r` goes back to memory or to A, with the
/// carry out `c`.
pub open spec fn shift_state(s: CpuState, mode: AddresingMode, r: u8, c: bool) -> CpuState {
    let t = if is_address_mode(mode) {
        CpuState { bus: s.bus.write(operand(s, mode).0, r), ..s }
    } else {
        CpuState { a: r, ..s }
    };
    CpuState { p: with_nz(with_flag(s.p, FLAG_C, c), r), ..t }
}

/// INC and DEC: `r` back to memory, N and Z from it.
pub open spec fn memory_state(s: CpuState, mode: AddresingMode, r: u8) -> CpuState {
    CpuState { bus: s.bus.write(operand(s, mode).0, r), p: with_nz(s.p, r), ..s }
}

/// Where a branch goes: `next`, the address of the instruction after it,
/// plus the offset byte `off` read as signed.
pub open spec fn branch_target(next: u16, off: u8) -> u16 {
    next.wrapping_add(off as u16).wrapping_sub(
        if off >= 128 {
            256u16
        } else {
            0u16
        },
    )
}

/// A conditional branch: when taken, one cycle, one more if the target lies
/// in another page than the next instruction; PC is left `len` short of the
/// target for the step's advance.
pub open spec fn branch_state(s: CpuState, mode: AddresingMode, taken: bool) -> CpuState {
    if taken {
        let len = mode_length(mode);
        let next = s.pc.wrapping_add(len);
        let t = branch_target(next, operand_value(s, mode));
        let extra: nat = if page_crossed(next, t) {
            2
        } else {
            1
        };
        CpuState { pc: t.wrapping_sub(len), bus: s.bus.tick(extra), ..s }
    } else {
        s
    }
}

/// P as PLP and RTI restore it: B clear, U set.
pub open spec fn pulled_flags(v: u8) -> u8 {
    with_flag(with_flag(v, FLAG_B, false), FLAG_U, true)
}

/// P as BRK and PHP push it: B and U set.
pub open spec fn pushed_flags(p: u8) -> u8 {
    p | 0x30
}

/// Whether the branch instruction `instr` is taken under flags `p`; false
/// for any other instruction.
pub open spec fn branch_taken(instr: Instruction, p: u8) -> bool {
    match instr {
        Instruction::BCC => !has_flag(p, FLAG_C),
        Instruction::BCS => has_flag(p, FLAG_C),
        Instruction::BNE => !has_flag(p, FLAG_Z),
        Instruction::BEQ => has_flag(p, FLAG_Z),
        Instruction::BPL => !has_flag(p, FLAG_N),
        Instruction::BMI => has_flag(p, FLAG_N),
        Instruction::BVC => !has_flag(p, FLAG_V),
        Instruction::BVS => has_flag(p, FLAG_V),
        _ => false,
    }
}

pub open spec fn is_branch(instr: Instruction) -> bool {
    instr is BCC || instr is BCS || instr is BNE || instr is BEQ || instr is BPL || instr is BMI
        || instr is BVC || instr is BVS
}

/// What the handler of `instr` does to `s`, before the step's advance of PC
/// and its charge of the base cycles.
#[verifier::opaque]
pub open spec fn handler(s: CpuState, instr: Instruction, mode: AddresingMode) -> CpuState {
    let v = operand_value(s, mode);
    let addr = operand(s, mode).0;
    let f = fetched(s, mode);
    let c: u8 = if has_flag(s.p, FLAG_C) {
        1
    } else {
        0
    };
    match instr {
        Instruction::LDA => CpuState { a: v, p: with_nz(s.p, v), ..f },
        Instruction::LDX => CpuState { x: v, p: with_nz(s.p, v), ..f },
        Instruction::LDY => CpuState { y: v, p: with_nz(s.p, v), ..f },
        Instruction::CMP => CpuState { p: compare_flags(s.p, s.a, v), ..f },
        Instruction::CPX => CpuState { p: compare_flags(s.p, s.x, v), ..f },
        Instruction::CPY => CpuState { p: compare_flags(s.p, s.y, v), ..f },
        Instruction::AND => CpuState { a: s.a & v, p: with_nz(s.p, s.a & v), ..f },
        Instruction::EOR => CpuState { a: s.a ^ v, p: with_nz(s.p, s.a ^ v), ..f },
        Instruction::ORA => CpuState { a: s.a | v, p: with_nz(s.p, s.a | v), ..f },
        Instruction::BIT => CpuState { p: bit_flags(s.p, s.a, v), ..f },
        Instruction::ADC => add_state(f, v),
        Instruction::SBC => add_state(f, v ^ 0xFF),
        Instruction::STA => CpuState { bus: s.bus.write(addr, s.a), ..s },
        Instruction::STX => CpuState { bus: s.bus.write(addr, s.x), ..s },
        Instruction::STY => CpuState { bus: s.bus.write(addr, s.y), ..s },
        Instruction::ASL => shift_state(s, mode, ((v * 2) % 256) as u8, v >= 128),
        Instruction::LSR => shift_state(s, mode, v / 2, v % 2 == 1),
        Instruction::ROL => shift_state(s, mode, ((v * 2 + c) % 256) as u8, v >= 128),
        Instruction::ROR => shift_state(s, mode, (v / 2 + 128 * c) as u8, v % 2 == 1),
        Instruction::INC => memory_state(s, mode, v.wrapping_add(1)),
        Instruction::DEC => memory_state(s, mode, v.wrapping_sub(1)),
        Instruction::BCC | Instruction::BCS | Instruction::BNE | Instruction::BEQ
        | Instruction::BPL | Instruction::BMI | Instruction::BVC | Instruction::BVS => branch_state(
            s,
            mode,
            branch_taken(instr, s.p),
        ),
        Instruction::JMP => CpuState { pc: addr.wrapping_sub(mode_length(mode)), ..s },
        Instruction::JSR => CpuState {
            pc: addr.wrapping_sub(mode_length(mode)),
            ..s.push_word(s.pc.wrapping_add(2))
        },
        Instruction::RTS => CpuState {
            pc: s.pop_word_value().wrapping_add(1).wrapping_sub(mode_length(mode)),
            ..s.popped_word()
        },
        Instruction::RTI => CpuState {
            p: pulled_flags(s.pop_value()),
            pc: s.popped().pop_word_value().wrapping_sub(mode_length(mode)),
            ..s.popped().popped_word()
        },
        Instruction::BRK => {
            let t = s.push_word(s.pc.wrapping_add(2)).push(pushed_flags(s.p));
            CpuState {
                p: with_flag(s.p, FLAG_I, true),
                pc: t.bus.read_word(0xFFFE).wrapping_sub(mode_length(mode)),
                ..t
            }
        },
        Instruction::PHA => s.push(s.a),
        Instruction::PHP => s.push(pushed_flags(s.p)),
        Instruction::PLA => CpuState { a: s.pop_value(), p: with_nz(s.p, s.pop_value()), ..s.popped() },
        Instruction::PLP => CpuState { p: pulled_flags(s.pop_value()), ..s.popped() },
        Instruction::CLC => CpuState { p: with_flag(s.p, FLAG_C, false), ..s },
        Instruction::SEC => CpuState { p: with_flag(s.p, FLAG_C, true), ..s },
        Instruction::CLI => CpuState { p: with_flag(s.p, FLAG_I, false), ..s },
        Instruction::SEI => CpuState { p: with_flag(s.p, FLAG_I, true), ..s },
        Instruction::CLD => CpuState { p: with_flag(s.p, FLAG_D, false), ..s },
        Instruction::SED => CpuState { p: with_flag(s.p, FLAG_D, true), ..s },
        Instruction::CLV => CpuState { p: with_flag(s.p, FLAG_V, false), ..s },
        Instruction::NOP => s,
        Instruction::INX => CpuState { x: s.x.wrapping_add(1), p: with_nz(s.p, s.x.wrapping_add(1)), ..s },
        Instruction::DEX => CpuState { x: s.x.wrapping_sub(1), p: with_nz(s.p, s.x.wrapping_sub(1)), ..s },
        Instruction::INY => CpuState { y: s.y.wrapping_add(1), p: with_nz(s.p, s.y.wrapping_add(1)), ..s },
        Instruction::DEY => CpuState { y: s.y.wrapping_sub(1), p: with_nz(s.p, s.y.wrapping_sub(1)), ..s },
        Instruction::TAX => CpuState { x: s.a, p: with_nz(s.p, s.a), ..s },
        Instruction::TAY => CpuState { y: s.a, p: with_nz(s.p, s.a), ..s },
        Instruction::TSX => CpuState { x: s.s, p: with_nz(s.p, s.s), ..s },
        Instruction::TXA => CpuState { a: s.x, p: with_nz(s.p, s.x), ..s },
        Instruction::TYA => CpuState { a: s.y, p: with_nz(s.p, s.y), ..s },
        Instruction::TXS => CpuState { s: s.x, ..s },
        Instruction::INV => s,
    }
}

/// Whether `byte` is an opcode of the instruction set.
pub open spec fn is_legal(byte: u8) -> bool {
    !(opcode_entry(byte).instr is INV)
}

/// One instruction: the handler, then PC advanced by the instruction's
/// length and the bus charged its base cycles.
pub open spec fn step(s: CpuState) -> CpuState {
    let op = opcode_entry(s.bus.read(s.pc));
    let t = handler(s, op.instr, op.addresing_mode);
    CpuState {
        pc: t.pc.wrapping_add(mode_length(op.addresing_mode)),
        bus: t.bus.tick(op.cycle_count as nat),
        ..t
    }
}

} // verus!
