use vstd::prelude::*;

use crate::cpu::Cpu;
use crate::flags::with_nz;
use crate::instructions::{decode_opcode, is_address_mode, opcode_entry, AddresingMode};
use crate::semantics::{fetched, operand, operand_value, page_crossed, pays_page_penalty};

verus! {

/// The value an instruction works on: read from `input` when `mode` yields
/// an address, else `input` itself.
pub fn get_value(cpu: &Cpu, mode: AddresingMode, input: u16) -> (r: u8)
    requires
        cpu.wf(),
    ensures
        r == (if is_address_mode(mode) {
            cpu.bus@.read(input)
        } else {
            input as u8
        }),
{
    if mode.is_input_address() {
        cpu.bus.cpu_read(input)
    } else {
        input as u8
    }
}

/// Z from `result == 0`, N from bit 7 of `result`.
pub fn set_nz_flags(cpu: &mut Cpu, result: u8)
    ensures
        final(cpu)@ == (crate::semantics::CpuState { p: with_nz(old(cpu)@.p, result), ..old(cpu)@ }),
        final(cpu).wf() == old(cpu).wf(),
{
    cpu.status.set_nz(result);
}

/// Whether the instruction at PC pays a cycle when indexing crosses a page.
fn does_current_instr_need_cross(cpu: &Cpu) -> (r: bool)
    requires
        cpu.wf(),
    ensures
        r == opcode_entry(cpu.bus@.read(cpu.program_counter)).page_penalty,
{
    decode_opcode(cpu.bus.cpu_read(cpu.program_counter)).page_penalty
}

/// `addr + offset` (wrapping) and whether it lies in another page than
/// `addr`.
fn add_chk_page_cross(addr: u16, offset: u16) -> (r: (u16, bool))
    ensures
        r.0 == addr.wrapping_add(offset),
        r.1 == page_crossed(addr, addr.wrapping_add(offset)),
{
    let result = addr.wrapping_add(offset);
    (result, addr / 256 != result / 256)
}

/// The operand of the instruction at PC in `mode`, and whether indexing
/// crossed a page.
pub fn get_input(cpu: &Cpu, mode: AddresingMode) -> (r: (u16, bool))
    requires
        cpu.wf(),
    ensures
        r == operand(cpu@, mode),
{
    let pc1 = cpu.program_counter.wrapping_add(1);
    let argb = cpu.bus.cpu_read(pc1);
    let argw = cpu.bus.cpu_read_word(pc1);
    match mode {
        AddresingMode::NON => (0, false),
        AddresingMode::ZPG => (argb as u16, false),
        AddresingMode::ZPX => (argb.wrapping_add(cpu.reg_x) as u16, false),
        AddresingMode::ZPY => (argb.wrapping_add(cpu.reg_y) as u16, false),
        AddresingMode::ABS => (argw, false),
        AddresingMode::ABX => add_chk_page_cross(argw, cpu.reg_x as u16),
        AddresingMode::ABY => add_chk_page_cross(argw, cpu.reg_y as u16),
        AddresingMode::IND => {
            // The high byte of the pointer never carries into the next page.
            let target = if argw % 256 == 0xFF {
                let lo = cpu.bus.cpu_read(argw);
                let hi = cpu.bus.cpu_read(argw - 0xFF);
                hi as u16 * 256 + lo as u16
            } else {
                cpu.bus.cpu_read_word(argw)
            };
            (target, false)
        },
        AddresingMode::IMP => (0, false),
        AddresingMode::ACC => (cpu.reg_a as u16, false),
        AddresingMode::IMM => (argb as u16, false),
        AddresingMode::REL => (argb as u16, false),
        AddresingMode::IDX => (cpu.bus.cpu_read_zp_word(argb.wrapping_add(cpu.reg_x)), false),
        AddresingMode::IDY => add_chk_page_cross(cpu.bus.cpu_read_zp_word(argb), cpu.reg_y as u16),
    }
}

/// Fetches the operand and its value for a read instruction, charging one
/// cycle when indexing crossed a page and the instruction at PC pays for
/// that. Returns the operand, the value, and whether the cycle was charged.
pub fn read_instr_value(cpu: &mut Cpu, mode: AddresingMode) -> (r: (u16, u8, bool))
    requires
        old(cpu).wf(),
        old(cpu).has_room(1),
    ensures
        final(cpu).wf(),
        r.0 == operand(old(cpu)@, mode).0,
        r.1 == operand_value(old(cpu)@, mode),
        r.2 == pays_page_penalty(old(cpu)@, mode),
        final(cpu)@ == fetched(old(cpu)@, mode),
{
    let (input, cross) = get_input(cpu, mode);
    let value = get_value(cpu, mode, input);
    let pay = cross && does_current_instr_need_cross(cpu);
    if pay {
        cpu.bus.cycle(1);
    }
    (input, value, pay)
}

} // verus!
