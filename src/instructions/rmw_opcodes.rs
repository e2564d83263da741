use vstd::prelude::*;

use crate::cpu::Cpu;
use crate::instructions::{AddresingMode, Instruction};
use crate::semantics::handler;

use super::utils::{get_input, get_value, set_nz_flags};
use crate::flags::{CpuFlags, FLAG_C};
use crate::semantics::{operand, shift_state};

verus! {

/// Writes a shift's result `newval` back to memory, or to A in
/// accumulator mode; C from `carry`, N and Z from `newval`.
fn general_shift(cpu: &mut Cpu, mode: AddresingMode, input: u16, newval: u8, carry: bool)
    requires
        old(cpu).wf(),
        input == operand(old(cpu)@, mode).0,
    ensures
        final(cpu).wf(),
        final(cpu)@ == shift_state(old(cpu)@, mode, newval, carry),
{
    if mode.is_input_address() {
        cpu.bus.cpu_write(input, newval);
    } else {
        cpu.reg_a = newval;
    }
    cpu.status.set(FLAG_C, carry);
    set_nz_flags(cpu, newval);
}

pub fn instr_asl(cpu: &mut Cpu, mode: AddresingMode)
    requires
        old(cpu).wf(),
        old(cpu).has_room(2),
    ensures
        final(cpu).wf(),
        final(cpu)@ == handler(old(cpu)@, Instruction::ASL, mode),
{
    proof {
        reveal(handler);
    }
    let (input, _cross) = get_input(cpu, mode);
    let value = get_value(cpu, mode, input);
    general_shift(cpu, mode, input, ((value as u16 * 2) % 256) as u8, value >= 128);
}

pub fn instr_lsr(cpu: &mut Cpu, mode: AddresingMode)
    requires
        old(cpu).wf(),
        old(cpu).has_room(2),
    ensures
        final(cpu).wf(),
        final(cpu)@ == handler(old(cpu)@, Instruction::LSR, mode),
{
    proof {
        reveal(handler);
    }
    let (input, _cross) = get_input(cpu, mode);
    let value = get_value(cpu, mode, input);
    general_shift(cpu, mode, input, value / 2, value % 2 == 1);
}

pub fn instr_rol(cpu: &mut Cpu, mode: AddresingMode)
    requires
        old(cpu).wf(),
        old(cpu).has_room(2),
    ensures
        final(cpu).wf(),
        final(cpu)@ == handler(old(cpu)@, Instruction::ROL, mode),
{
    proof {
        reveal(handler);
    }
    let (input, _cross) = get_input(cpu, mode);
    let value = get_value(cpu, mode, input);
    let c = cpu.status.get_bit(CpuFlags { bits: FLAG_C }) as u16;
    general_shift(cpu, mode, input, ((value as u16 * 2 + c) % 256) as u8, value >= 128);
}

pub fn instr_ror(cpu: &mut Cpu, mode: AddresingMode)
    requires
        old(cpu).wf(),
        old(cpu).has_room(2),
    ensures
        final(cpu).wf(),
        final(cpu)@ == handler(old(cpu)@, Instruction::ROR, mode),
{
    proof {
        reveal(handler);
    }
    let (input, _cross) = get_input(cpu, mode);
    let value = get_value(cpu, mode, input);
    let c = cpu.status.get_bit(CpuFlags { bits: FLAG_C });
    general_shift(cpu, mode, input, value / 2 + 128 * c, value % 2 == 1);
}

pub fn instr_inc(cpu: &mut Cpu, mode: AddresingMode)
    requires
        old(cpu).wf(),
        old(cpu).has_room(2),
    ensures
        final(cpu).wf(),
        final(cpu)@ == handler(old(cpu)@, Instruction::INC, mode),
{
    proof {
        reveal(handler);
    }
    let (input, _cross) = get_input(cpu, mode);
    let value = get_value(cpu, mode, input);
    let newval = value.wrapping_add(1);
    cpu.bus.cpu_write(input, newval);
    set_nz_flags(cpu, newval);
}

pub fn instr_dec(cpu: &mut Cpu, mode: AddresingMode)
    requires
        old(cpu).wf(),
        old(cpu).has_room(2),
    ensures
        final(cpu).wf(),
        final(cpu)@ == handler(old(cpu)@, Instruction::DEC, mode),
{
    proof {
        reveal(handler);
    }
    let (input, _cross) = get_input(cpu, mode);
    let value = get_value(cpu, mode, input);
    let newval = value.wrapping_sub(1);
    cpu.bus.cpu_write(input, newval);
    set_nz_flags(cpu, newval);
}

} // verus!
