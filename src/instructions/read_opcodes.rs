use vstd::prelude::*;

use crate::cpu::Cpu;
use crate::instructions::{AddresingMode, Instruction};
use crate::semantics::handler;

use super::utils::{read_instr_value, set_nz_flags};
use crate::flags::{CpuFlags, FLAG_C, FLAG_N, FLAG_V, FLAG_Z};
use crate::semantics::add_state;

verus! {

pub fn instr_lda(cpu: &mut Cpu, mode: AddresingMode)
    requires
        old(cpu).wf(),
        old(cpu).has_room(2),
    ensures
        final(cpu).wf(),
        final(cpu)@ == handler(old(cpu)@, Instruction::LDA, mode),
{
    proof {
        reveal(handler);
    }
    let (_input, value, _cross) = read_instr_value(cpu, mode);
    cpu.reg_a = value;
    set_nz_flags(cpu, value);
}

pub fn instr_ldx(cpu: &mut Cpu, mode: AddresingMode)
    requires
        old(cpu).wf(),
        old(cpu).has_room(2),
    ensures
        final(cpu).wf(),
        final(cpu)@ == handler(old(cpu)@, Instruction::LDX, mode),
{
    proof {
        reveal(handler);
    }
    let (_input, value, _cross) = read_instr_value(cpu, mode);
    cpu.reg_x = value;
    set_nz_flags(cpu, value);
}

pub fn instr_ldy(cpu: &mut Cpu, mode: AddresingMode)
    requires
        old(cpu).wf(),
        old(cpu).has_room(2),
    ensures
        final(cpu).wf(),
        final(cpu)@ == handler(old(cpu)@, Instruction::LDY, mode),
{
    proof {
        reveal(handler);
    }
    let (_input, value, _cross) = read_instr_value(cpu, mode);
    cpu.reg_y = value;
    set_nz_flags(cpu, value);
}

pub fn instr_cmp(cpu: &mut Cpu, mode: AddresingMode)
    requires
        old(cpu).wf(),
        old(cpu).has_room(2),
    ensures
        final(cpu).wf(),
        final(cpu)@ == handler(old(cpu)@, Instruction::CMP, mode),
{
    proof {
        reveal(handler);
    }
    let (_input, value, _cross) = read_instr_value(cpu, mode);
    cpu.status.set(FLAG_C, cpu.reg_a >= value);
    set_nz_flags(cpu, cpu.reg_a.wrapping_sub(value));
}

pub fn instr_and(cpu: &mut Cpu, mode: AddresingMode)
    requires
        old(cpu).wf(),
        old(cpu).has_room(2),
    ensures
        final(cpu).wf(),
        final(cpu)@ == handler(old(cpu)@, Instruction::AND, mode),
{
    proof {
        reveal(handler);
    }
    let (_input, value, _cross) = read_instr_value(cpu, mode);
    cpu.reg_a = cpu.reg_a & value;
    set_nz_flags(cpu, cpu.reg_a);
}

pub fn instr_eor(cpu: &mut Cpu, mode: AddresingMode)
    requires
        old(cpu).wf(),
        old(cpu).has_room(2),
    ensures
        final(cpu).wf(),
        final(cpu)@ == handler(old(cpu)@, Instruction::EOR, mode),
{
    proof {
        reveal(handler);
    }
    let (_input, value, _cross) = read_instr_value(cpu, mode);
    cpu.reg_a = cpu.reg_a ^ value;
    set_nz_flags(cpu, cpu.reg_a);
}

pub fn instr_ora(cpu: &mut Cpu, mode: AddresingMode)
    requires
        old(cpu).wf(),
        old(cpu).has_room(2),
    ensures
        final(cpu).wf(),
        final(cpu)@ == handler(old(cpu)@, Instruction::ORA, mode),
{
    proof {
        reveal(handler);
    }
    let (_input, value, _cross) = read_instr_value(cpu, mode);
    cpu.reg_a = cpu.reg_a | value;
    set_nz_flags(cpu, cpu.reg_a);
}

pub fn instr_bit(cpu: &mut Cpu, mode: AddresingMode)
    requires
        old(cpu).wf(),
        old(cpu).has_room(2),
    ensures
        final(cpu).wf(),
        final(cpu)@ == handler(old(cpu)@, Instruction::BIT, mode),
{
    proof {
        reveal(handler);
    }
    let (_input, value, _cross) = read_instr_value(cpu, mode);
    cpu.status.set(FLAG_V, value & 0x40 != 0);
    cpu.status.set(FLAG_N, value & 0x80 != 0);
    cpu.status.set(FLAG_Z, cpu.reg_a & value == 0);
}

/// A + value + C into A; C from the unsigned carry out, V from signed
/// overflow, N and Z from the result.
fn add_with_carry(cpu: &mut Cpu, value: u8)
    ensures
        final(cpu)@ == add_state(old(cpu)@, value),
        final(cpu).wf() == old(cpu).wf(),
{
    let carry = cpu.status.get_bit(CpuFlags { bits: FLAG_C }) as u16;
    let sum: u16 = cpu.reg_a as u16 + value as u16 + carry;
    let result = (sum % 256) as u8;
    cpu.status.set(FLAG_C, sum > 255);
    cpu.status.set(FLAG_V, (cpu.reg_a ^ result) & (value ^ result) & 0x80 != 0);
    cpu.reg_a = result;
    set_nz_flags(cpu, result);
}

pub fn instr_adc(cpu: &mut Cpu, mode: AddresingMode)
    requires
        old(cpu).wf(),
        old(cpu).has_room(2),
    ensures
        final(cpu).wf(),
        final(cpu)@ == handler(old(cpu)@, Instruction::ADC, mode),
{
    proof {
        reveal(handler);
    }
    let (_input, value, _cross) = read_instr_value(cpu, mode);
    add_with_carry(cpu, value);
}

pub fn instr_sbc(cpu: &mut Cpu, mode: AddresingMode)
    requires
        old(cpu).wf(),
        old(cpu).has_room(2),
    ensures
        final(cpu).wf(),
        final(cpu)@ == handler(old(cpu)@, Instruction::SBC, mode),
{
    proof {
        reveal(handler);
    }
    let (_input, value, _cross) = read_instr_value(cpu, mode);
    add_with_carry(cpu, value ^ 0xFF);
}

pub fn instr_cpx(cpu: &mut Cpu, mode: AddresingMode)
    requires
        old(cpu).wf(),
        old(cpu).has_room(2),
    ensures
        final(cpu).wf(),
        final(cpu)@ == handler(old(cpu)@, Instruction::CPX, mode),
{
    proof {
        reveal(handler);
    }
    let (_input, value, _cross) = read_instr_value(cpu, mode);
    cpu.status.set(FLAG_C, cpu.reg_x >= value);
    set_nz_flags(cpu, cpu.reg_x.wrapping_sub(value));
}

pub fn instr_cpy(cpu: &mut Cpu, mode: AddresingMode)
    requires
        old(cpu).wf(),
        old(cpu).has_room(2),
    ensures
        final(cpu).wf(),
        final(cpu)@ == handler(old(cpu)@, Instruction::CPY, mode),
{
    proof {
        reveal(handler);
    }
    let (_input, value, _cross) = read_instr_value(cpu, mode);
    cpu.status.set(FLAG_C, cpu.reg_y >= value);
    set_nz_flags(cpu, cpu.reg_y.wrapping_sub(value));
}

} // verus!
