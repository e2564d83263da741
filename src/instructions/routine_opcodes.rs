use vstd::prelude::*;

use crate::cpu::Cpu;
use crate::instructions::{AddresingMode, Instruction};
use crate::semantics::handler;

use super::utils::{get_input, set_nz_flags};
use crate::cpu::IRQ_VECTOR;
use crate::flags::{CpuFlags, FLAG_B, FLAG_I, FLAG_U};

verus! {

pub fn instr_pha(cpu: &mut Cpu, mode: AddresingMode)
    requires
        old(cpu).wf(),
        old(cpu).has_room(2),
    ensures
        final(cpu).wf(),
        final(cpu)@ == handler(old(cpu)@, Instruction::PHA, mode),
{
    proof {
        reveal(handler);
    }
    cpu.stack_push(cpu.reg_a);
}

pub fn instr_php(cpu: &mut Cpu, mode: AddresingMode)
    requires
        old(cpu).wf(),
        old(cpu).has_room(2),
    ensures
        final(cpu).wf(),
        final(cpu)@ == handler(old(cpu)@, Instruction::PHP, mode),
{
    proof {
        reveal(handler);
    }
    cpu.stack_push(cpu.status.bits() | 0x30);
}

pub fn instr_pla(cpu: &mut Cpu, mode: AddresingMode)
    requires
        old(cpu).wf(),
        old(cpu).has_room(2),
    ensures
        final(cpu).wf(),
        final(cpu)@ == handler(old(cpu)@, Instruction::PLA, mode),
{
    proof {
        reveal(handler);
    }
    let value = cpu.stack_pop();
    cpu.reg_a = value;
    set_nz_flags(cpu, value);
}

pub fn instr_plp(cpu: &mut Cpu, mode: AddresingMode)
    requires
        old(cpu).wf(),
        old(cpu).has_room(2),
    ensures
        final(cpu).wf(),
        final(cpu)@ == handler(old(cpu)@, Instruction::PLP, mode),
{
    proof {
        reveal(handler);
    }
    let value = cpu.stack_pop();
    cpu.status = CpuFlags::from_bits(value);
    cpu.status.remove(FLAG_B);
    cpu.status.insert(FLAG_U);
}

pub fn instr_jmp(cpu: &mut Cpu, mode: AddresingMode)
    requires
        old(cpu).wf(),
        old(cpu).has_room(2),
    ensures
        final(cpu).wf(),
        final(cpu)@ == handler(old(cpu)@, Instruction::JMP, mode),
{
    proof {
        reveal(handler);
    }
    let (input, _cross) = get_input(cpu, mode);
    cpu.program_counter = input.wrapping_sub(mode.get_length());
}

pub fn instr_brk(cpu: &mut Cpu, mode: AddresingMode)
    requires
        old(cpu).wf(),
        old(cpu).has_room(2),
    ensures
        final(cpu).wf(),
        final(cpu)@ == handler(old(cpu)@, Instruction::BRK, mode),
{
    proof {
        reveal(handler);
    }
    let ret = cpu.program_counter.wrapping_add(2);
    cpu.stack_push_word(ret);
    cpu.stack_push(cpu.status.bits() | 0x30);
    cpu.status.insert(FLAG_I);
    cpu.program_counter = cpu.bus.cpu_read_word(IRQ_VECTOR).wrapping_sub(mode.get_length());
}

pub fn instr_rti(cpu: &mut Cpu, mode: AddresingMode)
    requires
        old(cpu).wf(),
        old(cpu).has_room(2),
    ensures
        final(cpu).wf(),
        final(cpu)@ == handler(old(cpu)@, Instruction::RTI, mode),
{
    proof {
        reveal(handler);
    }
    let value = cpu.stack_pop();
    cpu.status = CpuFlags::from_bits(value);
    cpu.status.remove(FLAG_B);
    cpu.status.insert(FLAG_U);
    cpu.program_counter = cpu.stack_pop_word().wrapping_sub(mode.get_length());
}

pub fn instr_jsr(cpu: &mut Cpu, mode: AddresingMode)
    requires
        old(cpu).wf(),
        old(cpu).has_room(2),
    ensures
        final(cpu).wf(),
        final(cpu)@ == handler(old(cpu)@, Instruction::JSR, mode),
{
    proof {
        reveal(handler);
    }
    let (input, _cross) = get_input(cpu, mode);
    let ret = cpu.program_counter.wrapping_add(2);
    cpu.stack_push_word(ret);
    cpu.program_counter = input.wrapping_sub(mode.get_length());
}

pub fn instr_rts(cpu: &mut Cpu, mode: AddresingMode)
    requires
        old(cpu).wf(),
        old(cpu).has_room(2),
    ensures
        final(cpu).wf(),
        final(cpu)@ == handler(old(cpu)@, Instruction::RTS, mode),
{
    proof {
        reveal(handler);
    }
    cpu.program_counter = cpu.stack_pop_word().wrapping_add(1).wrapping_sub(mode.get_length());
}

} // verus!
