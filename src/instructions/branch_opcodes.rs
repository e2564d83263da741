use vstd::prelude::*;

use crate::cpu::Cpu;
use crate::instructions::{AddresingMode, Instruction};
use crate::semantics::handler;

use super::utils::{get_input, get_value};
use crate::flags::{FLAG_C, FLAG_N, FLAG_V, FLAG_Z};
use crate::semantics::branch_state;

verus! {

/// Takes a branch: PC is left the instruction's length short of the target
/// so that the step's advance lands on it; one cycle, and one more when the
/// target lies in another page than the next instruction.
fn branch(cpu: &mut Cpu, mode: AddresingMode)
    requires
        old(cpu).wf(),
        old(cpu).has_room(2),
    ensures
        final(cpu).wf(),
        final(cpu)@ == branch_state(old(cpu)@, mode, true),
{
    let (input, _cross) = get_input(cpu, mode);
    let value = get_value(cpu, mode, input);
    let len = mode.get_length();
    let next = cpu.program_counter.wrapping_add(len);
    let back: u16 = if value >= 128 {
        256
    } else {
        0
    };
    let target = next.wrapping_add(value as u16).wrapping_sub(back);
    if next / 256 != target / 256 {
        cpu.bus.cycle(2);
    } else {
        cpu.bus.cycle(1);
    }
    cpu.program_counter = target.wrapping_sub(len);
}

pub fn instr_bcs(cpu: &mut Cpu, mode: AddresingMode)
    requires
        old(cpu).wf(),
        old(cpu).has_room(2),
    ensures
        final(cpu).wf(),
        final(cpu)@ == handler(old(cpu)@, Instruction::BCS, mode),
{
    proof {
        reveal(handler);
    }
    if cpu.status.contains(FLAG_C) {
        branch(cpu, mode);
    }
}

pub fn instr_bcc(cpu: &mut Cpu, mode: AddresingMode)
    requires
        old(cpu).wf(),
        old(cpu).has_room(2),
    ensures
        final(cpu).wf(),
        final(cpu)@ == handler(old(cpu)@, Instruction::BCC, mode),
{
    proof {
        reveal(handler);
    }
    if !cpu.status.contains(FLAG_C) {
        branch(cpu, mode);
    }
}

pub fn instr_beq(cpu: &mut Cpu, mode: AddresingMode)
    requires
        old(cpu).wf(),
        old(cpu).has_room(2),
    ensures
        final(cpu).wf(),
        final(cpu)@ == handler(old(cpu)@, Instruction::BEQ, mode),
{
    proof {
        reveal(handler);
    }
    if cpu.status.contains(FLAG_Z) {
        branch(cpu, mode);
    }
}

pub fn instr_bne(cpu: &mut Cpu, mode: AddresingMode)
    requires
        old(cpu).wf(),
        old(cpu).has_room(2),
    ensures
        final(cpu).wf(),
        final(cpu)@ == handler(old(cpu)@, Instruction::BNE, mode),
{
    proof {
        reveal(handler);
    }
    if !cpu.status.contains(FLAG_Z) {
        branch(cpu, mode);
    }
}

pub fn instr_bmi(cpu: &mut Cpu, mode: AddresingMode)
    requires
        old(cpu).wf(),
        old(cpu).has_room(2),
    ensures
        final(cpu).wf(),
        final(cpu)@ == handler(old(cpu)@, Instruction::BMI, mode),
{
    proof {
        reveal(handler);
    }
    if cpu.status.contains(FLAG_N) {
        branch(cpu, mode);
    }
}

pub fn instr_bpl(cpu: &mut Cpu, mode: AddresingMode)
    requires
        old(cpu).wf(),
        old(cpu).has_room(2),
    ensures
        final(cpu).wf(),
        final(cpu)@ == handler(old(cpu)@, Instruction::BPL, mode),
{
    proof {
        reveal(handler);
    }
    if !cpu.status.contains(FLAG_N) {
        branch(cpu, mode);
    }
}

pub fn instr_bvs(cpu: &mut Cpu, mode: AddresingMode)
    requires
        old(cpu).wf(),
        old(cpu).has_room(2),
    ensures
        final(cpu).wf(),
        final(cpu)@ == handler(old(cpu)@, Instruction::BVS, mode),
{
    proof {
        reveal(handler);
    }
    if cpu.status.contains(FLAG_V) {
        branch(cpu, mode);
    }
}

pub fn instr_bvc(cpu: &mut Cpu, mode: AddresingMode)
    requires
        old(cpu).wf(),
        old(cpu).has_room(2),
    ensures
        final(cpu).wf(),
        final(cpu)@ == handler(old(cpu)@, Instruction::BVC, mode),
{
    proof {
        reveal(handler);
    }
    if !cpu.status.contains(FLAG_V) {
        branch(cpu, mode);
    }
}

} // verus!
