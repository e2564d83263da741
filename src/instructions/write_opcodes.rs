use vstd::prelude::*;

use crate::cpu::Cpu;
use crate::instructions::{AddresingMode, Instruction};
use crate::semantics::handler;

use super::utils::get_input;

verus! {

pub fn instr_sta(cpu: &mut Cpu, mode: AddresingMode)
    requires
        old(cpu).wf(),
        old(cpu).has_room(2),
    ensures
        final(cpu).wf(),
        final(cpu)@ == handler(old(cpu)@, Instruction::STA, mode),
{
    proof {
        reveal(handler);
    }
    let (input, _cross) = get_input(cpu, mode);
    cpu.bus.cpu_write(input, cpu.reg_a);
}

pub fn instr_sty(cpu: &mut Cpu, mode: AddresingMode)
    requires
        old(cpu).wf(),
        old(cpu).has_room(2),
    ensures
        final(cpu).wf(),
        final(cpu)@ == handler(old(cpu)@, Instruction::STY, mode),
{
    proof {
        reveal(handler);
    }
    let (input, _cross) = get_input(cpu, mode);
    cpu.bus.cpu_write(input, cpu.reg_y);
}

pub fn instr_stx(cpu: &mut Cpu, mode: AddresingMode)
    requires
        old(cpu).wf(),
        old(cpu).has_room(2),
    ensures
        final(cpu).wf(),
        final(cpu)@ == handler(old(cpu)@, Instruction::STX, mode),
{
    proof {
        reveal(handler);
    }
    let (input, _cross) = get_input(cpu, mode);
    cpu.bus.cpu_write(input, cpu.reg_x);
}

} // verus!
