use vstd::prelude::*;

use crate::cpu::Cpu;
use crate::instructions::{AddresingMode, Instruction};
use crate::semantics::handler;

use super::utils::set_nz_flags;
use crate::flags::{FLAG_C, FLAG_D, FLAG_I, FLAG_V};

verus! {

pub fn instr_sei(cpu: &mut Cpu, mode: AddresingMode)
    requires
        old(cpu).wf(),
        old(cpu).has_room(2),
    ensures
        final(cpu).wf(),
        final(cpu)@ == handler(old(cpu)@, Instruction::SEI, mode),
{
    proof {
        reveal(handler);
    }
    cpu.status.insert(FLAG_I);
}

pub fn instr_sed(cpu: &mut Cpu, mode: AddresingMode)
    requires
        old(cpu).wf(),
        old(cpu).has_room(2),
    ensures
        final(cpu).wf(),
        final(cpu)@ == handler(old(cpu)@, Instruction::SED, mode),
{
    proof {
        reveal(handler);
    }
    cpu.status.insert(FLAG_D);
}

pub fn instr_sec(cpu: &mut Cpu, mode: AddresingMode)
    requires
        old(cpu).wf(),
        old(cpu).has_room(2),
    ensures
        final(cpu).wf(),
        final(cpu)@ == handler(old(cpu)@, Instruction::SEC, mode),
{
    proof {
        reveal(handler);
    }
    cpu.status.insert(FLAG_C);
}

pub fn instr_clc(cpu: &mut Cpu, mode: AddresingMode)
    requires
        old(cpu).wf(),
        old(cpu).has_room(2),
    ensures
        final(cpu).wf(),
        final(cpu)@ == handler(old(cpu)@, Instruction::CLC, mode),
{
    proof {
        reveal(handler);
    }
    cpu.status.remove(FLAG_C);
}

pub fn instr_cld(cpu: &mut Cpu, mode: AddresingMode)
    requires
        old(cpu).wf(),
        old(cpu).has_room(2),
    ensures
        final(cpu).wf(),
        final(cpu)@ == handler(old(cpu)@, Instruction::CLD, mode),
{
    proof {
        reveal(handler);
    }
    cpu.status.remove(FLAG_D);
}

pub fn instr_cli(cpu: &mut Cpu, mode: AddresingMode)
    requires
        old(cpu).wf(),
        old(cpu).has_room(2),
    ensures
        final(cpu).wf(),
        final(cpu)@ == handler(old(cpu)@, Instruction::CLI, mode),
{
    proof {
        reveal(handler);
    }
    cpu.status.remove(FLAG_I);
}

pub fn instr_clv(cpu: &mut Cpu, mode: AddresingMode)
    requires
        old(cpu).wf(),
        old(cpu).has_room(2),
    ensures
        final(cpu).wf(),
        final(cpu)@ == handler(old(cpu)@, Instruction::CLV, mode),
{
    proof {
        reveal(handler);
    }
    cpu.status.remove(FLAG_V);
}

pub fn instr_nop(cpu: &mut Cpu, mode: AddresingMode)
    requires
        old(cpu).wf(),
        old(cpu).has_room(2),
    ensures
        final(cpu).wf(),
        final(cpu)@ == handler(old(cpu)@, Instruction::NOP, mode),
{
    proof {
        reveal(handler);
    }

}

pub fn instr_inx(cpu: &mut Cpu, mode: AddresingMode)
    requires
        old(cpu).wf(),
        old(cpu).has_room(2),
    ensures
        final(cpu).wf(),
        final(cpu)@ == handler(old(cpu)@, Instruction::INX, mode),
{
    proof {
        reveal(handler);
    }
    cpu.reg_x = cpu.reg_x.wrapping_add(1);
    set_nz_flags(cpu, cpu.reg_x);
}

pub fn instr_dex(cpu: &mut Cpu, mode: AddresingMode)
    requires
        old(cpu).wf(),
        old(cpu).has_room(2),
    ensures
        final(cpu).wf(),
        final(cpu)@ == handler(old(cpu)@, Instruction::DEX, mode),
{
    proof {
        reveal(handler);
    }
    cpu.reg_x = cpu.reg_x.wrapping_sub(1);
    set_nz_flags(cpu, cpu.reg_x);
}

pub fn instr_iny(cpu: &mut Cpu, mode: AddresingMode)
    requires
        old(cpu).wf(),
        old(cpu).has_room(2),
    ensures
        final(cpu).wf(),
        final(cpu)@ == handler(old(cpu)@, Instruction::INY, mode),
{
    proof {
        reveal(handler);
    }
    cpu.reg_y = cpu.reg_y.wrapping_add(1);
    set_nz_flags(cpu, cpu.reg_y);
}

pub fn instr_dey(cpu: &mut Cpu, mode: AddresingMode)
    requires
        old(cpu).wf(),
        old(cpu).has_room(2),
    ensures
        final(cpu).wf(),
        final(cpu)@ == handler(old(cpu)@, Instruction::DEY, mode),
{
    proof {
        reveal(handler);
    }
    cpu.reg_y = cpu.reg_y.wrapping_sub(1);
    set_nz_flags(cpu, cpu.reg_y);
}

pub fn instr_tax(cpu: &mut Cpu, mode: AddresingMode)
    requires
        old(cpu).wf(),
        old(cpu).has_room(2),
    ensures
        final(cpu).wf(),
        final(cpu)@ == handler(old(cpu)@, Instruction::TAX, mode),
{
    proof {
        reveal(handler);
    }
    cpu.reg_x = cpu.reg_a;
    set_nz_flags(cpu, cpu.reg_x);
}

pub fn instr_tay(cpu: &mut Cpu, mode: AddresingMode)
    requires
        old(cpu).wf(),
        old(cpu).has_room(2),
    ensures
        final(cpu).wf(),
        final(cpu)@ == handler(old(cpu)@, Instruction::TAY, mode),
{
    proof {
        reveal(handler);
    }
    cpu.reg_y = cpu.reg_a;
    set_nz_flags(cpu, cpu.reg_y);
}

pub fn instr_tsx(cpu: &mut Cpu, mode: AddresingMode)
    requires
        old(cpu).wf(),
        old(cpu).has_room(2),
    ensures
        final(cpu).wf(),
        final(cpu)@ == handler(old(cpu)@, Instruction::TSX, mode),
{
    proof {
        reveal(handler);
    }
    cpu.reg_x = cpu.stack_pointer;
    set_nz_flags(cpu, cpu.reg_x);
}

pub fn instr_txs(cpu: &mut Cpu, mode: AddresingMode)
    requires
        old(cpu).wf(),
        old(cpu).has_room(2),
    ensures
        final(cpu).wf(),
        final(cpu)@ == handler(old(cpu)@, Instruction::TXS, mode),
{
    proof {
        reveal(handler);
    }
    cpu.stack_pointer = cpu.reg_x;
}

pub fn instr_txa(cpu: &mut Cpu, mode: AddresingMode)
    requires
        old(cpu).wf(),
        old(cpu).has_room(2),
    ensures
        final(cpu).wf(),
        final(cpu)@ == handler(old(cpu)@, Instruction::TXA, mode),
{
    proof {
        reveal(handler);
    }
    cpu.reg_a = cpu.reg_x;
    set_nz_flags(cpu, cpu.reg_a);
}

pub fn instr_tya(cpu: &mut Cpu, mode: AddresingMode)
    requires
        old(cpu).wf(),
        old(cpu).has_room(2),
    ensures
        final(cpu).wf(),
        final(cpu)@ == handler(old(cpu)@, Instruction::TYA, mode),
{
    proof {
        reveal(handler);
    }
    cpu.reg_a = cpu.reg_y;
    set_nz_flags(cpu, cpu.reg_a);
}

} // verus!
