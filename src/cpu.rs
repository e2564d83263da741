use vstd::prelude::*;

use crate::bus::{Bus, RAM_LEN, RESET_CYCLES};
use crate::flags::CpuFlags;
use crate::instructions::{
    branch_opcodes, decode_opcode, get_opcode_table, imp_opcodes, read_opcodes, rmw_opcodes,
    routine_opcodes, write_opcodes, AddresingMode, Instruction, Opcode,
};
use crate::laws::{lemma_handler_cycles, lemma_opcode_costs, lemma_step_cycles};
use crate::nes_parser::{ines_to_cartridge, mirroring_of, InesFile, RomError};
use crate::mappers::mapper_for;
use crate::semantics::{handler, is_legal, step, CpuState};

verus! {

/// Base of the stack page.
pub const STACK_START_ADDR: u16 = 0x100;

/// Where the reset vector lies.
pub const RESET_VECTOR: u16 = 0xFFFC;

/// Where the IRQ/BRK vector lies.
pub const IRQ_VECTOR: u16 = 0xFFFE;

/// Where the NMI vector lies (not used yet).
pub const NMI_VECTOR: u16 = 0xFFFA;

/// S after reset.
pub const RESET_STACK_POINTER: u8 = 0xFD;

/// P after reset: U and I set.
pub const RESET_STATUS: u8 = 0x24;

/// Why the CPU stopped.
#[derive(Clone, Copy, Debug, PartialEq, Eq, Structural)]
pub enum CpuError {
    /// The byte at `pc` is no opcode of the instruction set.
    IllegalOpcode { pc: u16, opcode: u8 },
}

/// The 6502 core: registers, flags and the bus it owns.
pub struct Cpu {
    pub program_counter: u16,
    pub reg_a: u8,
    pub reg_x: u8,
    pub reg_y: u8,
    pub status: CpuFlags,
    pub stack_pointer: u8,
    pub bus: Bus,
}

impl View for Cpu {
    type V = CpuState;

    open spec fn view(&self) -> CpuState {
        CpuState {
            pc: self.program_counter,
            a: self.reg_a,
            x: self.reg_x,
            y: self.reg_y,
            s: self.stack_pointer,
            p: self.status.bits,
            bus: self.bus@,
        }
    }
}

/// The state right after reset on bus `bus`.
pub open spec fn reset_state(bus: crate::bus::BusState) -> CpuState {
    CpuState {
        pc: bus.read_word(RESET_VECTOR),
        a: 0,
        x: 0,
        y: 0,
        s: RESET_STACK_POINTER,
        p: RESET_STATUS,
        bus,
    }
}

impl Cpu {
    pub open spec fn wf(&self) -> bool {
        self.bus.wf()
    }

    /// Whether the cycle counter has room for `n` more cycles.
    pub open spec fn has_room(&self, n: nat) -> bool {
        self.bus@.cycles + n <= usize::MAX
    }

    /// Powers the CPU on: PC from the reset vector, `S = $FD`, `P = $24`,
    /// A, X and Y cleared.
    pub fn new(bus: Bus) -> (r: Cpu)
        requires
            bus.wf(),
        ensures
            r.wf(),
            r@ == reset_state(bus@),
    {
        let pc = bus.cpu_read_word(RESET_VECTOR);
        Cpu {
            program_counter: pc,
            reg_a: 0,
            reg_x: 0,
            reg_y: 0,
            status: CpuFlags::from_bits(RESET_STATUS),
            stack_pointer: RESET_STACK_POINTER,
            bus,
        }
    }

    /// Builds the cartridge, the bus and the CPU for a parsed ROM image and
    /// resets the CPU; fails when the image's mapper is not supported.
    pub fn create_from_ines(ines: InesFile) -> (r: Result<Cpu, RomError>)
        ensures
            mapper_for(ines.header.mapper, ines.header.prg_size, ines.header.chr_size) is None
                <==> r == Err::<Cpu, RomError>(RomError::UnsupportedMapper),
        r is Ok <==> mapper_for(ines.header.mapper, ines.header.prg_size, ines.header.chr_size) is Some,
            r is Ok ==> {
                let c = r.unwrap();
                &&& c.wf()
                &&& c@ == reset_state(c.bus@)
                &&& c.bus@.ram == Seq::new(RAM_LEN as nat, |i: int| 0u8)
                &&& c.bus@.prg_rom == ines.prg_rom@
                &&& c.bus@.chr_rom == ines.chr_rom@
                &&& c.bus@.prg_ram == ines.prg_ram@
                &&& Some(c.bus@.mapper) == mapper_for(
                    ines.header.mapper,
                    ines.header.prg_size,
                    ines.header.chr_size,
                )
                &&& c.bus@.mirroring == mirroring_of(ines.header.flags.flags6)
                &&& c.bus@.cycles == RESET_CYCLES
            },
    {
        match ines_to_cartridge(ines) {
            Ok(crt) => Ok(Cpu::new(Bus::create_from_crt(crt))),
            Err(e) => Err(e),
        }
    }

    /// The opcode table this core decodes with.
    pub fn get_opcode_table(&self) -> (r: Vec<Opcode>)
        ensures
            r@.len() == 256,
            forall|i: int|
                0 <= i < 256 ==> #[trigger] r@[i] == crate::instructions::opcode_entry(i as u8),
    {
        get_opcode_table()
    }

    /// Stores `value` at the stack pointer, then decrements it (wrapping).
    pub fn stack_push(&mut self, value: u8)
        requires
            old(self).wf(),
        ensures
            final(self).wf(),
            final(self)@ == old(self)@.push(value),
    {
        self.bus.cpu_write(STACK_START_ADDR + self.stack_pointer as u16, value);
        self.stack_pointer = self.stack_pointer.wrapping_sub(1);
    }

    /// Pushes the high byte of `value`, then the low byte.
    pub fn stack_push_word(&mut self, value: u16)
        requires
            old(self).wf(),
        ensures
            final(self).wf(),
            final(self)@ == old(self)@.push_word(value),
    {
        self.stack_push((value / 256) as u8);
        self.stack_push((value % 256) as u8);
    }

    /// Increments the stack pointer (wrapping), then reads the byte it
    /// points to.
    pub fn stack_pop(&mut self) -> (r: u8)
        requires
            old(self).wf(),
        ensures
            final(self).wf(),
            r == old(self)@.pop_value(),
            final(self)@ == old(self)@.popped(),
    {
        self.stack_pointer = self.stack_pointer.wrapping_add(1);
        self.bus.cpu_read(STACK_START_ADDR + self.stack_pointer as u16)
    }

    /// Pulls the low byte, then the high byte.
    pub fn stack_pop_word(&mut self) -> (r: u16)
        requires
            old(self).wf(),
        ensures
            final(self).wf(),
            r == old(self)@.pop_word_value(),
            final(self)@ == old(self)@.popped_word(),
    {
        let lo = self.stack_pop();
        let hi = self.stack_pop();
        hi as u16 * 256 + lo as u16
    }

    /// Runs the handler of `instr`, one of the read group.
    fn dispatch_read(&mut self, instr: Instruction, mode: AddresingMode)
        requires
            old(self).wf(),
            old(self).has_room(2),
            instr is ADC || instr is AND || instr is BIT || instr is CMP || instr is CPX || instr is CPY || instr is EOR || instr is LDA || instr is LDX || instr is LDY || instr is ORA || instr is SBC,
        ensures
            final(self).wf(),
            final(self)@ == handler(old(self)@, instr, mode),
    {
        match instr {
            Instruction::ADC => read_opcodes::instr_adc(self, mode),
            Instruction::AND => read_opcodes::instr_and(self, mode),
            Instruction::BIT => read_opcodes::instr_bit(self, mode),
            Instruction::CMP => read_opcodes::instr_cmp(self, mode),
            Instruction::CPX => read_opcodes::instr_cpx(self, mode),
            Instruction::CPY => read_opcodes::instr_cpy(self, mode),
            Instruction::EOR => read_opcodes::instr_eor(self, mode),
            Instruction::LDA => read_opcodes::instr_lda(self, mode),
            Instruction::LDX => read_opcodes::instr_ldx(self, mode),
            Instruction::LDY => read_opcodes::instr_ldy(self, mode),
            Instruction::ORA => read_opcodes::instr_ora(self, mode),
            Instruction::SBC => read_opcodes::instr_sbc(self, mode),
            _ => {},
        }
    }

    /// Runs the handler of `instr`, one of the rmw group.
    fn dispatch_rmw(&mut self, instr: Instruction, mode: AddresingMode)
        requires
            old(self).wf(),
            old(self).has_room(2),
            instr is ASL || instr is DEC || instr is INC || instr is LSR || instr is ROL || instr is ROR,
        ensures
            final(self).wf(),
            final(self)@ == handler(old(self)@, instr, mode),
    {
        match instr {
            Instruction::ASL => rmw_opcodes::instr_asl(self, mode),
            Instruction::DEC => rmw_opcodes::instr_dec(self, mode),
            Instruction::INC => rmw_opcodes::instr_inc(self, mode),
            Instruction::LSR => rmw_opcodes::instr_lsr(self, mode),
            Instruction::ROL => rmw_opcodes::instr_rol(self, mode),
            Instruction::ROR => rmw_opcodes::instr_ror(self, mode),
            _ => {},
        }
    }

    /// Runs the handler of `instr`, one of the branch group.
    fn dispatch_branch(&mut self, instr: Instruction, mode: AddresingMode)
        requires
            old(self).wf(),
            old(self).has_room(2),
            instr is BCC || instr is BCS || instr is BEQ || instr is BMI || instr is BNE || instr is BPL || instr is BVC || instr is BVS,
        ensures
            final(self).wf(),
            final(self)@ == handler(old(self)@, instr, mode),
    {
        match instr {
            Instruction::BCC => branch_opcodes::instr_bcc(self, mode),
            Instruction::BCS => branch_opcodes::instr_bcs(self, mode),
            Instruction::BEQ => branch_opcodes::instr_beq(self, mode),
            Instruction::BMI => branch_opcodes::instr_bmi(self, mode),
            Instruction::BNE => branch_opcodes::instr_bne(self, mode),
            Instruction::BPL => branch_opcodes::instr_bpl(self, mode),
            Instruction::BVC => branch_opcodes::instr_bvc(self, mode),
            Instruction::BVS => branch_opcodes::instr_bvs(self, mode),
            _ => {},
        }
    }

    /// Runs the handler of `instr`, one of the routine group.
    fn dispatch_routine(&mut self, instr: Instruction, mode: AddresingMode)
        requires
            old(self).wf(),
            old(self).has_room(2),
            instr is BRK || instr is JMP || instr is JSR || instr is PHA || instr is PHP || instr is PLA || instr is PLP || instr is RTI || instr is RTS,
        ensures
            final(self).wf(),
            final(self)@ == handler(old(self)@, instr, mode),
    {
        match instr {
            Instruction::BRK => routine_opcodes::instr_brk(self, mode),
            Instruction::JMP => routine_opcodes::instr_jmp(self, mode),
            Instruction::JSR => routine_opcodes::instr_jsr(self, mode),
            Instruction::PHA => routine_opcodes::instr_pha(self, mode),
            Instruction::PHP => routine_opcodes::instr_php(self, mode),
            Instruction::PLA => routine_opcodes::instr_pla(self, mode),
            Instruction::PLP => routine_opcodes::instr_plp(self, mode),
            Instruction::RTI => routine_opcodes::instr_rti(self, mode),
            Instruction::RTS => routine_opcodes::instr_rts(self, mode),
            _ => {},
        }
    }

    /// Runs the handler of `instr`, one of the imp group.
    fn dispatch_imp(&mut self, instr: Instruction, mode: AddresingMode)
        requires
            old(self).wf(),
            old(self).has_room(2),
            instr is CLC || instr is CLD || instr is CLI || instr is CLV || instr is DEX || instr is DEY || instr is INX || instr is INY || instr is NOP || instr is SEC || instr is SED || instr is SEI || instr is TAX || instr is TAY || instr is TSX || instr is TXA || instr is TXS || instr is TYA,
        ensures
            final(self).wf(),
            final(self)@ == handler(old(self)@, instr, mode),
    {
        match instr {
            Instruction::CLC => imp_opcodes::instr_clc(self, mode),
            Instruction::CLD => imp_opcodes::instr_cld(self, mode),
            Instruction::CLI => imp_opcodes::instr_cli(self, mode),
            Instruction::CLV => imp_opcodes::instr_clv(self, mode),
            Instruction::DEX => imp_opcodes::instr_dex(self, mode),
            Instruction::DEY => imp_opcodes::instr_dey(self, mode),
            Instruction::INX => imp_opcodes::instr_inx(self, mode),
            Instruction::INY => imp_opcodes::instr_iny(self, mode),
            Instruction::NOP => imp_opcodes::instr_nop(self, mode),
            Instruction::SEC => imp_opcodes::instr_sec(self, mode),
            Instruction::SED => imp_opcodes::instr_sed(self, mode),
            Instruction::SEI => imp_opcodes::instr_sei(self, mode),
            Instruction::TAX => imp_opcodes::instr_tax(self, mode),
            Instruction::TAY => imp_opcodes::instr_tay(self, mode),
            Instruction::TSX => imp_opcodes::instr_tsx(self, mode),
            Instruction::TXA => imp_opcodes::instr_txa(self, mode),
            Instruction::TXS => imp_opcodes::instr_txs(self, mode),
            Instruction::TYA => imp_opcodes::instr_tya(self, mode),
            _ => {},
        }
    }

    /// Runs the handler of `instr`, one of the write group.
    fn dispatch_write(&mut self, instr: Instruction, mode: AddresingMode)
        requires
            old(self).wf(),
            old(self).has_room(2),
            instr is STA || instr is STX || instr is STY,
        ensures
            final(self).wf(),
            final(self)@ == handler(old(self)@, instr, mode),
    {
        match instr {
            Instruction::STA => write_opcodes::instr_sta(self, mode),
            Instruction::STX => write_opcodes::instr_stx(self, mode),
            Instruction::STY => write_opcodes::instr_sty(self, mode),
            _ => {},
        }
    }

    /// Runs the handler of `instr`.
    fn dispatch(&mut self, instr: Instruction, mode: AddresingMode)
        requires
            old(self).wf(),
            old(self).has_room(2),
            !(instr is INV),
        ensures
            final(self).wf(),
            final(self)@ == handler(old(self)@, instr, mode),
    {
        if matches!(instr, Instruction::ADC | Instruction::AND | Instruction::BIT | Instruction::CMP | Instruction::CPX | Instruction::CPY | Instruction::EOR | Instruction::LDA | Instruction::LDX | Instruction::LDY | Instruction::ORA | Instruction::SBC) {
            self.dispatch_read(instr, mode);
        } else if matches!(instr, Instruction::ASL | Instruction::DEC | Instruction::INC | Instruction::LSR | Instruction::ROL | Instruction::ROR) {
            self.dispatch_rmw(instr, mode);
        } else if matches!(instr, Instruction::BCC | Instruction::BCS | Instruction::BEQ | Instruction::BMI | Instruction::BNE | Instruction::BPL | Instruction::BVC | Instruction::BVS) {
            self.dispatch_branch(instr, mode);
        } else if matches!(instr, Instruction::BRK | Instruction::JMP | Instruction::JSR | Instruction::PHA | Instruction::PHP | Instruction::PLA | Instruction::PLP | Instruction::RTI | Instruction::RTS) {
            self.dispatch_routine(instr, mode);
        } else if matches!(instr, Instruction::CLC | Instruction::CLD | Instruction::CLI | Instruction::CLV | Instruction::DEX | Instruction::DEY | Instruction::INX | Instruction::INY | Instruction::NOP | Instruction::SEC | Instruction::SED | Instruction::SEI | Instruction::TAX | Instruction::TAY | Instruction::TSX | Instruction::TXA | Instruction::TXS | Instruction::TYA) {
            self.dispatch_imp(instr, mode);
        } else if matches!(instr, Instruction::STA | Instruction::STX | Instruction::STY) {
            self.dispatch_write(instr, mode);
        } else {
            self.dispatch_imp(instr, mode);
        }
    }

    /// Executes the instruction at PC: decodes it, runs its handler, advances
    /// PC by its length (control transfers leave PC short by that much) and
    /// charges its cycles. An unassigned opcode byte changes nothing and is
    /// reported.
    pub fn execute_next(&mut self) -> (r: Result<(), CpuError>)
        requires
            old(self).wf(),
            old(self).has_room(8),
        ensures
            final(self).wf(),
            !is_legal(old(self)@.bus.read(old(self)@.pc)) ==> r == Err::<(), CpuError>(
                CpuError::IllegalOpcode {
                    pc: old(self)@.pc,
                    opcode: old(self)@.bus.read(old(self)@.pc),
                },
            ) && final(self)@ == old(self)@,
            is_legal(old(self)@.bus.read(old(self)@.pc)) ==> r is Ok && final(self)@ == step(
                old(self)@,
            ),
            is_legal(old(self)@.bus.read(old(self)@.pc)) ==> 1 <= final(self)@.bus.cycles - old(
                self,
            )@.bus.cycles <= 8,
    {
        let byte = self.bus.cpu_read(self.program_counter);
        let opcode = decode_opcode(byte);
        let mode = opcode.addresing_mode;
        proof {
            lemma_opcode_costs(byte);
            lemma_handler_cycles(self@, opcode.instr, mode);
            if is_legal(byte) {
                lemma_step_cycles(self@);
            }
        }
        if opcode.instr == Instruction::INV {
            return Err(CpuError::IllegalOpcode { pc: self.program_counter, opcode: byte });
        }
        self.dispatch(opcode.instr, mode);
        self.bus.cycle(opcode.cycle_count);
        self.program_counter = self.program_counter.wrapping_add(opcode.get_length());
        Ok(())
    }
}

} // verus!
