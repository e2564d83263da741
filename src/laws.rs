//! Properties of the instruction set that hold of every program.
use vstd::prelude::*;

use crate::bus::word;
use crate::flags::{has_flag, with_flag, with_nz, FLAG_C, FLAG_N, FLAG_V, FLAG_Z};
use crate::instructions::{
    is_address_mode, is_read_instr, mode_length, opcode_entry, AddresingMode, Instruction,
};
use crate::semantics::{
    add_state, arg_b, arg_w, branch_taken, branch_target, handler, is_branch, is_legal, operand,
    operand_value, page_crossed, pulled_flags, pushed_flags, step, CpuState,
};

verus! {

/// Every opcode of the table costs 2 to 7 base cycles; branches cost 2 and
/// use relative addressing; unassigned bytes cost nothing.
pub proof fn lemma_opcode_costs(byte: u8)
    ensures
        is_legal(byte) ==> 2 <= opcode_entry(byte).cycle_count <= 7,
        !is_legal(byte) ==> opcode_entry(byte).cycle_count == 0,
        is_branch(opcode_entry(byte).instr) ==> opcode_entry(byte).cycle_count == 2
            && opcode_entry(byte).addresing_mode == AddresingMode::REL,
{
}

/// The table charges a crossed page to the read instructions only.
#[verifier::rlimit(50)]
pub proof fn lemma_opcode_penalty(byte: u8)
    ensures
        opcode_entry(byte).page_penalty == is_read_instr(opcode_entry(byte).instr),
{
}

/// A handler charges at most one cycle, a branch at most two, and never
/// takes cycles back.
pub proof fn lemma_handler_cycles(s: CpuState, instr: Instruction, mode: AddresingMode)
    ensures
        s.bus.cycles <= handler(s, instr, mode).bus.cycles <= s.bus.cycles + 2,
        !is_branch(instr) ==> handler(s, instr, mode).bus.cycles <= s.bus.cycles + 1,
{
    reveal(handler);
}

/// Every instruction costs between 1 and 8 cycles.
pub proof fn lemma_step_cycles(s: CpuState)
    requires
        is_legal(s.bus.read(s.pc)),
    ensures
        1 <= step(s).bus.cycles - s.bus.cycles <= 8,
{
    let op = opcode_entry(s.bus.read(s.pc));
    lemma_opcode_costs(s.bus.read(s.pc));
    lemma_handler_cycles(s, op.instr, op.addresing_mode);
}

/// Reading Z and N back after they were set from `v`, and reading a flag
/// that a later Z/N update left alone.
pub proof fn lemma_with_nz_reads(p: u8, v: u8)
    ensures
        has_flag(with_nz(p, v), FLAG_Z) == (v == 0),
        has_flag(with_nz(p, v), FLAG_N) == (v & 0x80 != 0),
        has_flag(with_nz(p, v), FLAG_C) == has_flag(p, FLAG_C),
        has_flag(with_nz(p, v), FLAG_V) == has_flag(p, FLAG_V),
{
    assert(has_flag(with_nz(p, v), FLAG_Z) == (v == 0)) by (bit_vector);
    assert(has_flag(with_nz(p, v), FLAG_N) == (v & 0x80 != 0)) by (bit_vector);
    assert(has_flag(with_nz(p, v), FLAG_C) == has_flag(p, FLAG_C)) by (bit_vector);
    assert(has_flag(with_nz(p, v), FLAG_V) == has_flag(p, FLAG_V)) by (bit_vector);
}

/// `lemma_with_nz_reads` for every flag byte and value.
pub proof fn lemma_with_nz_reads_all()
    ensures
        forall|p: u8, v: u8|
            #![trigger with_nz(p, v)]
            has_flag(with_nz(p, v), FLAG_Z) == (v == 0) && has_flag(with_nz(p, v), FLAG_N) == (v
                & 0x80 != 0),
{
    assert forall|p: u8, v: u8| #![trigger with_nz(p, v)]
        has_flag(with_nz(p, v), FLAG_Z) == (v == 0) && has_flag(with_nz(p, v), FLAG_N) == (v
            & 0x80 != 0) by {
        lemma_with_nz_reads(p, v);
    }
}

/// Whether `instr` is a control transfer: a jump, a call, a return, BRK, or
/// a branch.
pub open spec fn is_control(instr: Instruction) -> bool {
    instr is JMP || instr is JSR || instr is RTS || instr is RTI || instr is BRK || is_branch(instr)
}

/// PC advances by exactly the instruction's length for every instruction
/// but the control transfers, and for a branch that is not taken.
pub proof fn lemma_step_advances_pc(s: CpuState)
    requires
        is_legal(s.bus.read(s.pc)),
        !is_control(opcode_entry(s.bus.read(s.pc)).instr) || (is_branch(
            opcode_entry(s.bus.read(s.pc)).instr,
        ) && !branch_taken(opcode_entry(s.bus.read(s.pc)).instr, s.p)),
    ensures
        step(s).pc == s.pc.wrapping_add(mode_length(opcode_entry(s.bus.read(s.pc)).addresing_mode)),
{
    reveal(handler);
}

/// The value that N and Z reflect after `instr`: the register or memory
/// byte it wrote, or the difference a compare computed; `None` for the
/// instructions that leave N and Z alone or set them otherwise (BIT, PLP,
/// RTI).
pub open spec fn nz_source(s: CpuState, instr: Instruction, mode: AddresingMode) -> Option<u8> {
    let t = handler(s, instr, mode);
    let v = operand_value(s, mode);
    let c: u8 = if has_flag(s.p, FLAG_C) {
        1
    } else {
        0
    };
    match instr {
        Instruction::LDA | Instruction::AND | Instruction::EOR | Instruction::ORA
        | Instruction::ADC | Instruction::SBC | Instruction::PLA | Instruction::TXA
        | Instruction::TYA => Some(t.a),
        Instruction::LDX | Instruction::INX | Instruction::DEX | Instruction::TAX
        | Instruction::TSX => Some(t.x),
        Instruction::LDY | Instruction::INY | Instruction::DEY | Instruction::TAY => Some(t.y),
        Instruction::ASL => Some(((v * 2) % 256) as u8),
        Instruction::LSR => Some(v / 2),
        Instruction::ROL => Some(((v * 2 + c) % 256) as u8),
        Instruction::ROR => Some((v / 2 + 128 * c) as u8),
        Instruction::INC => Some(v.wrapping_add(1)),
        Instruction::DEC => Some(v.wrapping_sub(1)),
        Instruction::CMP => Some(s.a.wrapping_sub(v)),
        Instruction::CPX => Some(s.x.wrapping_sub(v)),
        Instruction::CPY => Some(s.y.wrapping_sub(v)),
        _ => None,
    }
}

/// N is bit 7 and Z is the zero test of the value that the instruction
/// last wrote to A, X, Y or memory (or compared): never stale. In
/// accumulator mode the shifts' value is the new A.
pub proof fn lemma_nz_tracks_result(s: CpuState, instr: Instruction, mode: AddresingMode)
    requires
        nz_source(s, instr, mode) is Some,
    ensures
        has_flag(handler(s, instr, mode).p, FLAG_N) == (nz_source(s, instr, mode).unwrap() & 0x80
            != 0),
        has_flag(handler(s, instr, mode).p, FLAG_Z) == (nz_source(s, instr, mode).unwrap() == 0),
        (instr is ASL || instr is LSR || instr is ROL || instr is ROR) && !is_address_mode(mode)
            ==> nz_source(s, instr, mode).unwrap() == handler(s, instr, mode).a,
{
    lemma_with_nz_reads_all();
    match instr {
        Instruction::LDA => {
            reveal(handler);
        },
        Instruction::LDX => {
            reveal(handler);
        },
        Instruction::LDY => {
            reveal(handler);
        },
        Instruction::AND => {
            reveal(handler);
        },
        Instruction::EOR => {
            reveal(handler);
        },
        Instruction::ORA => {
            reveal(handler);
        },
        Instruction::PLA => {
            reveal(handler);
        },
        Instruction::ADC => {
            reveal(handler);
        },
        Instruction::SBC => {
            reveal(handler);
        },
        Instruction::CMP => {
            reveal(handler);
        },
        Instruction::CPX => {
            reveal(handler);
        },
        Instruction::CPY => {
            reveal(handler);
        },
        Instruction::ASL => {
            reveal(handler);
        },
        Instruction::LSR => {
            reveal(handler);
        },
        Instruction::ROL => {
            reveal(handler);
        },
        Instruction::ROR => {
            reveal(handler);
        },
        Instruction::INC => {
            reveal(handler);
        },
        Instruction::DEC => {
            reveal(handler);
        },
        Instruction::INX => {
            reveal(handler);
        },
        Instruction::DEX => {
            reveal(handler);
        },
        Instruction::INY => {
            reveal(handler);
        },
        Instruction::DEY => {
            reveal(handler);
        },
        Instruction::TAX => {
            reveal(handler);
        },
        Instruction::TAY => {
            reveal(handler);
        },
        Instruction::TSX => {
            reveal(handler);
        },
        Instruction::TXA => {
            reveal(handler);
        },
        Instruction::TYA => {
            reveal(handler);
        },
        _ => {},
    }
}

/// ADC of M then SBC of M gives back A and C when entered with C set and
/// V clear, provided the ADC does not carry out (`A + M + 1 <= 0xFF`).
pub proof fn lemma_adc_sbc_restores(s: CpuState, m: u8)
    requires
        has_flag(s.p, FLAG_C),
        !has_flag(s.p, FLAG_V),
        s.a + m + 1 <= 0xFF,
    ensures
        add_state(add_state(s, m), m ^ 0xFF).a == s.a,
        has_flag(add_state(add_state(s, m), m ^ 0xFF).p, FLAG_C),
{
    let t = add_state(s, m);
    let r = t.a;
    assert(r == s.a + m + 1);
    let q1 = with_flag(s.p, FLAG_C, false);
    let q2 = with_flag(q1, FLAG_V, crate::semantics::adc_overflow(s.a, m, r));
    assert(t.p == with_nz(q2, r));
    lemma_with_nz_reads(q2, r);
    crate::flags::lemma_with_flag_reads(q1, FLAG_V, crate::semantics::adc_overflow(s.a, m, r), FLAG_C);
    crate::flags::lemma_with_flag_reads(s.p, FLAG_C, false, FLAG_C);
    assert(!has_flag(t.p, FLAG_C));
    assert(m ^ 0xFF == 255 - m) by (bit_vector);
    let u = add_state(t, m ^ 0xFF);
    assert(u.a == s.a);
    let q3 = with_flag(t.p, FLAG_C, true);
    let q4 = with_flag(q3, FLAG_V, crate::semantics::adc_overflow(t.a, m ^ 0xFF, u.a));
    assert(u.p == with_nz(q4, u.a));
    lemma_with_nz_reads(q4, u.a);
    crate::flags::lemma_with_flag_reads(q3, FLAG_V, crate::semantics::adc_overflow(t.a, m ^ 0xFF, u.a), FLAG_C);
    crate::flags::lemma_with_flag_reads(t.p, FLAG_C, true, FLAG_C);
}

/// PHA then PLA leaves A and S as they were and sets N and Z from A.
pub proof fn lemma_pha_pla(s: CpuState)
    requires
        s.wf(),
    ensures
        handler(handler(s, Instruction::PHA, AddresingMode::IMP), Instruction::PLA, AddresingMode::IMP).a
            == s.a,
        handler(handler(s, Instruction::PHA, AddresingMode::IMP), Instruction::PLA, AddresingMode::IMP).s
            == s.s,
        handler(handler(s, Instruction::PHA, AddresingMode::IMP), Instruction::PLA, AddresingMode::IMP).p
            == with_nz(s.p, s.a),
{
    reveal(handler);
}

/// PHP then PLP keeps every flag but B and U; B comes back clear and U set.
pub proof fn lemma_php_plp(s: CpuState)
    requires
        s.wf(),
    ensures
        handler(handler(s, Instruction::PHP, AddresingMode::IMP), Instruction::PLP, AddresingMode::IMP).p
            & 0xCF == s.p & 0xCF,
        handler(handler(s, Instruction::PHP, AddresingMode::IMP), Instruction::PLP, AddresingMode::IMP).p
            & 0x30 == 0x20,
        handler(handler(s, Instruction::PHP, AddresingMode::IMP), Instruction::PLP, AddresingMode::IMP).s
            == s.s,
{
    reveal(handler);
    let t = handler(handler(s, Instruction::PHP, AddresingMode::IMP), Instruction::PLP, AddresingMode::IMP);
    assert(t.p == pulled_flags(pushed_flags(s.p)));
    let p = s.p;
    assert(pulled_flags(pushed_flags(p)) & 0xCF == p & 0xCF) by (bit_vector);
    assert(pulled_flags(pushed_flags(p)) & 0x30 == 0x20) by (bit_vector);
}

/// An indirect jump through a pointer that ends in `$FF` takes the high
/// byte of its target from the start of the pointer's page.
pub proof fn lemma_indirect_jump_page_wrap(s: CpuState)
    requires
        s.bus.read(s.pc) == 0x6C,
        arg_w(s) % 256 == 0xFF,
    ensures
        step(s).pc == word(s.bus.read(arg_w(s)), s.bus.read((arg_w(s) - 0xFF) as u16)),
{
    reveal(handler);
}

/// Zero-page indexing wraps within page 0: `(zp,X)` reads its pointer from
/// `(zp + X) mod 256` and `(zp + X + 1) mod 256`, and `zp,X` addresses
/// `(zp + X) mod 256`.
pub proof fn lemma_zero_page_wrap(s: CpuState)
    ensures
        operand(s, AddresingMode::IDX).0 == word(
            s.bus.read(((arg_b(s) + s.x) % 256) as u16),
            s.bus.read(((arg_b(s) + s.x + 1) % 256) as u16),
        ),
        operand(s, AddresingMode::ZPX).0 == (arg_b(s) + s.x) % 256,
        operand(s, AddresingMode::ZPY).0 == (arg_b(s) + s.y) % 256,
{
}

/// A branch costs its 2 base cycles, one more when taken, and one more
/// again when the target lies in another page than the next instruction;
/// a taken branch goes to the next instruction plus the signed offset.
pub proof fn lemma_branch_cost(s: CpuState)
    requires
        is_branch(opcode_entry(s.bus.read(s.pc)).instr),
    ensures
        ({
            let instr = opcode_entry(s.bus.read(s.pc)).instr;
            let next = s.pc.wrapping_add(2);
            let target = branch_target(next, arg_b(s));
            if branch_taken(instr, s.p) {
                &&& step(s).pc == target
                &&& step(s).bus.cycles == s.bus.cycles + if page_crossed(next, target) {
                    4int
                } else {
                    3int
                }
            } else {
                &&& step(s).pc == next
                &&& step(s).bus.cycles == s.bus.cycles + 2
            }
        }),
{
    lemma_opcode_costs(s.bus.read(s.pc));
    reveal(handler);
}

/// With absolute-indexed and indirect-indexed operands, a crossed page costs
/// one cycle more for the read instructions only; stores and
/// read-modify-write instructions always pay their base cost.
pub proof fn lemma_page_penalty(s: CpuState)
    requires
        is_legal(s.bus.read(s.pc)),
        !is_branch(opcode_entry(s.bus.read(s.pc)).instr),
    ensures
        ({
            let op = opcode_entry(s.bus.read(s.pc));
            step(s).bus.cycles == s.bus.cycles + op.cycle_count + if is_read_instr(op.instr)
                && operand(s, op.addresing_mode).1 {
                1int
            } else {
                0int
            }
        }),
{
    lemma_opcode_costs(s.bus.read(s.pc));
    lemma_opcode_penalty(s.bus.read(s.pc));
    reveal(handler);
}

/// STA with absolute-X addressing costs 5 cycles, page crossed or not.
pub proof fn lemma_sta_abx_cost(s: CpuState)
    requires
        s.bus.read(s.pc) == 0x9D,
    ensures
        step(s).bus.cycles == s.bus.cycles + 5,
{
    lemma_page_penalty(s);
}

/// One stack operation of a sequence.
pub enum StackOp {
    Push(u8),
    Pop,
}

/// The state after the stack operations `ops`, in order.
pub open spec fn run_stack(s: CpuState, ops: Seq<StackOp>) -> CpuState
    decreases ops.len(),
{
    if ops.len() == 0 {
        s
    } else {
        let t = match ops[0] {
            StackOp::Push(v) => s.push(v),
            StackOp::Pop => s.popped(),
        };
        run_stack(t, ops.drop_first())
    }
}

/// Whether `ops`, entered `d` bytes deep, never pops below depth 0, never
/// grows past `limit`, and ends at depth 0.
pub open spec fn stays_within(ops: Seq<StackOp>, d: int, limit: int) -> bool
    decreases ops.len(),
{
    if ops.len() == 0 {
        d == 0
    } else {
        let d2 = if ops[0] is Push {
            d + 1
        } else {
            d - 1
        };
        0 <= d2 <= limit && stays_within(ops.drop_first(), d2, limit)
    }
}

proof fn lemma_stack_run(t: CpuState, ops: Seq<StackOp>, base: u8, d: int)
    requires
        t.wf(),
        0 <= d <= base,
        t.s == base - d,
        stays_within(ops, d, base as int),
    ensures
        run_stack(t, ops).wf(),
        run_stack(t, ops).s == base,
        forall|k: u8|
            base < k ==> #[trigger] run_stack(t, ops).bus.read(crate::semantics::stack_addr(k))
                == t.bus.read(crate::semantics::stack_addr(k)),
    decreases ops.len(),
{
    if ops.len() > 0 {
        let (u, d2) = match ops[0] {
            StackOp::Push(v) => (t.push(v), d + 1),
            StackOp::Pop => (t.popped(), d - 1),
        };
        lemma_stack_run(u, ops.drop_first(), base, d2);
        assert forall|k: u8| base < k implies #[trigger] u.bus.read(
            crate::semantics::stack_addr(k),
        ) == t.bus.read(crate::semantics::stack_addr(k)) by {}
    }
}

/// A sequence of pushes and pops that balances, and never goes deeper than
/// S (so that the stack pointer does not wrap), brings S back to its value
/// and leaves the stack bytes above S as they were.
pub proof fn lemma_balanced_stack(s: CpuState, ops: Seq<StackOp>)
    requires
        s.wf(),
        stays_within(ops, 0, s.s as int),
    ensures
        run_stack(s, ops).s == s.s,
        forall|k: u8|
            s.s < k ==> #[trigger] run_stack(s, ops).bus.read(crate::semantics::stack_addr(k))
                == s.bus.read(crate::semantics::stack_addr(k)),
{
    lemma_stack_run(s, ops, s.s, 0);
}

/// A pull right after a push returns the pushed byte and restores S.
pub proof fn lemma_push_pop(s: CpuState, v: u8)
    requires
        s.wf(),
    ensures
        s.push(v).pop_value() == v,
        s.push(v).popped().s == s.s,
{
}

/// The state after pushing each byte of `vs`, first to last.
pub open spec fn push_all(s: CpuState, vs: Seq<u8>) -> CpuState
    decreases vs.len(),
{
    if vs.len() == 0 {
        s
    } else {
        push_all(s, vs.drop_last()).push(vs.last())
    }
}

/// The bytes that `k` pulls from `s` return, in order.
pub open spec fn pulled(s: CpuState, k: nat) -> Seq<u8>
    decreases k,
{
    if k == 0 {
        seq![]
    } else {
        seq![s.pop_value()] + pulled(s.popped(), (k - 1) as nat)
    }
}

/// The state after `k` pulls.
pub open spec fn popped_n(s: CpuState, k: nat) -> CpuState
    decreases k,
{
    if k == 0 {
        s
    } else {
        popped_n(s.popped(), (k - 1) as nat)
    }
}

/// `k` pulls only look at the `k` stack bytes above S.
proof fn lemma_pulled_frame(x: CpuState, y: CpuState, k: nat)
    requires
        x.wf(),
        y.wf(),
        x.s == y.s,
        x.s + k <= 0xFF,
        forall|i: int|
            1 <= i <= k ==> x.bus.read(#[trigger] crate::semantics::stack_addr((x.s + i) as u8))
                == y.bus.read(crate::semantics::stack_addr((x.s + i) as u8)),
    ensures
        pulled(x, k) == pulled(y, k),
        popped_n(x, k).s == x.s + k,
        popped_n(y, k).s == x.s + k,
    decreases k,
{
    if k > 0 {
        assert(x.bus.read(crate::semantics::stack_addr((x.s + 1) as u8)) == y.bus.read(
            crate::semantics::stack_addr((x.s + 1) as u8),
        ));
        let x1 = x.popped();
        let y1 = y.popped();
        assert forall|i: int| 1 <= i <= k - 1 implies x1.bus.read(
            #[trigger] crate::semantics::stack_addr((x1.s + i) as u8),
        ) == y1.bus.read(crate::semantics::stack_addr((x1.s + i) as u8)) by {
            assert(x.bus.read(crate::semantics::stack_addr((x.s + (i + 1)) as u8)) == y.bus.read(
                crate::semantics::stack_addr((x.s + (i + 1)) as u8),
            ));
        }
        lemma_pulled_frame(x1, y1, (k - 1) as nat);
    }
}

/// Pushing bytes and then pulling as many gives them back last first and
/// restores S, provided the pushes do not wrap S past `$00` more than once
/// (at most S + 1 of them).
pub proof fn lemma_push_pull_lifo(s: CpuState, vs: Seq<u8>)
    requires
        s.wf(),
        vs.len() <= s.s + 1,
    ensures
        push_all(s, vs).wf(),
        vs.len() <= s.s ==> push_all(s, vs).s == s.s - vs.len(),
        pulled(push_all(s, vs), vs.len()) == vs.reverse(),
        popped_n(push_all(s, vs), vs.len()).s == s.s,
    decreases vs.len(),
{
    if vs.len() == 0 {
        assert(vs.reverse() =~= seq![]);
    } else {
        let k = vs.len();
        let rest = vs.drop_last();
        let v = vs.last();
        lemma_push_pull_lifo(s, rest);
        let t = push_all(s, rest);
        let u = t.push(v);
        assert(u.pop_value() == v);
        let u1 = u.popped();
        assert(u1.s == t.s);
        assert forall|i: int| 1 <= i <= k - 1 implies u1.bus.read(
            #[trigger] crate::semantics::stack_addr((u1.s + i) as u8),
        ) == t.bus.read(crate::semantics::stack_addr((u1.s + i) as u8)) by {}
        lemma_pulled_frame(u1, t, (k - 1) as nat);
        assert(pulled(u, k) == seq![v] + pulled(u1, (k - 1) as nat));
        assert(vs.reverse() =~= seq![v] + rest.reverse());
        assert(popped_n(u, k) == popped_n(u1, (k - 1) as nat));
    }
}

} // verus!
