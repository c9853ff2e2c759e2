//! General properties of the instruction set and the engine, stated and
//! proved as public proof functions.

use vstd::prelude::*;

use crate::isa::add_spec;
use crate::isa::eq_flag;
use crate::isa::gt_flag;
use crate::isa::is_literal;
use crate::isa::mult_spec;
use crate::isa::not_spec;
use crate::isa::resolve_spec;
use crate::isa::valid_operand;
use crate::isa::MAX_LITERAL;
use crate::isa::REGISTER_BASE;
use crate::isa::REGISTER_COUNT;
use crate::isa::OP_CALL;
use crate::isa::OP_POP;
use crate::isa::OP_RET;
use crate::isa::OP_WMEM;
use crate::machine::step_spec;
use crate::machine::Outcome;
use crate::machine::State;

verus! {

/// Every step of the engine preserves the machine's structural invariant:
/// memory and register bank keep their fixed sizes.
pub proof fn lemma_step_spec_preserves_wf(s: State)
    requires
        s.wf(),
    ensures
        step_spec(s).0.wf(),
{
}

/// A literal operand resolves to itself, whatever the registers hold.
pub proof fn lemma_resolve_literal(raw: u16, registers: Seq<u16>)
    requires
        is_literal(raw),
    ensures
        resolve_spec(raw, registers) == raw,
{
}

/// A register reference resolves to exactly that register's contents.
pub proof fn lemma_resolve_register(r: u16, registers: Seq<u16>)
    requires
        r < REGISTER_COUNT,
        registers.len() == REGISTER_COUNT,
    ensures
        resolve_spec((REGISTER_BASE + r) as u16, registers) == registers[r as int],
{
}

/// ADD is commutative and its result lies in the 15-bit value range.
pub proof fn lemma_add_commutes_in_range(b: u16, c: u16)
    ensures
        add_spec(b, c) == add_spec(c, b),
        add_spec(b, c) <= MAX_LITERAL,
{
}

/// MULT is commutative and its result lies in the 15-bit value range.
pub proof fn lemma_mult_commutes_in_range(b: u16, c: u16)
    ensures
        mult_spec(b, c) == mult_spec(c, b),
        mult_spec(b, c) <= MAX_LITERAL,
{
    assert((b as int) * (c as int) == (c as int) * (b as int)) by (nonlinear_arith);
    assert((b as int) * (c as int) >= 0) by (nonlinear_arith);
}

/// NOT is an involution on the 15-bit value range.
pub proof fn lemma_not_involution(x: u16)
    requires
        x <= MAX_LITERAL,
    ensures
        not_spec(not_spec(x)) == x,
{
    assert((!((!x) & 0x7fff)) & 0x7fff == x) by (bit_vector)
        requires
            x <= 0x7fff,
    ;
}

/// EQ and GT produce only the flags 0 and 1, never another value.
pub proof fn lemma_compare_flags_boolean(b: u16, c: u16)
    ensures
        eq_flag(b, c) == 0 || eq_flag(b, c) == 1,
        gt_flag(b, c) == 0 || gt_flag(b, c) == 1,
{
}

/// The CALL/RET round trip.  A CALL at address `A` pushes `A + 2`, the
/// address of the following instruction, and keeps running; a later RET in
/// any state whose stack the CALL left (nothing else altered it) pops that
/// address, resumes at `A + 2`, and restores the stack the caller had.
pub proof fn lemma_call_ret_round_trip(s: State, t: State)
    requires
        s.wf(),
        s.pc + 1 <= MAX_LITERAL,
        s.word(0) == OP_CALL,
        valid_operand(s.word(1)),
        t.wf(),
        t.pc <= MAX_LITERAL,
        t.word(0) == OP_RET,
        t.stack == step_spec(s).0.stack,
    ensures
        step_spec(s).1 == Outcome::Running,
        step_spec(s).0.stack == s.stack.push((s.pc + 2) as u16),
        step_spec(t).1 == Outcome::Running,
        step_spec(t).0.pc == s.pc + 2,
        step_spec(t).0.stack == s.stack,
{
    assert(t.stack == s.stack.push((s.pc + 2) as u16));
    assert(t.stack.last() == (s.pc + 2) as u16);
    assert(t.stack.drop_last() =~= s.stack);
}

/// Stack discipline: POP or RET on an empty stack always faults, and a
/// faulting step leaves the state exactly as it was — no partial mutation.
pub proof fn lemma_empty_stack_faults(s: State)
    requires
        s.wf(),
        s.stack.len() == 0,
        s.pc <= MAX_LITERAL,
        s.word(0) == OP_POP || s.word(0) == OP_RET,
    ensures
        step_spec(s).1 is Faulted,
        step_spec(s).0 == s,
{
}

/// Self-modifying code is observed: when WMEM writes to the very address the
/// program counter will visit next, the following fetch reads the value just
/// written — there is no instruction cache.
pub proof fn lemma_wmem_write_visible_to_next_fetch(s: State)
    requires
        s.wf(),
        s.pc + 2 <= MAX_LITERAL,
        s.word(0) == OP_WMEM,
        valid_operand(s.word(1)),
        valid_operand(s.word(2)),
        s.operand(1) <= MAX_LITERAL,
        s.operand(1) == s.pc + 3,
    ensures
        step_spec(s).1 == Outcome::Running,
        step_spec(s).0.pc == s.pc + 3,
        step_spec(s).0.word(0) == s.operand(2),
{
}

} // verus!
