//! The instruction-set architecture: named constants, the operand-resolution
//! rule, and the arithmetic/bitwise/comparison operations, each given first as
//! a specification function and then as verified executable code.

use vstd::prelude::*;

verus! {

/// Number of addressable memory cells.
pub const ADDRESS_SPACE: usize = 32768;
/// Number of general registers.
pub const REGISTER_COUNT: usize = 8;
/// Largest value a literal operand can take; also the largest valid address.
pub const MAX_LITERAL: u16 = 32767;
/// Raw operand value denoting register 0.
pub const REGISTER_BASE: u16 = 32768;
/// Largest valid raw operand (`REGISTER_BASE` + `REGISTER_COUNT` - 1).
pub const MAX_OPERAND: u16 = 32775;
/// Modulus that reduces arithmetic results into the 15-bit value range.
pub const VALUE_MODULUS: u32 = 32768;

pub const OP_HALT: u16 = 0;
pub const OP_SET: u16 = 1;
pub const OP_PUSH: u16 = 2;
pub const OP_POP: u16 = 3;
pub const OP_EQ: u16 = 4;
pub const OP_GT: u16 = 5;
pub const OP_JMP: u16 = 6;
pub const OP_JT: u16 = 7;
pub const OP_JF: u16 = 8;
pub const OP_ADD: u16 = 9;
pub const OP_MULT: u16 = 10;
pub const OP_MOD: u16 = 11;
pub const OP_AND: u16 = 12;
pub const OP_OR: u16 = 13;
pub const OP_NOT: u16 = 14;
pub const OP_RMEM: u16 = 15;
pub const OP_WMEM: u16 = 16;
pub const OP_CALL: u16 = 17;
pub const OP_RET: u16 = 18;
pub const OP_OUT: u16 = 19;
pub const OP_IN: u16 = 20;
pub const OP_NOOP: u16 = 21;

/// A raw operand at or below `MAX_LITERAL` stands for itself.
pub open spec fn is_literal(raw: u16) -> bool {
    raw <= MAX_LITERAL
}

/// A raw operand in [`REGISTER_BASE`, `MAX_OPERAND`] denotes a register.
pub open spec fn is_register_ref(raw: u16) -> bool {
    REGISTER_BASE <= raw <= MAX_OPERAND
}

/// The only valid encodings of a value operand: a literal or a register.
pub open spec fn valid_operand(raw: u16) -> bool {
    raw <= MAX_OPERAND
}

/// A destination operand must denote a register; it has no literal case.
pub open spec fn valid_dest(raw: u16) -> bool {
    is_register_ref(raw)
}

/// The operand-resolution rule: a literal resolves to itself, a register
/// reference to that register's current contents.
pub open spec fn resolve_spec(raw: u16, registers: Seq<u16>) -> u16
    recommends
        valid_operand(raw),
        registers.len() == REGISTER_COUNT,
{
    if is_literal(raw) {
        raw
    } else {
        registers[raw - REGISTER_BASE]
    }
}

/// Addition reduced modulo `VALUE_MODULUS` (wraparound, never a fault).
pub open spec fn add_spec(b: u16, c: u16) -> u16 {
    ((b + c) % (VALUE_MODULUS as int)) as u16
}

/// Multiplication reduced modulo `VALUE_MODULUS`.
pub open spec fn mult_spec(b: u16, c: u16) -> u16 {
    ((b * c) % (VALUE_MODULUS as int)) as u16
}

/// Remainder; meaningful only for a non-zero divisor (a zero divisor is a
/// fault in the engine, never a silent zero).
pub open spec fn mod_spec(b: u16, c: u16) -> u16
    recommends
        c != 0,
{
    ((b as int) % (c as int)) as u16
}

pub open spec fn and_spec(b: u16, c: u16) -> u16 {
    b & c
}

pub open spec fn or_spec(b: u16, c: u16) -> u16 {
    b | c
}

/// Bitwise complement of all 16 stored bits, masked back to 15 bits.
pub open spec fn not_spec(b: u16) -> u16 {
    (!b) & MAX_LITERAL
}

/// Equality comparison produces exactly 1 or 0.
pub open spec fn eq_flag(b: u16, c: u16) -> u16 {
    if b == c {
        1u16
    } else {
        0u16
    }
}

/// Greater-than comparison produces exactly 1 or 0.
pub open spec fn gt_flag(b: u16, c: u16) -> u16 {
    if b > c {
        1u16
    } else {
        0u16
    }
}

/// The character code emitted for a value: its low byte.
pub open spec fn out_byte(v: u16) -> u8 {
    (v % 256) as u8
}

/// The opcodes whose effect is `registers[dest] = f(value(b), value(c))`.
pub open spec fn is_binary_op(op: u16) -> bool {
    op == OP_EQ || op == OP_GT || op == OP_ADD || op == OP_MULT || op == OP_MOD || op == OP_AND
        || op == OP_OR
}

/// The result a binary opcode stores in its destination register.
pub open spec fn binop_spec(op: u16, b: u16, c: u16) -> u16
    recommends
        is_binary_op(op),
        op == OP_MOD ==> c != 0,
{
    if op == OP_EQ {
        eq_flag(b, c)
    } else if op == OP_GT {
        gt_flag(b, c)
    } else if op == OP_ADD {
        add_spec(b, c)
    } else if op == OP_MULT {
        mult_spec(b, c)
    } else if op == OP_MOD {
        mod_spec(b, c)
    } else if op == OP_AND {
        and_spec(b, c)
    } else {
        or_spec(b, c)
    }
}

/// Resolve a raw operand against the register bank: a literal stands for
/// itself, a register reference reads that register.
pub fn get_value(value: u16, register: &[u16]) -> (r: u16)
    requires
        register@.len() == REGISTER_COUNT,
        valid_operand(value),
    ensures
        r == resolve_spec(value, register@),
        is_literal(value) ==> r == value,
        is_register_ref(value) ==> r == register@[value - REGISTER_BASE],
{
    if value <= MAX_LITERAL {
        value
    } else {
        register[(value - REGISTER_BASE) as usize]
    }
}

/// Perform one binary opcode on two resolved values.
pub fn apply_binary_op(op: u16, b: u16, c: u16) -> (r: u16)
    requires
        is_binary_op(op),
        op == OP_MOD ==> c != 0,
    ensures
        r == binop_spec(op, b, c),
{
    if op == OP_EQ {
        if b == c {
            1
        } else {
            0
        }
    } else if op == OP_GT {
        if b > c {
            1
        } else {
            0
        }
    } else if op == OP_ADD {
        (((b as u32) + (c as u32)) % VALUE_MODULUS) as u16
    } else if op == OP_MULT {
        proof {
            assert((b as int) * (c as int) <= 65535 * 65535) by (nonlinear_arith)
                requires
                    b <= 65535,
                    c <= 65535,
            ;
        }
        (((b as u32) * (c as u32)) % VALUE_MODULUS) as u16
    } else if op == OP_MOD {
        b % c
    } else if op == OP_AND {
        b & c
    } else {
        b | c
    }
}

} // verus!
