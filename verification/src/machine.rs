//! The machine state and the fetch-decode-execute engine.
//!
//! `State` is the mathematical model of a machine: memory, registers, stack,
//! program counter and the stream of characters emitted so far.  `step_spec`
//! is a total specification-level interpreter: for any state it says exactly
//! what the next state is and whether the machine keeps running, halts
//! normally, or faults.  The executable `Machine::step` is proved to agree
//! with `step_spec` on every state, and `Machine::run` with its iteration
//! `run_spec`.

use vstd::prelude::*;

use crate::isa::binop_spec;
use crate::isa::is_binary_op;
use crate::isa::not_spec;
use crate::isa::out_byte;
use crate::isa::resolve_spec;
use crate::isa::valid_dest;
use crate::isa::valid_operand;
use crate::isa::apply_binary_op;
use crate::isa::get_value;
use crate::isa::ADDRESS_SPACE;
use crate::isa::MAX_LITERAL;
use crate::isa::MAX_OPERAND;
use crate::isa::REGISTER_BASE;
use crate::isa::REGISTER_COUNT;
use crate::isa::OP_HALT;
use crate::isa::OP_SET;
use crate::isa::OP_PUSH;
use crate::isa::OP_POP;
use crate::isa::OP_EQ;
use crate::isa::OP_GT;
use crate::isa::OP_JMP;
use crate::isa::OP_JT;
use crate::isa::OP_JF;
use crate::isa::OP_ADD;
use crate::isa::OP_MULT;
use crate::isa::OP_MOD;
use crate::isa::OP_AND;
use crate::isa::OP_OR;
use crate::isa::OP_NOT;
use crate::isa::OP_RMEM;
use crate::isa::OP_WMEM;
use crate::isa::OP_CALL;
use crate::isa::OP_RET;
use crate::isa::OP_OUT;
use crate::isa::OP_IN;
use crate::isa::OP_NOOP;

verus! {

/// A fatal execution-time condition.  Every fault terminates the run with the
/// machine state unchanged by the faulting instruction.
#[derive(Clone, Copy, Debug, PartialEq, Eq, Structural)]
pub enum Fault {
    /// The program counter, or an operand of the current instruction, lies
    /// beyond the last memory cell.
    PcOutOfRange,
    /// The fetched opcode is not in the instruction table.
    UnknownOpcode(u16),
    /// A destination operand does not denote a register.
    BadDestination(u16),
    /// A value operand is above the largest valid encoding.
    BadOperand(u16),
    /// A resolved memory address is beyond the last memory cell.
    AddressOutOfRange(u16),
    /// POP or RET was executed with an empty stack.
    StackUnderflow,
    /// The divisor of MOD resolved to zero.
    DivideByZero,
    /// The IN opcode; no input stream is attached to this engine.
    InputUnsupported,
}

/// What a single step of the engine reports.
#[derive(Clone, Copy, Debug, PartialEq, Eq, Structural)]
pub enum Outcome {
    /// The instruction completed and the machine may step again.
    Running,
    /// The HALT opcode: normal termination, not an error.
    Halted,
    /// A fatal condition; the machine must not step again.
    Faulted(Fault),
}

/// How a bounded run of the engine ended.
#[derive(Clone, Copy, Debug, PartialEq, Eq, Structural)]
pub enum RunStatus {
    /// The machine executed HALT.
    Halted,
    /// The machine hit a fatal condition.
    Faulted(Fault),
    /// The step budget ran out before the machine halted or faulted.
    OutOfFuel,
}

/// Why a program image was rejected before execution started.
#[derive(Clone, Copy, Debug, PartialEq, Eq, Structural)]
pub enum LoadError {
    /// The image holds more cells than the address space.
    ImageTooLarge,
}

/// The mathematical model of a machine.
#[verifier::ext_equal]
pub struct State {
    /// The flat array of `ADDRESS_SPACE` cells.
    pub memory: Seq<u16>,
    /// The `REGISTER_COUNT` general registers.
    pub registers: Seq<u16>,
    /// The operand stack; the last element is the top.
    pub stack: Seq<u16>,
    /// Index of the next instruction to fetch.
    pub pc: u16,
    /// Every character code emitted so far, in execution order.
    pub output: Seq<u8>,
}

impl State {
    /// The structural invariant: memory and register bank have their fixed
    /// sizes.  Every step preserves it.
    pub open spec fn wf(self) -> bool {
        self.memory.len() == ADDRESS_SPACE && self.registers.len() == REGISTER_COUNT
    }

    /// The raw word at `pc + off`, a fetch of part of the current instruction.
    pub open spec fn word(self, off: int) -> u16
        recommends
            self.pc + off < ADDRESS_SPACE,
    {
        self.memory[self.pc + off]
    }

    /// Resolution of the value operand at `pc + off`.
    pub open spec fn operand(self, off: int) -> u16
        recommends
            self.pc + off < ADDRESS_SPACE,
            valid_operand(self.word(off)),
    {
        resolve_spec(self.word(off), self.registers)
    }
}

/// A step that faults: the state is left exactly as it was.
pub open spec fn faulted(s: State, f: Fault) -> (State, Outcome) {
    (s, Outcome::Faulted(f))
}

/// SET, and every other opcode writing a register, goes through one place.
pub open spec fn store_register(s: State, dest_raw: u16, v: u16, next_pc: int) -> State
    recommends
        valid_dest(dest_raw),
        0 <= next_pc <= ADDRESS_SPACE,
{
    State {
        registers: s.registers.update(dest_raw - REGISTER_BASE, v),
        pc: next_pc as u16,
        ..s
    }
}

/// The binary opcodes (EQ GT ADD MULT MOD AND OR): four words;
/// `registers[dest] = f(value(b), value(c))`.
pub open spec fn step_binary_spec(s: State, op: u16) -> (State, Outcome)
    recommends
        s.wf(),
        s.pc <= MAX_LITERAL,
        s.word(0) == op,
        is_binary_op(op),
{
    if s.pc + 3 > MAX_LITERAL {
        faulted(s, Fault::PcOutOfRange)
    } else if !valid_dest(s.word(1)) {
        faulted(s, Fault::BadDestination(s.word(1)))
    } else if !valid_operand(s.word(2)) {
        faulted(s, Fault::BadOperand(s.word(2)))
    } else if !valid_operand(s.word(3)) {
        faulted(s, Fault::BadOperand(s.word(3)))
    } else if op == OP_MOD && s.operand(3) == 0 {
        faulted(s, Fault::DivideByZero)
    } else {
        (
            store_register(s, s.word(1), binop_spec(op, s.operand(2), s.operand(3)), s.pc + 4),
            Outcome::Running,
        )
    }
}

/// SET: three words; `registers[dest] = value(b)`.
pub open spec fn step_set_spec(s: State) -> (State, Outcome)
    recommends
        s.wf(),
        s.pc <= MAX_LITERAL,
        s.word(0) == OP_SET,
{
    if s.pc + 2 > MAX_LITERAL {
        faulted(s, Fault::PcOutOfRange)
    } else if !valid_dest(s.word(1)) {
        faulted(s, Fault::BadDestination(s.word(1)))
    } else if !valid_operand(s.word(2)) {
        faulted(s, Fault::BadOperand(s.word(2)))
    } else {
        (store_register(s, s.word(1), s.operand(2), s.pc + 3), Outcome::Running)
    }
}

/// NOT: three words; `registers[dest] = !value(b)` masked to 15 bits.
pub open spec fn step_not_spec(s: State) -> (State, Outcome)
    recommends
        s.wf(),
        s.pc <= MAX_LITERAL,
        s.word(0) == OP_NOT,
{
    if s.pc + 2 > MAX_LITERAL {
        faulted(s, Fault::PcOutOfRange)
    } else if !valid_dest(s.word(1)) {
        faulted(s, Fault::BadDestination(s.word(1)))
    } else if !valid_operand(s.word(2)) {
        faulted(s, Fault::BadOperand(s.word(2)))
    } else {
        (store_register(s, s.word(1), not_spec(s.operand(2)), s.pc + 3), Outcome::Running)
    }
}

/// RMEM: three words; `registers[dest] = memory[value(b)]`.
pub open spec fn step_rmem_spec(s: State) -> (State, Outcome)
    recommends
        s.wf(),
        s.pc <= MAX_LITERAL,
        s.word(0) == OP_RMEM,
{
    if s.pc + 2 > MAX_LITERAL {
        faulted(s, Fault::PcOutOfRange)
    } else if !valid_dest(s.word(1)) {
        faulted(s, Fault::BadDestination(s.word(1)))
    } else if !valid_operand(s.word(2)) {
        faulted(s, Fault::BadOperand(s.word(2)))
    } else if s.operand(2) > MAX_LITERAL {
        faulted(s, Fault::AddressOutOfRange(s.operand(2)))
    } else {
        (
            store_register(s, s.word(1), s.memory[s.operand(2) as int], s.pc + 3),
            Outcome::Running,
        )
    }
}

/// WMEM: three words; `memory[value(a)] = value(b)`.
pub open spec fn step_wmem_spec(s: State) -> (State, Outcome)
    recommends
        s.wf(),
        s.pc <= MAX_LITERAL,
        s.word(0) == OP_WMEM,
{
    if s.pc + 2 > MAX_LITERAL {
        faulted(s, Fault::PcOutOfRange)
    } else if !valid_operand(s.word(1)) {
        faulted(s, Fault::BadOperand(s.word(1)))
    } else if !valid_operand(s.word(2)) {
        faulted(s, Fault::BadOperand(s.word(2)))
    } else if s.operand(1) > MAX_LITERAL {
        faulted(s, Fault::AddressOutOfRange(s.operand(1)))
    } else {
        (
            State {
                memory: s.memory.update(s.operand(1) as int, s.operand(2)),
                pc: (s.pc + 3) as u16,
                ..s
            },
            Outcome::Running,
        )
    }
}

/// PUSH: two words; `stack.push(value(a))`.
pub open spec fn step_push_spec(s: State) -> (State, Outcome)
    recommends
        s.wf(),
        s.pc <= MAX_LITERAL,
        s.word(0) == OP_PUSH,
{
    if s.pc + 1 > MAX_LITERAL {
        faulted(s, Fault::PcOutOfRange)
    } else if !valid_operand(s.word(1)) {
        faulted(s, Fault::BadOperand(s.word(1)))
    } else {
        (
            State { stack: s.stack.push(s.operand(1)), pc: (s.pc + 2) as u16, ..s },
            Outcome::Running,
        )
    }
}

/// POP: two words; `registers[dest] = stack.pop()`; fatal on an empty stack.
pub open spec fn step_pop_spec(s: State) -> (State, Outcome)
    recommends
        s.wf(),
        s.pc <= MAX_LITERAL,
        s.word(0) == OP_POP,
{
    if s.pc + 1 > MAX_LITERAL {
        faulted(s, Fault::PcOutOfRange)
    } else if !valid_dest(s.word(1)) {
        faulted(s, Fault::BadDestination(s.word(1)))
    } else if s.stack.len() == 0 {
        faulted(s, Fault::StackUnderflow)
    } else {
        (
            State {
                registers: s.registers.update(s.word(1) - REGISTER_BASE, s.stack.last()),
                stack: s.stack.drop_last(),
                pc: (s.pc + 2) as u16,
                ..s
            },
            Outcome::Running,
        )
    }
}

/// JMP: two words; `pc := value(a)`.  A target beyond the address space is
/// caught by the next fetch, exactly as for CALL and RET.
pub open spec fn step_jmp_spec(s: State) -> (State, Outcome)
    recommends
        s.wf(),
        s.pc <= MAX_LITERAL,
        s.word(0) == OP_JMP,
{
    if s.pc + 1 > MAX_LITERAL {
        faulted(s, Fault::PcOutOfRange)
    } else if !valid_operand(s.word(1)) {
        faulted(s, Fault::BadOperand(s.word(1)))
    } else {
        (State { pc: s.operand(1), ..s }, Outcome::Running)
    }
}

/// JT and JF: three words; jump to `value(b)` when `value(a)` is non-zero
/// (JT) or zero (JF), else fall through.  The target operand is read as a
/// value only when the branch is taken, so a fall-through never resolves it.
pub open spec fn step_branch_spec(s: State, op: u16) -> (State, Outcome)
    recommends
        s.wf(),
        s.pc <= MAX_LITERAL,
        s.word(0) == op,
        op == OP_JT || op == OP_JF,
{
    if s.pc + 2 > MAX_LITERAL {
        faulted(s, Fault::PcOutOfRange)
    } else if !valid_operand(s.word(1)) {
        faulted(s, Fault::BadOperand(s.word(1)))
    } else {
        let taken = if op == OP_JT {
            s.operand(1) != 0
        } else {
            s.operand(1) == 0
        };
        if !taken {
            (State { pc: (s.pc + 3) as u16, ..s }, Outcome::Running)
        } else if !valid_operand(s.word(2)) {
            faulted(s, Fault::BadOperand(s.word(2)))
        } else {
            (State { pc: s.operand(2), ..s }, Outcome::Running)
        }
    }
}

/// CALL: two words; push the address of the next instruction, jump to
/// `value(a)`.
pub open spec fn step_call_spec(s: State) -> (State, Outcome)
    recommends
        s.wf(),
        s.pc <= MAX_LITERAL,
        s.word(0) == OP_CALL,
{
    if s.pc + 1 > MAX_LITERAL {
        faulted(s, Fault::PcOutOfRange)
    } else if !valid_operand(s.word(1)) {
        faulted(s, Fault::BadOperand(s.word(1)))
    } else {
        (
            State { stack: s.stack.push((s.pc + 2) as u16), pc: s.operand(1), ..s },
            Outcome::Running,
        )
    }
}

/// RET: one word; pop the return address into the program counter; fatal on
/// an empty stack.
pub open spec fn step_ret_spec(s: State) -> (State, Outcome)
    recommends
        s.wf(),
        s.pc <= MAX_LITERAL,
        s.word(0) == OP_RET,
{
    if s.stack.len() == 0 {
        faulted(s, Fault::StackUnderflow)
    } else {
        (State { stack: s.stack.drop_last(), pc: s.stack.last(), ..s }, Outcome::Running)
    }
}

/// OUT: two words; emit the low byte of `value(a)`.
pub open spec fn step_out_spec(s: State) -> (State, Outcome)
    recommends
        s.wf(),
        s.pc <= MAX_LITERAL,
        s.word(0) == OP_OUT,
{
    if s.pc + 1 > MAX_LITERAL {
        faulted(s, Fault::PcOutOfRange)
    } else if !valid_operand(s.word(1)) {
        faulted(s, Fault::BadOperand(s.word(1)))
    } else {
        (
            State { output: s.output.push(out_byte(s.operand(1))), pc: (s.pc + 2) as u16, ..s },
            Outcome::Running,
        )
    }
}

/// One step of the engine, as a total function on states: fetch the opcode at
/// the program counter, decode, and execute.  On a fault the state is
/// returned unchanged.
pub open spec fn step_spec(s: State) -> (State, Outcome)
    recommends
        s.wf(),
{
    if s.pc > MAX_LITERAL {
        faulted(s, Fault::PcOutOfRange)
    } else {
        let op = s.word(0);
        if op == OP_HALT {
            (s, Outcome::Halted)
        } else if op == OP_NOOP {
            (State { pc: (s.pc + 1) as u16, ..s }, Outcome::Running)
        } else if is_binary_op(op) {
            step_binary_spec(s, op)
        } else if op == OP_SET {
            step_set_spec(s)
        } else if op == OP_NOT {
            step_not_spec(s)
        } else if op == OP_RMEM {
            step_rmem_spec(s)
        } else if op == OP_WMEM {
            step_wmem_spec(s)
        } else if op == OP_PUSH {
            step_push_spec(s)
        } else if op == OP_POP {
            step_pop_spec(s)
        } else if op == OP_JMP {
            step_jmp_spec(s)
        } else if op == OP_JT || op == OP_JF {
            step_branch_spec(s, op)
        } else if op == OP_CALL {
            step_call_spec(s)
        } else if op == OP_RET {
            step_ret_spec(s)
        } else if op == OP_OUT {
            step_out_spec(s)
        } else if op == OP_IN {
            faulted(s, Fault::InputUnsupported)
        } else {
            faulted(s, Fault::UnknownOpcode(op))
        }
    }
}

/// The executable machine.  Its view is the `State` it models.
pub struct Machine {
    pub memory: Vec<u16>,
    pub registers: Vec<u16>,
    pub stack: Vec<u16>,
    pub pc: u16,
    pub output: Vec<u8>,
}

impl View for Machine {
    type V = State;

    open spec fn view(&self) -> State {
        State {
            memory: self.memory@,
            registers: self.registers@,
            stack: self.stack@,
            pc: self.pc,
            output: self.output@,
        }
    }
}

impl Machine {
    /// The binary opcodes, executed: four words, result into a register.
    fn step_binary(&mut self, op: u16) -> (r: Outcome)
        requires
            old(self)@.wf(),
            old(self).pc <= MAX_LITERAL,
            old(self)@.word(0) == op,
            is_binary_op(op),
        ensures
            final(self)@ == step_binary_spec(old(self)@, op).0,
            r == step_binary_spec(old(self)@, op).1,
    {
        let pc = self.pc;
        if pc + 3 > MAX_LITERAL {
            return Outcome::Faulted(Fault::PcOutOfRange);
        }
        let dest_raw = self.memory[(pc + 1) as usize];
        if dest_raw < REGISTER_BASE || dest_raw > MAX_OPERAND {
            return Outcome::Faulted(Fault::BadDestination(dest_raw));
        }
        let b_raw = self.memory[(pc + 2) as usize];
        if b_raw > MAX_OPERAND {
            return Outcome::Faulted(Fault::BadOperand(b_raw));
        }
        let c_raw = self.memory[(pc + 3) as usize];
        if c_raw > MAX_OPERAND {
            return Outcome::Faulted(Fault::BadOperand(c_raw));
        }
        let b = get_value(b_raw, self.registers.as_slice());
        let c = get_value(c_raw, self.registers.as_slice());
        if op == OP_MOD && c == 0 {
            return Outcome::Faulted(Fault::DivideByZero);
        }
        let v = apply_binary_op(op, b, c);
        self.registers.set((dest_raw - REGISTER_BASE) as usize, v);
        self.pc = pc + 4;
        Outcome::Running
    }

    /// SET, NOT and RMEM, executed: three words, result into a register.
    fn step_reg_write(&mut self, op: u16) -> (r: Outcome)
        requires
            old(self)@.wf(),
            old(self).pc <= MAX_LITERAL,
            old(self)@.word(0) == op,
            op == OP_SET || op == OP_NOT || op == OP_RMEM,
        ensures
            op == OP_SET ==> final(self)@ == step_set_spec(old(self)@).0 && r == step_set_spec(
                old(self)@,
            ).1,
            op == OP_NOT ==> final(self)@ == step_not_spec(old(self)@).0 && r == step_not_spec(
                old(self)@,
            ).1,
            op == OP_RMEM ==> final(self)@ == step_rmem_spec(old(self)@).0 && r == step_rmem_spec(
                old(self)@,
            ).1,
    {
        let pc = self.pc;
        if pc + 2 > MAX_LITERAL {
            return Outcome::Faulted(Fault::PcOutOfRange);
        }
        let dest_raw = self.memory[(pc + 1) as usize];
        if dest_raw < REGISTER_BASE || dest_raw > MAX_OPERAND {
            return Outcome::Faulted(Fault::BadDestination(dest_raw));
        }
        let b_raw = self.memory[(pc + 2) as usize];
        if b_raw > MAX_OPERAND {
            return Outcome::Faulted(Fault::BadOperand(b_raw));
        }
        let b = get_value(b_raw, self.registers.as_slice());
        let v: u16;
        if op == OP_SET {
            v = b;
        } else if op == OP_NOT {
            v = !b & MAX_LITERAL;
        } else {
            if b > MAX_LITERAL {
                return Outcome::Faulted(Fault::AddressOutOfRange(b));
            }
            v = self.memory[b as usize];
        }
        self.registers.set((dest_raw - REGISTER_BASE) as usize, v);
        self.pc = pc + 3;
        Outcome::Running
    }

    /// WMEM, executed: three words, a store into memory.
    fn step_wmem(&mut self) -> (r: Outcome)
        requires
            old(self)@.wf(),
            old(self).pc <= MAX_LITERAL,
            old(self)@.word(0) == OP_WMEM,
        ensures
            final(self)@ == step_wmem_spec(old(self)@).0,
            r == step_wmem_spec(old(self)@).1,
    {
        let pc = self.pc;
        if pc + 2 > MAX_LITERAL {
            return Outcome::Faulted(Fault::PcOutOfRange);
        }
        let a_raw = self.memory[(pc + 1) as usize];
        if a_raw > MAX_OPERAND {
            return Outcome::Faulted(Fault::BadOperand(a_raw));
        }
        let b_raw = self.memory[(pc + 2) as usize];
        if b_raw > MAX_OPERAND {
            return Outcome::Faulted(Fault::BadOperand(b_raw));
        }
        let addr = get_value(a_raw, self.registers.as_slice());
        if addr > MAX_LITERAL {
            return Outcome::Faulted(Fault::AddressOutOfRange(addr));
        }
        let v = get_value(b_raw, self.registers.as_slice());
        self.memory.set(addr as usize, v);
        self.pc = pc + 3;
        Outcome::Running
    }

    /// PUSH, executed: two words, a value onto the stack.
    fn step_push(&mut self) -> (r: Outcome)
        requires
            old(self)@.wf(),
            old(self).pc <= MAX_LITERAL,
            old(self)@.word(0) == OP_PUSH,
        ensures
            final(self)@ == step_push_spec(old(self)@).0,
            r == step_push_spec(old(self)@).1,
    {
        let pc = self.pc;
        if pc + 1 > MAX_LITERAL {
            return Outcome::Faulted(Fault::PcOutOfRange);
        }
        let a_raw = self.memory[(pc + 1) as usize];
        if a_raw > MAX_OPERAND {
            return Outcome::Faulted(Fault::BadOperand(a_raw));
        }
        let v = get_value(a_raw, self.registers.as_slice());
        self.stack.push(v);
        self.pc = pc + 2;
        Outcome::Running
    }

    /// POP, executed: two words, the stack top into a register.
    fn step_pop(&mut self) -> (r: Outcome)
        requires
            old(self)@.wf(),
            old(self).pc <= MAX_LITERAL,
            old(self)@.word(0) == OP_POP,
        ensures
            final(self)@ == step_pop_spec(old(self)@).0,
            r == step_pop_spec(old(self)@).1,
    {
        let pc = self.pc;
        if pc + 1 > MAX_LITERAL {
            return Outcome::Faulted(Fault::PcOutOfRange);
        }
        let dest_raw = self.memory[(pc + 1) as usize];
        if dest_raw < REGISTER_BASE || dest_raw > MAX_OPERAND {
            return Outcome::Faulted(Fault::BadDestination(dest_raw));
        }
        if self.stack.len() == 0 {
            return Outcome::Faulted(Fault::StackUnderflow);
        }
        let v = self.stack.pop().unwrap();
        self.registers.set((dest_raw - REGISTER_BASE) as usize, v);
        self.pc = pc + 2;
        Outcome::Running
    }

    /// JMP, executed: two words, an unconditional transfer.
    fn step_jmp(&mut self) -> (r: Outcome)
        requires
            old(self)@.wf(),
            old(self).pc <= MAX_LITERAL,
            old(self)@.word(0) == OP_JMP,
        ensures
            final(self)@ == step_jmp_spec(old(self)@).0,
            r == step_jmp_spec(old(self)@).1,
    {
        let pc = self.pc;
        if pc + 1 > MAX_LITERAL {
            return Outcome::Faulted(Fault::PcOutOfRange);
        }
        let a_raw = self.memory[(pc + 1) as usize];
        if a_raw > MAX_OPERAND {
            return Outcome::Faulted(Fault::BadOperand(a_raw));
        }
        self.pc = get_value(a_raw, self.registers.as_slice());
        Outcome::Running
    }

    /// JT and JF, executed: three words, a conditional transfer.
    fn step_branch(&mut self, op: u16) -> (r: Outcome)
        requires
            old(self)@.wf(),
            old(self).pc <= MAX_LITERAL,
            old(self)@.word(0) == op,
            op == OP_JT || op == OP_JF,
        ensures
            final(self)@ == step_branch_spec(old(self)@, op).0,
            r == step_branch_spec(old(self)@, op).1,
    {
        let pc = self.pc;
        if pc + 2 > MAX_LITERAL {
            return Outcome::Faulted(Fault::PcOutOfRange);
        }
        let a_raw = self.memory[(pc + 1) as usize];
        if a_raw > MAX_OPERAND {
            return Outcome::Faulted(Fault::BadOperand(a_raw));
        }
        let a = get_value(a_raw, self.registers.as_slice());
        let taken = if op == OP_JT {
            a != 0
        } else {
            a == 0
        };
        if !taken {
            self.pc = pc + 3;
            return Outcome::Running;
        }
        let b_raw = self.memory[(pc + 2) as usize];
        if b_raw > MAX_OPERAND {
            return Outcome::Faulted(Fault::BadOperand(b_raw));
        }
        self.pc = get_value(b_raw, self.registers.as_slice());
        Outcome::Running
    }

    /// CALL, executed: push the return address, then transfer.
    fn step_call(&mut self) -> (r: Outcome)
        requires
            old(self)@.wf(),
            old(self).pc <= MAX_LITERAL,
            old(self)@.word(0) == OP_CALL,
        ensures
            final(self)@ == step_call_spec(old(self)@).0,
            r == step_call_spec(old(self)@).1,
    {
        let pc = self.pc;
        if pc + 1 > MAX_LITERAL {
            return Outcome::Faulted(Fault::PcOutOfRange);
        }
        let a_raw = self.memory[(pc + 1) as usize];
        if a_raw > MAX_OPERAND {
            return Outcome::Faulted(Fault::BadOperand(a_raw));
        }
        self.stack.push(pc + 2);
        self.pc = get_value(a_raw, self.registers.as_slice());
        Outcome::Running
    }

    /// RET, executed: pop the return address into the program counter.
    fn step_ret(&mut self) -> (r: Outcome)
        requires
            old(self)@.wf(),
            old(self).pc <= MAX_LITERAL,
            old(self)@.word(0) == OP_RET,
        ensures
            final(self)@ == step_ret_spec(old(self)@).0,
            r == step_ret_spec(old(self)@).1,
    {
        if self.stack.len() == 0 {
            return Outcome::Faulted(Fault::StackUnderflow);
        }
        self.pc = self.stack.pop().unwrap();
        Outcome::Running
    }

    /// OUT, executed: append one character code to the output.
    fn step_out(&mut self) -> (r: Outcome)
        requires
            old(self)@.wf(),
            old(self).pc <= MAX_LITERAL,
            old(self)@.word(0) == OP_OUT,
        ensures
            final(self)@ == step_out_spec(old(self)@).0,
            r == step_out_spec(old(self)@).1,
    {
        let pc = self.pc;
        if pc + 1 > MAX_LITERAL {
            return Outcome::Faulted(Fault::PcOutOfRange);
        }
        let a_raw = self.memory[(pc + 1) as usize];
        if a_raw > MAX_OPERAND {
            return Outcome::Faulted(Fault::BadOperand(a_raw));
        }
        let v = get_value(a_raw, self.registers.as_slice());
        self.output.push((v % 256) as u8);
        self.pc = pc + 2;
        Outcome::Running
    }

    /// One fetch-decode-execute cycle, proved to agree with `step_spec` on
    /// every well-formed state: same next state, same outcome.
    pub fn step(&mut self) -> (r: Outcome)
        requires
            old(self)@.wf(),
        ensures
            final(self)@.wf(),
            final(self)@ == step_spec(old(self)@).0,
            r == step_spec(old(self)@).1,
    {
        if self.pc > MAX_LITERAL {
            return Outcome::Faulted(Fault::PcOutOfRange);
        }
        let op = self.memory[self.pc as usize];
        if op == OP_HALT {
            Outcome::Halted
        } else if op == OP_NOOP {
            self.pc = self.pc + 1;
            Outcome::Running
        } else if op == OP_EQ || op == OP_GT || op == OP_ADD || op == OP_MULT || op == OP_MOD
            || op == OP_AND || op == OP_OR {
            self.step_binary(op)
        } else if op == OP_SET || op == OP_NOT || op == OP_RMEM {
            self.step_reg_write(op)
        } else if op == OP_WMEM {
            self.step_wmem()
        } else if op == OP_PUSH {
            self.step_push()
        } else if op == OP_POP {
            self.step_pop()
        } else if op == OP_JMP {
            self.step_jmp()
        } else if op == OP_JT || op == OP_JF {
            self.step_branch(op)
        } else if op == OP_CALL {
            self.step_call()
        } else if op == OP_RET {
            self.step_ret()
        } else if op == OP_OUT {
            self.step_out()
        } else if op == OP_IN {
            Outcome::Faulted(Fault::InputUnsupported)
        } else {
            Outcome::Faulted(Fault::UnknownOpcode(op))
        }
    }

    /// Step at most `fuel` times, stopping early on halt or fault; proved to
    /// agree with `run_spec`.
    pub fn run(&mut self, fuel: u64) -> (r: RunStatus)
        requires
            old(self)@.wf(),
        ensures
            final(self)@.wf(),
            final(self)@ == run_spec(old(self)@, fuel as nat).0,
            r == run_spec(old(self)@, fuel as nat).1,
    {
        let mut remaining: u64 = fuel;
        loop
            invariant
                self@.wf(),
                remaining <= fuel,
                run_spec(old(self)@, fuel as nat) == run_spec(self@, remaining as nat),
            decreases remaining,
        {
            if remaining == 0 {
                return RunStatus::OutOfFuel;
            }
            let o = self.step();
            remaining = remaining - 1;
            match o {
                Outcome::Running => {},
                Outcome::Halted => {
                    return RunStatus::Halted;
                },
                Outcome::Faulted(f) => {
                    return RunStatus::Faulted(f);
                },
            }
        }
    }

    /// Build the machine a program image describes: bytes paired into
    /// little-endian cells from address 0, the rest of memory zero, registers
    /// zero, stack empty, program counter 0.  A trailing odd byte is
    /// discarded.  An image of more cells than the address space is rejected
    /// before any machine exists.
    pub fn from_image(bytes: &Vec<u8>) -> (r: Result<Machine, LoadError>)
        ensures
            r is Ok <==> bytes@.len() / 2 <= ADDRESS_SPACE,
            r matches Ok(m) ==> m@ == initial_state(bytes@) && m@.wf(),
            r matches Err(e) ==> e == LoadError::ImageTooLarge,
    {
        let cells = bytes.len() / 2;
        if cells > ADDRESS_SPACE {
            return Err(LoadError::ImageTooLarge);
        }
        let mut memory: Vec<u16> = Vec::new();
        let mut i: usize = 0;
        while i < ADDRESS_SPACE
            invariant
                i <= ADDRESS_SPACE,
                memory@.len() == i,
                forall|k: int| 0 <= k < i ==> memory@[k] == 0u16,
            decreases ADDRESS_SPACE - i,
        {
            memory.push(0);
            i = i + 1;
        }
        let mut j: usize = 0;
        while j < cells
            invariant
                j <= cells,
                cells == bytes@.len() / 2,
                cells <= ADDRESS_SPACE,
                memory@.len() == ADDRESS_SPACE,
                forall|k: int| 0 <= k < j ==> memory@[k] == image_cell(bytes@, k),
                forall|k: int| j <= k < ADDRESS_SPACE ==> memory@[k] == 0u16,
            decreases cells - j,
        {
            let low = bytes[2 * j];
            let high = bytes[2 * j + 1];
            memory.set(j, low as u16 + 256 * (high as u16));
            j = j + 1;
        }
        let mut registers: Vec<u16> = Vec::new();
        let mut k: usize = 0;
        while k < REGISTER_COUNT
            invariant
                k <= REGISTER_COUNT,
                registers@.len() == k,
                forall|n: int| 0 <= n < k ==> registers@[n] == 0u16,
            decreases REGISTER_COUNT - k,
        {
            registers.push(0);
            k = k + 1;
        }
        let m = Machine { memory, registers, stack: Vec::new(), pc: 0, output: Vec::new() };
        proof {
            assert(m@.memory =~= initial_state(bytes@).memory);
            assert(m@.registers =~= initial_state(bytes@).registers);
            assert(m@.stack =~= initial_state(bytes@).stack);
            assert(m@.output =~= initial_state(bytes@).output);
            assert(m@ =~= initial_state(bytes@));
        }
        Ok(m)
    }
}

/// Iterated stepping with a step budget: the state and status after at most
/// `fuel` steps of `step_spec`.
pub open spec fn run_spec(s: State, fuel: nat) -> (State, RunStatus)
    recommends
        s.wf(),
    decreases fuel,
{
    if fuel == 0 {
        (s, RunStatus::OutOfFuel)
    } else {
        let stepped = step_spec(s);
        match stepped.1 {
            Outcome::Halted => (stepped.0, RunStatus::Halted),
            Outcome::Faulted(f) => (stepped.0, RunStatus::Faulted(f)),
            Outcome::Running => run_spec(stepped.0, (fuel - 1) as nat),
        }
    }
}

/// The cell at index `i` of a decoded image: low byte first.
pub open spec fn image_cell(bytes: Seq<u8>, i: int) -> u16
    recommends
        0 <= i,
        2 * i + 1 < bytes.len(),
{
    (bytes[2 * i] + 256 * bytes[2 * i + 1]) as u16
}

/// The memory a program image loads to: its cells from address 0, zero
/// beyond.
pub open spec fn initial_memory(bytes: Seq<u8>) -> Seq<u16> {
    Seq::new(
        ADDRESS_SPACE as nat,
        |i: int|
            if i < bytes.len() / 2 {
                image_cell(bytes, i)
            } else {
                0u16
            },
    )
}

/// The machine state at the start of a run of a program image.
pub open spec fn initial_state(bytes: Seq<u8>) -> State {
    State {
        memory: initial_memory(bytes),
        registers: Seq::new(REGISTER_COUNT as nat, |i: int| 0u16),
        stack: Seq::empty(),
        pc: 0,
        output: Seq::empty(),
    }
}

} // verus!
