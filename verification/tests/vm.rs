use synacor_vm::isa::apply_binary_op;
use synacor_vm::isa::get_value;
use synacor_vm::machine::Fault;
use synacor_vm::machine::Machine;
use synacor_vm::machine::Outcome;
use synacor_vm::machine::RunStatus;

fn vm_with_cells(cells: &[u16]) -> Machine {
    let mut memory = vec![0u16; 32768];
    for (i, &c) in cells.iter().enumerate() {
        memory[i] = c;
    }
    Machine { memory, registers: vec![0u16; 8], stack: Vec::new(), pc: 0, output: Vec::new() }
}

#[test]
fn halt_is_normal_termination() {
    let mut m = vm_with_cells(&[0]);
    assert_eq!(m.step(), Outcome::Halted);
    assert_eq!(m.pc, 0);
    assert!(m.output.is_empty());
}

#[test]
fn resolve_literals_ignore_registers() {
    let mut regs = vec![0u16; 8];
    for r in regs.iter_mut() {
        *r = 9999;
    }
    assert_eq!(get_value(0, &regs), 0);
    assert_eq!(get_value(5, &regs), 5);
    assert_eq!(get_value(32767, &regs), 32767);
}

#[test]
fn resolve_register_reads_contents() {
    let mut regs = vec![0u16; 8];
    regs[0] = 11;
    regs[3] = 77;
    regs[7] = 32767;
    assert_eq!(get_value(32768, &regs), 11);
    assert_eq!(get_value(32771, &regs), 77);
    assert_eq!(get_value(32775, &regs), 32767);
}

#[test]
fn add_wraps_modulo_value_space() {
    assert_eq!(apply_binary_op(9, 32767, 1), 0);
    assert_eq!(apply_binary_op(9, 1, 32767), 0);
    assert_eq!(apply_binary_op(9, 2, 3), 5);
}

#[test]
fn mult_wraps_modulo_value_space() {
    assert_eq!(apply_binary_op(10, 200, 200), 7232);
    assert_eq!(apply_binary_op(10, 3, 4), 12);
    assert_eq!(apply_binary_op(10, 200, 200), apply_binary_op(10, 200, 200));
}

#[test]
fn mod_takes_remainder() {
    assert_eq!(apply_binary_op(11, 17, 5), 2);
    assert_eq!(apply_binary_op(11, 4, 7), 4);
}

#[test]
fn and_or_are_bitwise() {
    assert_eq!(apply_binary_op(12, 12, 10), 8);
    assert_eq!(apply_binary_op(13, 12, 10), 14);
}

#[test]
fn eq_gt_produce_only_flags() {
    assert_eq!(apply_binary_op(4, 7, 7), 1);
    assert_eq!(apply_binary_op(4, 7, 8), 0);
    assert_eq!(apply_binary_op(5, 9, 3), 1);
    assert_eq!(apply_binary_op(5, 3, 9), 0);
    assert_eq!(apply_binary_op(5, 3, 3), 0);
}

#[test]
fn not_is_an_involution() {
    // NOT r0, 42; NOT r1, r0; HALT
    let mut m = vm_with_cells(&[14, 32768, 42, 14, 32769, 32768, 0]);
    assert_eq!(m.run(10), RunStatus::Halted);
    assert_eq!(m.registers[0], !42u16 & 32767);
    assert_eq!(m.registers[1], 42);
}

#[test]
fn set_writes_literal_and_register_value() {
    // SET r0, 123; SET r1, r0; HALT
    let mut m = vm_with_cells(&[1, 32768, 123, 1, 32769, 32768, 0]);
    assert_eq!(m.run(10), RunStatus::Halted);
    assert_eq!(m.registers[0], 123);
    assert_eq!(m.registers[1], 123);
}

#[test]
fn push_pop_move_a_value() {
    // PUSH 5; POP r0; HALT
    let mut m = vm_with_cells(&[2, 5, 3, 32768, 0]);
    assert_eq!(m.run(10), RunStatus::Halted);
    assert_eq!(m.registers[0], 5);
    assert!(m.stack.is_empty());
}

#[test]
fn pop_on_empty_stack_faults_without_mutation() {
    // POP r0 with nothing pushed
    let mut m = vm_with_cells(&[3, 32768]);
    assert_eq!(m.step(), Outcome::Faulted(Fault::StackUnderflow));
    assert_eq!(m.pc, 0);
    assert!(m.registers.iter().all(|&r| r == 0));
    assert!(m.stack.is_empty());
}

#[test]
fn ret_on_empty_stack_faults_without_mutation() {
    let mut m = vm_with_cells(&[18]);
    assert_eq!(m.step(), Outcome::Faulted(Fault::StackUnderflow));
    assert_eq!(m.pc, 0);
    assert!(m.stack.is_empty());
}

#[test]
fn call_ret_resume_after_the_call() {
    // CALL 4; HALT; (pad); OUT 65; RET  -- returns to address 2
    let mut m = vm_with_cells(&[17, 4, 0, 0, 19, 65, 18]);
    assert_eq!(m.step(), Outcome::Running);
    assert_eq!(m.pc, 4);
    assert_eq!(m.stack, vec![2]);
    assert_eq!(m.run(10), RunStatus::Halted);
    assert_eq!(m.output, b"A".to_vec());
    assert!(m.stack.is_empty());
}

#[test]
fn jmp_is_unconditional() {
    // JMP 3; HALT; OUT 33; HALT
    let mut m = vm_with_cells(&[6, 3, 0, 19, 33, 0]);
    assert_eq!(m.step(), Outcome::Running);
    assert_eq!(m.pc, 3);
}

#[test]
fn jt_jf_taken_when_condition_holds() {
    // JT 1, 5; HALT; (pad); JF 0, 9; (pad); OUT 88; HALT
    let mut m = vm_with_cells(&[7, 1, 5, 0, 0, 8, 0, 9, 0, 19, 88, 0]);
    assert_eq!(m.step(), Outcome::Running);
    assert_eq!(m.pc, 5);
    assert_eq!(m.step(), Outcome::Running);
    assert_eq!(m.pc, 9);
    assert_eq!(m.run(10), RunStatus::Halted);
    assert_eq!(m.output, b"X".to_vec());
}

#[test]
fn jt_jf_fall_through_otherwise() {
    // JT 0, 100; JF 5, 100; HALT
    let mut m = vm_with_cells(&[7, 0, 100, 8, 5, 100, 0]);
    assert_eq!(m.step(), Outcome::Running);
    assert_eq!(m.pc, 3);
    assert_eq!(m.step(), Outcome::Running);
    assert_eq!(m.pc, 6);
    assert_eq!(m.step(), Outcome::Halted);
}

#[test]
fn branch_target_is_resolved_only_when_taken() {
    // JT 0, 40000; JF 5, 40000; HALT -- neither branch is taken, so the
    // invalid target encodings are never read as values
    let mut m = vm_with_cells(&[7, 0, 40000, 8, 5, 40000, 0]);
    assert_eq!(m.run(10), RunStatus::Halted);
    // JT 1, 40000 -- taken, so the target must be a valid encoding
    let mut m = vm_with_cells(&[7, 1, 40000]);
    assert_eq!(m.step(), Outcome::Faulted(Fault::BadOperand(40000)));
}

#[test]
fn rmem_reads_through_a_resolved_address() {
    // RMEM r0, [6]; HALT; ...; cell 6 holds 999
    let mut m = vm_with_cells(&[15, 32768, 6, 0, 0, 0, 999]);
    assert_eq!(m.run(10), RunStatus::Halted);
    assert_eq!(m.registers[0], 999);
}

#[test]
fn wmem_writes_through_a_resolved_address() {
    // WMEM [6], 42; HALT
    let mut m = vm_with_cells(&[16, 6, 42, 0]);
    assert_eq!(m.run(10), RunStatus::Halted);
    assert_eq!(m.memory[6], 42);
}

#[test]
fn wmem_to_next_pc_is_seen_by_the_next_fetch() {
    // WMEM [3], 19 turns the upcoming HALT into OUT 33
    let mut m = vm_with_cells(&[16, 3, 19, 0, 33, 0]);
    assert_eq!(m.step(), Outcome::Running);
    assert_eq!(m.memory[3], 19);
    assert_eq!(m.pc, 3);
    assert_eq!(m.run(10), RunStatus::Halted);
    assert_eq!(m.output, b"!".to_vec());
}

#[test]
fn out_emits_the_low_byte() {
    // OUT 328; HALT -- 328 mod 256 == 72 == 'H'
    let mut m = vm_with_cells(&[19, 328, 0]);
    assert_eq!(m.run(10), RunStatus::Halted);
    assert_eq!(m.output, b"H".to_vec());
}

#[test]
fn noop_only_advances() {
    let mut m = vm_with_cells(&[21, 0]);
    assert_eq!(m.step(), Outcome::Running);
    assert_eq!(m.pc, 1);
    assert_eq!(m.step(), Outcome::Halted);
}

#[test]
fn unknown_opcode_faults() {
    let mut m = vm_with_cells(&[22]);
    assert_eq!(m.step(), Outcome::Faulted(Fault::UnknownOpcode(22)));
}

#[test]
fn in_opcode_faults_as_unsupported() {
    let mut m = vm_with_cells(&[20, 32768]);
    assert_eq!(m.step(), Outcome::Faulted(Fault::InputUnsupported));
}

#[test]
fn literal_destination_faults() {
    // SET with a literal where a register is required
    let mut m = vm_with_cells(&[1, 5, 0]);
    assert_eq!(m.step(), Outcome::Faulted(Fault::BadDestination(5)));
    assert_eq!(m.pc, 0);
}

#[test]
fn invalid_operand_encoding_faults() {
    // PUSH with a raw operand above the register range
    let mut m = vm_with_cells(&[2, 32776]);
    assert_eq!(m.step(), Outcome::Faulted(Fault::BadOperand(32776)));
    assert!(m.stack.is_empty());
}

#[test]
fn mod_by_zero_faults() {
    // MOD r0, 5, 0
    let mut m = vm_with_cells(&[11, 32768, 5, 0]);
    assert_eq!(m.step(), Outcome::Faulted(Fault::DivideByZero));
    assert_eq!(m.registers[0], 0);
}

#[test]
fn resolved_address_beyond_memory_faults() {
    // RMEM r1, [r0] with r0 holding a value past the last cell
    let mut m = vm_with_cells(&[15, 32769, 32768]);
    m.registers[0] = 40000;
    assert_eq!(m.step(), Outcome::Faulted(Fault::AddressOutOfRange(40000)));
}

#[test]
fn pc_beyond_memory_faults() {
    let mut m = vm_with_cells(&[0]);
    m.pc = 40000;
    assert_eq!(m.step(), Outcome::Faulted(Fault::PcOutOfRange));
}

#[test]
fn instruction_straddling_end_of_memory_faults() {
    // CALL at the last cell has no room for its operand
    let mut m = vm_with_cells(&[0]);
    m.memory[32767] = 17;
    m.pc = 32767;
    assert_eq!(m.step(), Outcome::Faulted(Fault::PcOutOfRange));
}

#[test]
fn run_reports_out_of_fuel() {
    // NOOP; JMP 0 -- loops forever
    let mut m = vm_with_cells(&[21, 6, 0]);
    assert_eq!(m.run(100), RunStatus::OutOfFuel);
}
