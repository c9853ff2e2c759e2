use synacor_vm::machine::LoadError;
use synacor_vm::machine::Machine;
use synacor_vm::machine::RunStatus;

fn image_bytes(cells: &[u16]) -> Vec<u8> {
    let mut bytes = Vec::new();
    for &c in cells {
        bytes.push((c % 256) as u8);
        bytes.push((c / 256) as u8);
    }
    bytes
}

#[test]
fn image_prints_hi_and_halts() {
    // OUT 72; OUT 105; HALT
    let bytes = image_bytes(&[19, 72, 19, 105, 0]);
    let mut m = Machine::from_image(&bytes).unwrap();
    assert_eq!(m.run(100), RunStatus::Halted);
    assert_eq!(m.output, b"Hi".to_vec());
}

#[test]
fn literal_jump_bypasses_intervening_halt() {
    // JMP 3; HALT; OUT 33; HALT -- the jump target skips over the halt
    let bytes = image_bytes(&[6, 3, 0, 19, 33, 0]);
    let mut m = Machine::from_image(&bytes).unwrap();
    assert_eq!(m.run(100), RunStatus::Halted);
    assert_eq!(m.output, b"!".to_vec());
}

#[test]
fn empty_image_is_all_zero_and_halts_at_once() {
    let bytes: Vec<u8> = Vec::new();
    let mut m = Machine::from_image(&bytes).unwrap();
    assert_eq!(m.memory.len(), 32768);
    assert!(m.memory.iter().all(|&c| c == 0));
    assert!(m.registers.iter().all(|&r| r == 0));
    assert_eq!(m.pc, 0);
    assert_eq!(m.run(100), RunStatus::Halted);
    assert_eq!(m.pc, 0);
    assert!(m.output.is_empty());
}

#[test]
fn cells_decode_little_endian() {
    let m = Machine::from_image(&vec![0x34, 0x12, 0xff, 0x7f]).unwrap();
    assert_eq!(m.memory[0], 0x1234);
    assert_eq!(m.memory[1], 0x7fff);
    assert_eq!(m.memory[2], 0);
}

#[test]
fn odd_trailing_byte_is_discarded() {
    let m = Machine::from_image(&vec![21, 0, 7]).unwrap();
    assert_eq!(m.memory[0], 21);
    assert_eq!(m.memory[1], 0);
}

#[test]
fn full_size_image_loads() {
    let bytes = vec![0u8; 65536];
    assert!(Machine::from_image(&bytes).is_ok());
    // a trailing odd byte past the full address space is still discarded
    let bytes = vec![0u8; 65537];
    assert!(Machine::from_image(&bytes).is_ok());
}

#[test]
fn oversized_image_is_rejected() {
    let bytes = vec![0u8; 65538];
    assert!(matches!(Machine::from_image(&bytes), Err(LoadError::ImageTooLarge)));
}
