use chip8::{Chip8, LoadError};

#[test]
fn load_copies_program_to_0x200() {
    let mut chip = Chip8::new();
    assert_eq!(chip.load(&[1, 2, 3, 4]), Ok(()));
    let memory = chip.memory();
    assert_eq!(memory[0x1FF], 0);
    assert_eq!(&memory[0x200..0x205], &[1, 2, 3, 4, 0]);
    assert_eq!(&memory[0..5], &[0xF0, 0x90, 0x90, 0x90, 0xF0]);
}

#[test]
fn load_of_empty_program_changes_nothing() {
    let mut chip = Chip8::new();
    assert_eq!(chip.load(&[]), Ok(()));
    assert_eq!(chip.memory(), Chip8::new().memory());
}

#[test]
fn load_accepts_the_largest_program() {
    let program = vec![0xAB; 3584];
    let mut chip = Chip8::new();
    assert_eq!(chip.load(&program), Ok(()));
    let memory = chip.memory();
    assert_eq!(memory[0x200], 0xAB);
    assert_eq!(memory[0xFFF], 0xAB);
    assert_eq!(memory[0x1FF], 0);
}

#[test]
fn load_rejects_a_program_that_is_too_large() {
    let program = vec![0xAB; 3585];
    let mut chip = Chip8::new();
    chip.load(&[9, 9]).unwrap();
    let before = chip.memory();
    assert_eq!(chip.load(&program), Err(LoadError { len: 3585 }));
    assert_eq!(chip.memory(), before);
    assert_eq!(chip.pc(), 0x200);
}

#[test]
fn load_overwrites_only_the_new_length() {
    let mut chip = Chip8::new();
    chip.load(&[1, 2, 3, 4]).unwrap();
    chip.load(&[7, 8]).unwrap();
    assert_eq!(&chip.memory()[0x200..0x204], &[7, 8, 3, 4]);
}

#[test]
fn load_keeps_registers_and_program_counter() {
    let mut chip = Chip8::new();
    chip.load(&[0x61, 0x05, 0x12, 0x34]).unwrap();
    chip.step(0).unwrap();
    chip.step(0).unwrap();
    chip.load(&[0, 0]).unwrap();
    assert_eq!(chip.registers()[1], 5);
    assert_eq!(chip.pc(), 0x234);
}
