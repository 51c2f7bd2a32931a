use chip8::display::draw_sprite;
use chip8::font::{FONTSET, FONTSET_SIZE};
use chip8::keypad::lowest_pressed;
use chip8::memory::copy_block;

fn lit(pixels: &[bool; 2048]) -> Vec<(usize, usize)> {
    let mut cells = Vec::new();
    for row in 0..32 {
        for col in 0..64 {
            if pixels[col + 64 * row] {
                cells.push((col, row));
            }
        }
    }
    cells
}

#[test]
fn font_has_sixteen_glyphs_of_five_rows() {
    assert_eq!(FONTSET_SIZE, 80);
    assert_eq!(FONTSET.len(), 80);
    // Every row uses the left four pixels only.
    assert!(FONTSET.iter().all(|row| row & 0x0F == 0));
    assert_eq!(&FONTSET[5..10], &[0x20, 0x60, 0x20, 0x20, 0x70]);
    assert_eq!(&FONTSET[35..40], &[0xF0, 0x10, 0x20, 0x40, 0x40]);
}

#[test]
fn copy_block_overwrites_the_given_range_only() {
    let mut dst = [9u8; 8];
    copy_block(&mut dst, 2, &[1, 2, 3, 4, 5], 1, 3);
    assert_eq!(dst, [9, 9, 2, 3, 4, 9, 9, 9]);
}

#[test]
fn copy_block_of_nothing_changes_nothing() {
    let mut dst = [9u8; 4];
    copy_block(&mut dst, 4, &[1, 2], 2, 0);
    assert_eq!(dst, [9u8; 4]);
}

#[test]
fn copy_block_up_to_the_last_byte() {
    let mut dst = [0u8; 4];
    copy_block(&mut dst, 1, &[7, 8, 9], 0, 3);
    assert_eq!(dst, [0, 7, 8, 9]);
}

#[test]
fn lowest_pressed_of_no_key() {
    assert_eq!(lowest_pressed(&[false; 16]), None);
}

#[test]
fn lowest_pressed_of_every_single_key() {
    for k in 0..16u8 {
        let mut keys = [false; 16];
        keys[k as usize] = true;
        assert_eq!(lowest_pressed(&keys), Some(k));
    }
}

#[test]
fn lowest_pressed_of_several_keys() {
    let mut keys = [false; 16];
    keys[15] = true;
    keys[6] = true;
    keys[9] = true;
    assert_eq!(lowest_pressed(&keys), Some(6));
    assert_eq!(lowest_pressed(&[true; 16]), Some(0));
}

#[test]
fn draw_sprite_reads_rows_from_the_start_address() {
    let mut memory = [0u8; 4096];
    memory[0x300] = 0xC0;
    memory[0x301] = 0x01;
    memory[0x302] = 0xFF;
    let mut display = [false; 2048];
    let collision = draw_sprite(&mut display, &memory, 0x300, 2, 10, 20);
    assert!(!collision);
    assert_eq!(lit(&display), vec![(10, 20), (11, 20), (17, 21)]);
}

#[test]
fn draw_sprite_reports_collision_and_inverts() {
    let mut memory = [0u8; 4096];
    memory[0] = 0x81;
    let mut display = [false; 2048];
    display[7] = true;
    display[100] = true;
    let collision = draw_sprite(&mut display, &memory, 0, 1, 0, 0);
    assert!(collision);
    assert_eq!(lit(&display), vec![(0, 0), (36, 1)]);
}

#[test]
fn draw_sprite_of_no_rows_is_a_no_op() {
    let memory = [0xFFu8; 4096];
    let mut display = [false; 2048];
    display[5] = true;
    assert!(!draw_sprite(&mut display, &memory, 4096, 0, 3, 3));
    assert_eq!(lit(&display), vec![(5, 0)]);
}

#[test]
fn draw_sprite_at_the_end_of_memory() {
    let mut memory = [0u8; 4096];
    memory[4095] = 0x80;
    let mut display = [false; 2048];
    assert!(!draw_sprite(&mut display, &memory, 4081, 15, 63, 31));
    // Only the last row has a bit: row 14 from 31 wraps to 13.
    assert_eq!(lit(&display), vec![(63, 13)]);
}

#[test]
fn draw_sprite_as_tall_as_the_screen() {
    let memory = [0x80u8; 4096];
    let mut display = [false; 2048];
    assert!(!draw_sprite(&mut display, &memory, 100, 32, 7, 5));
    let expected: Vec<(usize, usize)> = (0..32).map(|row| (7, row)).collect();
    assert_eq!(lit(&display), expected);
    assert!(draw_sprite(&mut display, &memory, 100, 32, 7, 20));
    assert_eq!(lit(&display), vec![]);
}
