use chip8_core::display::draw_sprite;
use chip8_core::Emu;
use chip8_core::FatalError;
use chip8_core::SCREEN_HEIGHT;
use chip8_core::SCREEN_WIDTH;

fn machine_with(program: &[u8]) -> Emu {
    let mut emu = Emu::new();
    emu.load(program).unwrap();
    emu
}

fn run(emu: &mut Emu, ticks: usize) {
    for _ in 0..ticks {
        emu.tick().unwrap();
    }
}

fn lit(emu: &Emu) -> Vec<(usize, usize)> {
    let mut on = Vec::new();
    for y in 0..SCREEN_HEIGHT {
        for x in 0..SCREEN_WIDTH {
            if emu.pixel(x, y) {
                on.push((x, y));
            }
        }
    }
    on
}

#[test]
fn screen_is_64_by_32() {
    assert_eq!(SCREEN_WIDTH, 64);
    assert_eq!(SCREEN_HEIGHT, 32);
    assert_eq!(Emu::new().display().len(), 64 * 32);
}

#[test]
fn draw_glyph_zero_at_the_origin() {
    // I = glyph 0, draw 5 rows at (V0, V1) = (0, 0).
    let mut emu = machine_with(&[0xA0, 0x00, 0xD0, 0x15]);
    run(&mut emu, 2);
    let expected = vec![
        (0, 0), (1, 0), (2, 0), (3, 0),
        (0, 1), (3, 1),
        (0, 2), (3, 2),
        (0, 3), (3, 3),
        (0, 4), (1, 4), (2, 4), (3, 4),
    ];
    assert_eq!(lit(&emu), expected);
    assert_eq!(emu.register(15), 0);
    assert_eq!(emu.program_counter(), 0x204);
}

#[test]
fn display_is_indexed_row_by_row() {
    // One pixel at (5, 3): a sprite row 0x80.
    let mut emu = machine_with(&[0x60, 0x05, 0x61, 0x03, 0xA2, 0x08, 0xD0, 0x11, 0x80]);
    run(&mut emu, 4);
    assert_eq!(lit(&emu), vec![(5, 3)]);
    assert!(emu.display()[3 * 64 + 5]);
    assert_eq!(emu.display().iter().filter(|on| **on).count(), 1);
}

#[test]
fn drawing_twice_restores_the_screen_and_reports_collision() {
    // Glyph 7 at (10, 5), then glyph 3 at (12, 6) twice.
    let mut emu = machine_with(&[
        0x60, 0x0A, 0x61, 0x05, 0xA0, 0x23, 0xD0, 0x15, 0x62, 0x0C, 0x63, 0x06, 0xA0, 0x0F, 0xD2,
        0x35, 0xD2, 0x35,
    ]);
    run(&mut emu, 7);
    let before = emu.display().to_vec();
    emu.tick().unwrap();
    let once = emu.display().to_vec();
    assert_ne!(once, before);
    // The first draw turned some pixel on.
    assert!((0..2048).any(|k| !before[k] && once[k]));
    emu.tick().unwrap();
    assert_eq!(emu.display().to_vec(), before);
    assert_eq!(emu.register(15), 1);
}

#[test]
fn second_draw_reports_no_collision_where_the_first_set_no_pixel() {
    // A sprite of one set bit drawn on a pixel that is on: the first draw
    // turns it off and sets nothing; the second draw meets no lit pixel.
    let mut emu = machine_with(&[0xA2, 0x08, 0xD0, 0x01, 0xD0, 0x01, 0xD0, 0x01, 0x80]);
    emu.tick().unwrap();
    emu.tick().unwrap();
    assert_eq!(lit(&emu), vec![(0, 0)]);
    assert_eq!(emu.register(15), 0);
    // V0 is 0 and VF is 0: draw at (V0, V0) again.
    emu.tick().unwrap();
    assert_eq!(lit(&emu), vec![]);
    assert_eq!(emu.register(15), 1);
    emu.tick().unwrap();
    assert_eq!(lit(&emu), vec![(0, 0)]);
    assert_eq!(emu.register(15), 0);
}

#[test]
fn collision_is_reported_only_when_a_pixel_goes_off() {
    // Row 0xF0 at (0, 0), then row 0x0F at (0, 0): no overlap.
    let mut emu = machine_with(&[
        0xA2, 0x0A, 0xD0, 0x01, 0xA2, 0x0B, 0xD0, 0x01, 0x00, 0x00, 0xF0, 0x0F,
    ]);
    run(&mut emu, 4);
    assert_eq!(emu.register(15), 0);
    assert_eq!(lit(&emu).len(), 8);
    // Row 0x18 at (0, 0): overlaps both.
    let mut emu = machine_with(&[
        0xA2, 0x0A, 0xD0, 0x01, 0xA2, 0x0B, 0xD0, 0x01, 0x00, 0x00, 0xF0, 0x18,
    ]);
    run(&mut emu, 4);
    assert_eq!(emu.register(15), 1);
    assert_eq!(lit(&emu), vec![(0, 0), (1, 0), (2, 0), (4, 0)]);
}

#[test]
fn draw_clears_a_stale_flag() {
    // VF = 1, then a draw of an all-zero sprite row over a lit screen.
    let mut emu = machine_with(&[
        0xA0, 0x00, 0xD0, 0x05, 0x6F, 0x01, 0xA3, 0x00, 0xD0, 0x05,
    ]);
    run(&mut emu, 5);
    assert_eq!(emu.register(15), 0);
    assert_eq!(lit(&emu).len(), 14);
}

#[test]
fn draw_of_no_rows_changes_no_pixel_and_clears_the_flag() {
    let mut emu = machine_with(&[0xA0, 0x00, 0xD0, 0x05, 0x6F, 0x01, 0xD0, 0x00]);
    run(&mut emu, 3);
    let before = emu.display().to_vec();
    emu.tick().unwrap();
    assert_eq!(emu.display().to_vec(), before);
    assert_eq!(emu.register(15), 0);
    assert_eq!(emu.program_counter(), 0x208);
}

#[test]
fn sprites_wrap_round_both_edges() {
    // Two rows of 0xFF at (62, 31).
    let mut emu = machine_with(&[
        0x60, 62, 0x61, 31, 0xA2, 0x08, 0xD0, 0x12, 0xFF, 0xFF,
    ]);
    run(&mut emu, 4);
    let expected = vec![
        (0, 0), (1, 0), (2, 0), (3, 0), (4, 0), (5, 0), (62, 0), (63, 0),
        (0, 31), (1, 31), (2, 31), (3, 31), (4, 31), (5, 31), (62, 31), (63, 31),
    ];
    assert_eq!(lit(&emu), expected);
    assert_eq!(emu.register(15), 0);
}

#[test]
fn coordinates_are_taken_modulo_the_screen_size() {
    // (64 + 3, 32 * 7 + 2) is (3, 2).
    let mut emu = machine_with(&[0x60, 67, 0x61, 226, 0xA2, 0x08, 0xD0, 0x11, 0xC0]);
    run(&mut emu, 4);
    assert_eq!(lit(&emu), vec![(3, 2), (4, 2)]);
}

#[test]
fn tallest_sprite_has_fifteen_rows() {
    let mut program = vec![0x60, 0x08, 0x61, 0x14, 0xA2, 0x08, 0xD0, 0x1F];
    program.extend_from_slice(&[0x80; 15]);
    let mut emu = machine_with(&program);
    run(&mut emu, 4);
    let mut expected: Vec<(usize, usize)> = (0..15).map(|r| (8, (20 + r) % 32)).collect();
    expected.sort_by_key(|p| (p.1, p.0));
    assert_eq!(lit(&emu), expected);
}

#[test]
fn draw_with_the_flag_register_as_coordinate() {
    // VF = 3 is read as x before the flag is written.
    let mut emu = machine_with(&[0x6F, 0x03, 0xA2, 0x06, 0xDF, 0x01, 0x80]);
    run(&mut emu, 3);
    assert_eq!(lit(&emu), vec![(3, 0)]);
    assert_eq!(emu.register(15), 0);
}

#[test]
fn sprite_that_reaches_past_memory_is_out_of_range() {
    // I = 0xFFE, 3 rows.
    let mut emu = machine_with(&[0xAF, 0xFE, 0xD0, 0x03]);
    emu.tick().unwrap();
    let before = emu.clone();
    assert_eq!(emu.tick(), Err(FatalError::MemoryOutOfRange));
    assert_eq!(emu, before);
    // 2 rows fit.
    let mut emu = machine_with(&[0xAF, 0xFE, 0xD0, 0x02]);
    assert_eq!(emu.tick(), Ok(()));
    assert_eq!(emu.tick(), Ok(()));
}

#[test]
fn clear_screen_turns_every_pixel_off() {
    let mut emu = machine_with(&[0xA0, 0x00, 0xD0, 0x05, 0x6F, 0x01, 0x00, 0xE0]);
    run(&mut emu, 3);
    assert_eq!(lit(&emu).len(), 14);
    emu.tick().unwrap();
    assert!(emu.display().iter().all(|on| !on));
    assert_eq!(emu.register(15), 1);
    assert_eq!(emu.program_counter(), 0x208);
}

#[test]
fn only_draw_and_clear_change_the_display() {
    let mut emu = machine_with(&[
        0xA0, 0x00, 0xD0, 0x05, 0x60, 0x07, 0x80, 0x04, 0xF0, 0x33, 0xF0, 0x15, 0x12, 0x0C,
    ]);
    run(&mut emu, 2);
    let shown = emu.display().to_vec();
    run(&mut emu, 10);
    assert_eq!(emu.display().to_vec(), shown);
}

#[test]
fn draw_sprite_flips_the_pixels_under_set_bits() {
    let mut screen = [false; 2048];
    let mut ram = [0u8; 4096];
    ram[100] = 0b1010_0000;
    ram[101] = 0b0000_0001;
    screen[2 * 64 + 10] = true;
    let hit = draw_sprite(&mut screen, &ram, 100, 2, 10, 2);
    assert!(hit);
    let on: Vec<usize> = (0..2048).filter(|k| screen[*k]).collect();
    assert_eq!(on, vec![2 * 64 + 12, 3 * 64 + 17]);
    let hit = draw_sprite(&mut screen, &ram, 100, 2, 10, 2);
    assert!(hit);
    let on: Vec<usize> = (0..2048).filter(|k| screen[*k]).collect();
    assert_eq!(on, vec![2 * 64 + 10]);
}

#[test]
fn draw_sprite_of_no_rows_does_nothing() {
    let mut screen = [true; 2048];
    let ram = [0xFFu8; 4096];
    assert!(!draw_sprite(&mut screen, &ram, 4096, 0, 0, 0));
    assert!(screen.iter().all(|on| *on));
}
