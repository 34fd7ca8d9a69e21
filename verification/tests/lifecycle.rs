use chip8_core::Emu;
use chip8_core::FatalError;
use chip8_core::FONT;

fn machine_with(program: &[u8]) -> Emu {
    let mut emu = Emu::new();
    emu.load(program).unwrap();
    emu
}

fn run(emu: &mut Emu, ticks: usize) {
    for _ in 0..ticks {
        emu.tick().unwrap();
    }
}

#[test]
fn new_machine_is_in_the_initial_state() {
    let emu = Emu::new();
    assert_eq!(emu.program_counter(), 0x200);
    assert_eq!(emu.index_register(), 0);
    assert_eq!(emu.stack_pointer(), 0);
    assert_eq!(emu.delay_timer(), 0);
    assert_eq!(emu.sound_timer(), 0);
    for x in 0..16 {
        assert_eq!(emu.register(x), 0);
        assert!(!emu.key(x));
    }
    for addr in 0..80 {
        assert_eq!(emu.memory(addr), FONT[addr]);
    }
    for addr in 80..4096 {
        assert_eq!(emu.memory(addr), 0);
    }
    assert!(emu.display().iter().all(|on| !on));
}

#[test]
fn font_holds_the_sixteen_glyphs() {
    assert_eq!(FONT.len(), 80);
    assert_eq!(&FONT[0..5], &[0xF0, 0x90, 0x90, 0x90, 0xF0]);
    assert_eq!(&FONT[5..10], &[0x20, 0x60, 0x20, 0x20, 0x70]);
    assert_eq!(&FONT[50..55], &[0xF0, 0x90, 0xF0, 0x90, 0x90]);
    assert_eq!(&FONT[75..80], &[0xF0, 0x80, 0xF0, 0x80, 0x80]);
}

#[test]
fn reset_gives_the_state_of_a_new_machine() {
    // V0 = 7, V1 = 9, I = 0, draw glyph, store registers over the font,
    // set both timers, call a subroutine.
    let mut emu = machine_with(&[
        0x60, 0x07, 0x61, 0x09, 0xA0, 0x00, 0xD0, 0x15, 0xF1, 0x55, 0xF0, 0x15, 0xF1, 0x18, 0xC2,
        0xFF, 0x23, 0x00,
    ]);
    run(&mut emu, 9);
    emu.set_key(4, true);
    emu.push(0x0ABC).unwrap();
    emu.seed(77);
    assert_eq!(emu.memory(0), 7);
    assert_eq!(emu.program_counter(), 0x300);
    assert_ne!(emu, Emu::new());

    emu.reset();

    assert_eq!(emu, Emu::new());
    assert_eq!(emu.program_counter(), 0x200);
    assert_eq!(emu.stack_pointer(), 0);
    assert_eq!(emu.delay_timer(), 0);
    assert_eq!(emu.sound_timer(), 0);
    assert!(!emu.key(4));
    for addr in 0..80 {
        assert_eq!(emu.memory(addr), FONT[addr]);
    }
    for addr in 80..4096 {
        assert_eq!(emu.memory(addr), 0);
    }
    for x in 0..16 {
        assert_eq!(emu.register(x), 0);
    }
    assert!(emu.display().iter().all(|on| !on));
}

#[test]
fn reset_restarts_the_random_sequence() {
    let mut emu = machine_with(&[0xC0, 0xFF]);
    emu.tick().unwrap();
    let first = emu.register(0);
    emu.reset();
    emu.load(&[0xC0, 0xFF]).unwrap();
    emu.tick().unwrap();
    assert_eq!(emu.register(0), first);
}

#[test]
fn sixteen_pushes_succeed_and_the_seventeenth_overflows() {
    let mut emu = Emu::new();
    for k in 0..16u16 {
        assert_eq!(emu.push(0x300 + k), Ok(()));
        assert_eq!(emu.stack_pointer(), k + 1);
    }
    let full = emu.clone();
    assert_eq!(emu.push(0x999), Err(FatalError::StackOverflow));
    assert_eq!(emu, full);
    assert_eq!(emu.stack_pointer(), 16);
    // Nothing was overwritten: the values come back in reverse order.
    for k in (0..16u16).rev() {
        assert_eq!(emu.pop(), Ok(0x300 + k));
    }
    assert_eq!(emu.stack_pointer(), 0);
}

#[test]
fn pop_from_an_empty_stack_underflows() {
    let mut emu = Emu::new();
    assert_eq!(emu.pop(), Err(FatalError::StackUnderflow));
    assert_eq!(emu, Emu::new());
    emu.push(5).unwrap();
    assert_eq!(emu.pop(), Ok(5));
    assert_eq!(emu.pop(), Err(FatalError::StackUnderflow));
}

#[test]
fn push_then_pop_is_last_in_first_out() {
    let mut emu = Emu::new();
    emu.push(0x111).unwrap();
    emu.push(0x222).unwrap();
    assert_eq!(emu.pop(), Ok(0x222));
    emu.push(0x333).unwrap();
    assert_eq!(emu.pop(), Ok(0x333));
    assert_eq!(emu.pop(), Ok(0x111));
}

#[test]
fn timers_count_down_to_zero_and_stay_there() {
    // V0 = 2, delay = V0, V0 = 3, sound = V0.
    let mut emu = machine_with(&[0x60, 0x02, 0xF0, 0x15, 0x60, 0x03, 0xF0, 0x18]);
    run(&mut emu, 4);
    assert_eq!((emu.delay_timer(), emu.sound_timer()), (2, 3));
    emu.decrement_timers();
    assert_eq!((emu.delay_timer(), emu.sound_timer()), (1, 2));
    emu.decrement_timers();
    assert_eq!((emu.delay_timer(), emu.sound_timer()), (0, 1));
    emu.decrement_timers();
    assert_eq!((emu.delay_timer(), emu.sound_timer()), (0, 0));
    emu.decrement_timers();
    assert_eq!((emu.delay_timer(), emu.sound_timer()), (0, 0));
}

#[test]
fn decrement_timers_touches_nothing_else() {
    let mut emu = machine_with(&[0x60, 0x09, 0xF0, 0x15]);
    run(&mut emu, 2);
    let before = emu.clone();
    emu.decrement_timers();
    assert_eq!(emu.delay_timer(), 8);
    assert_eq!(emu.program_counter(), before.program_counter());
    assert_eq!(emu.register(0), 9);
    assert_eq!(emu.display(), before.display());
}

#[test]
fn ticks_do_not_run_the_timers() {
    // delay = 9, then a loop of jumps.
    let mut emu = machine_with(&[0x60, 0x09, 0xF0, 0x15, 0xF0, 0x18, 0x12, 0x06]);
    run(&mut emu, 50);
    assert_eq!(emu.delay_timer(), 9);
    assert_eq!(emu.sound_timer(), 9);
}

#[test]
fn set_key_latches_and_releases() {
    let mut emu = Emu::new();
    emu.set_key(0, true);
    emu.set_key(15, true);
    assert!(emu.key(0));
    assert!(emu.key(15));
    assert!(!emu.key(7));
    emu.set_key(0, false);
    assert!(!emu.key(0));
    assert!(emu.key(15));
}

#[test]
fn load_writes_from_the_start_address_and_spares_the_font() {
    let mut emu = Emu::new();
    assert_eq!(emu.load(&[0xAA, 0xBB, 0xCC]), Ok(()));
    assert_eq!(emu.memory(0x1FF), 0);
    assert_eq!(emu.memory(0x200), 0xAA);
    assert_eq!(emu.memory(0x201), 0xBB);
    assert_eq!(emu.memory(0x202), 0xCC);
    assert_eq!(emu.memory(0x203), 0);
    for addr in 0..80 {
        assert_eq!(emu.memory(addr), FONT[addr]);
    }
    assert_eq!(emu.program_counter(), 0x200);
}

#[test]
fn load_accepts_a_program_that_fills_memory_and_refuses_a_longer_one() {
    let mut emu = Emu::new();
    let fits = vec![0x5A; 4096 - 0x200];
    assert_eq!(emu.load(&fits), Ok(()));
    assert_eq!(emu.memory(4095), 0x5A);
    assert_eq!(emu.memory(0x1FF), 0);

    let mut other = Emu::new();
    let too_long = vec![0x5A; 4096 - 0x200 + 1];
    assert_eq!(other.load(&too_long), Err(FatalError::MemoryOutOfRange));
    assert_eq!(other, Emu::new());
}

#[test]
fn load_of_nothing_changes_nothing() {
    let mut emu = Emu::new();
    assert_eq!(emu.load(&[]), Ok(()));
    assert_eq!(emu, Emu::new());
}

#[test]
fn clone_is_an_equal_machine_of_its_own() {
    let mut emu = machine_with(&[0x60, 0x2A]);
    let copy = emu.clone();
    assert_eq!(copy, emu);
    emu.tick().unwrap();
    assert_ne!(copy, emu);
    assert_eq!(copy.register(0), 0);
    assert_eq!(emu.register(0), 0x2A);
}

#[test]
fn seed_picks_the_random_sequence() {
    let mut emu = machine_with(&[0xC0, 0xFF, 0xC1, 0xFF]);
    emu.seed(0);
    run(&mut emu, 2);
    // 0 * 25173 + 13849 = 0x3619; 0x3619 * 25173 + 13849 = 0xBE66 mod 2^16.
    assert_eq!(emu.register(0), 0x36);
    assert_eq!(emu.register(1), 0xBE);
}
