use vstd::prelude::*;
use crate::error::FatalError;
use crate::font::FONT;
use crate::font::FONT_SIZE;

verus! {

/// Width of the display in pixels.
pub const SCREEN_WIDTH: usize = 64;

/// Height of the display in pixels.
pub const SCREEN_HEIGHT: usize = 32;

/// Number of pixels of the display.
pub const SCREEN_SIZE: usize = 2048;

/// Number of bytes of memory.
pub const RAM_SIZE: usize = 4096;

/// Number of general registers, `V0` to `VF`.
pub const NUM_REGISTERS: usize = 16;

/// Number of return addresses the call stack can hold.
pub const STACK_SIZE: usize = 16;

/// Number of keys of the keypad.
pub const NUM_KEYS: usize = 16;

/// Address at which programs are loaded and at which execution starts.
pub const START_ADDRESS: u16 = 0x200;

/// Index of `VF`, the register that doubles as the flag output.
pub const FLAG: usize = 15;

/// State of the pseudo-random generator in a fresh machine.
pub const DEFAULT_SEED: u16 = 0x2A6D;

/// The architectural state of the machine as a mathematical value.
#[verifier::ext_equal]
pub struct Machine {
    /// Address of the next instruction.
    pub pc: u16,
    /// Memory, one byte per address.
    pub ram: Seq<u8>,
    /// The display, row by row: pixel `(x, y)` is at index `y * 64 + x`.
    pub screen: Seq<bool>,
    /// The general registers `V0` to `VF`.
    pub v: Seq<u8>,
    /// The index register.
    pub i: u16,
    /// Number of return addresses on the call stack.
    pub sp: u16,
    /// The slots of the call stack; those below `sp` are live.
    pub stack: Seq<u16>,
    /// The key latch: which keys are held down.
    pub keys: Seq<bool>,
    /// The delay timer.
    pub delay: u8,
    /// The sound timer; a tone sounds while it is not zero.
    pub sound: u8,
    /// State of the pseudo-random generator.
    pub rng: u16,
}

/// The generator state that follows `s`: one step of a linear congruential
/// generator modulo 2^16.
pub open spec fn rng_next(s: u16) -> u16 {
    ((s as int * 25173 + 13849) % 65536) as u16
}

/// The byte drawn when the generator is in state `s`: the high byte of the
/// state that follows.
pub open spec fn rng_byte(s: u16) -> u8 {
    (rng_next(s) / 256) as u8
}

impl Machine {
    /// Every component has its architectural size and the stack pointer
    /// stays within the stack.
    pub open spec fn wf(self) -> bool {
        &&& self.ram.len() == RAM_SIZE
        &&& self.screen.len() == SCREEN_SIZE
        &&& self.v.len() == NUM_REGISTERS
        &&& self.stack.len() == STACK_SIZE
        &&& self.keys.len() == NUM_KEYS
        &&& self.sp <= STACK_SIZE
    }

    /// The state of a machine that was just built or reset: the font at the
    /// bottom of memory, the program counter at the start address, a seeded
    /// generator, and everything else zero.
    pub open spec fn initial() -> Machine {
        Machine {
            pc: START_ADDRESS,
            ram: Seq::new(RAM_SIZE as nat, |a: int| if a < FONT_SIZE { FONT@[a] } else { 0u8 }),
            screen: Seq::new(SCREEN_SIZE as nat, |k: int| false),
            v: Seq::new(NUM_REGISTERS as nat, |r: int| 0u8),
            i: 0,
            sp: 0,
            stack: Seq::new(STACK_SIZE as nat, |s: int| 0u16),
            keys: Seq::new(NUM_KEYS as nat, |k: int| false),
            delay: 0,
            sound: 0,
            rng: DEFAULT_SEED,
        }
    }

    /// Pushing `val`: it is written to the slot at the stack pointer, which
    /// then moves up by one. A full stack refuses the push.
    pub open spec fn push(self, val: u16) -> Result<Machine, FatalError> {
        if self.sp >= STACK_SIZE {
            Err(FatalError::StackOverflow)
        } else {
            Ok(
                Machine {
                    stack: self.stack.update(self.sp as int, val),
                    sp: (self.sp + 1) as u16,
                    ..self
                },
            )
        }
    }

    /// Popping: the stack pointer moves down by one and the value in that
    /// slot is handed out. An empty stack refuses the pop.
    pub open spec fn pop(self) -> Result<(Machine, u16), FatalError> {
        if self.sp == 0 {
            Err(FatalError::StackUnderflow)
        } else {
            Ok((Machine { sp: (self.sp - 1) as u16, ..self }, self.stack[self.sp - 1]))
        }
    }

    /// One beat of the 60 Hz clock: each timer that is not zero goes down by
    /// one.
    pub open spec fn timers_decremented(self) -> Machine {
        Machine {
            delay: if self.delay > 0 { (self.delay - 1) as u8 } else { 0 },
            sound: if self.sound > 0 { (self.sound - 1) as u8 } else { 0 },
            ..self
        }
    }

    /// The state after key `index` went down (`pressed`) or up.
    pub open spec fn with_key(self, index: int, pressed: bool) -> Machine {
        Machine { keys: self.keys.update(index, pressed), ..self }
    }

    /// The state after `data` was copied into memory from the start address
    /// on. Memory below the start address, the font included, is untouched.
    pub open spec fn loaded(self, data: Seq<u8>) -> Machine {
        Machine {
            ram: Seq::new(
                self.ram.len(),
                |a: int|
                    if START_ADDRESS <= a < START_ADDRESS + data.len() {
                        data[a - START_ADDRESS]
                    } else {
                        self.ram[a]
                    },
            ),
            ..self
        }
    }

    /// The state after the generator was seeded with `seed`.
    pub open spec fn seeded(self, seed: u16) -> Machine {
        Machine { rng: seed, ..self }
    }
}

} // verus!
