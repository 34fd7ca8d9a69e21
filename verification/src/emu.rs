use vstd::prelude::*;
use crate::decode::Instruction;
use crate::display::collides;
use crate::display::draw_sprite;
use crate::display::drawn_screen;
use crate::error::FatalError;
use crate::font::FONT;
use crate::font::FONT_SIZE;
use crate::machine::rng_byte;
use crate::machine::rng_next;
use crate::machine::Machine;
use crate::machine::FLAG;
use crate::machine::DEFAULT_SEED;
use crate::machine::NUM_KEYS;
use crate::machine::NUM_REGISTERS;
use crate::machine::RAM_SIZE;
use crate::machine::SCREEN_HEIGHT;
use crate::machine::SCREEN_SIZE;
use crate::machine::SCREEN_WIDTH;
use crate::machine::STACK_SIZE;
use crate::machine::START_ADDRESS;
use crate::semantics::any_key_down;
use crate::semantics::first_key_down;
use crate::semantics::flag_of;
use crate::semantics::is_first_key_down;

verus! {

/// The executable machine. Its state is read in contracts through the view
/// `@`, a [`Machine`].
#[derive(Debug, PartialEq, Eq)]
pub struct Emu {
    program_counter: u16,
    ram: [u8; RAM_SIZE],
    screen: [bool; SCREEN_SIZE],
    v_reg: [u8; NUM_REGISTERS],
    i_reg: u16,
    stack_pointer: u16,
    stack: [u16; STACK_SIZE],
    keys: [bool; NUM_KEYS],
    delay_timer: u8,
    sound_timer: u8,
    rng_state: u16,
}

impl View for Emu {
    type V = Machine;

    closed spec fn view(&self) -> Machine {
        Machine {
            pc: self.program_counter,
            ram: self.ram@,
            screen: self.screen@,
            v: self.v_reg@,
            i: self.i_reg,
            sp: self.stack_pointer,
            stack: self.stack@,
            keys: self.keys@,
            delay: self.delay_timer,
            sound: self.sound_timer,
            rng: self.rng_state,
        }
    }
}

impl Clone for Emu {
    /// A second machine in the same state.
    fn clone(&self) -> (copy: Emu)
        ensures
            copy@ == self@,
    {
        proof {
            use_type_invariant(self);
        }
        Emu {
            program_counter: self.program_counter,
            ram: self.ram,
            screen: self.screen,
            v_reg: self.v_reg,
            i_reg: self.i_reg,
            stack_pointer: self.stack_pointer,
            stack: self.stack,
            keys: self.keys,
            delay_timer: self.delay_timer,
            sound_timer: self.sound_timer,
            rng_state: self.rng_state,
        }
    }
}

/// Whether `ins` only moves the program counter or the call stack.
spec fn is_flow(ins: Instruction) -> bool {
    ins is Return || ins is Jump || ins is Call || ins is JumpOffset || ins is SkipEqImm
        || ins is SkipNeImm || ins is SkipEqReg || ins is SkipNeReg || ins is SkipKey
        || ins is SkipNoKey
}

/// Whether `ins` computes a register from registers, immediates, the delay
/// timer or the random generator.
spec fn is_alu(ins: Instruction) -> bool {
    ins is LoadImm || ins is AddImm || ins is Move || ins is Or || ins is And || ins is Xor
        || ins is Add || ins is Sub || ins is SubReverse || ins is ShiftRight
        || ins is ShiftLeft || ins is Random || ins is ReadDelay
}

/// The difference `a - b` wrapped to a byte, with the flag that says no
/// borrow was needed.
fn wrapping_difference(a: u8, b: u8) -> (r: (u8, u8))
    ensures
        r.0 == (a - b) % 256,
        r.1 == flag_of(a >= b),
{
    if a >= b {
        (a - b, 1)
    } else {
        ((256 - (b as u16 - a as u16)) as u8, 0)
    }
}

impl Emu {
    #[verifier::type_invariant]
    spec fn inv(&self) -> bool {
        self.stack_pointer <= STACK_SIZE
    }

    /// A machine in its initial state.
    pub fn new() -> (emu: Emu)
        ensures
            emu@ == Machine::initial(),
            emu@.wf(),
    {
        let mut emu = Emu {
            program_counter: START_ADDRESS,
            ram: [0u8; RAM_SIZE],
            screen: [false; SCREEN_SIZE],
            v_reg: [0u8; NUM_REGISTERS],
            i_reg: 0,
            stack_pointer: 0,
            stack: [0u16; STACK_SIZE],
            keys: [false; NUM_KEYS],
            delay_timer: 0,
            sound_timer: 0,
            rng_state: DEFAULT_SEED,
        };
        emu.load_font();
        emu
    }

    /// Brings the machine back to its initial state: memory is cleared and
    /// the font written back, everything else returns to what `new` gives.
    pub fn reset(&mut self)
        ensures
            final(self)@ == Machine::initial(),
            final(self)@.wf(),
    {
        proof {
            use_type_invariant(&*self);
        }
        self.program_counter = START_ADDRESS;
        self.ram = [0u8; RAM_SIZE];
        self.screen = [false; SCREEN_SIZE];
        self.v_reg = [0u8; NUM_REGISTERS];
        self.i_reg = 0;
        self.stack_pointer = 0;
        self.stack = [0u16; STACK_SIZE];
        self.keys = [false; NUM_KEYS];
        self.delay_timer = 0;
        self.sound_timer = 0;
        self.rng_state = DEFAULT_SEED;
        self.load_font();
    }

    /// Writes the font over the first bytes of a cleared memory.
    fn load_font(&mut self)
        requires
            forall|a: int| 0 <= a < RAM_SIZE ==> old(self).ram@[a] == 0,
        ensures
            final(self)@ == (Machine { ram: Machine::initial().ram, ..old(self)@ }),
    {
        proof {
            use_type_invariant(&*self);
        }
        let mut k: usize = 0;
        while k < FONT_SIZE
            invariant
                k <= FONT_SIZE,
                self.inv(),
                self@ == (Machine { ram: self.ram@, ..old(self)@ }),
                forall|a: int| 0 <= a < k ==> self.ram@[a] == FONT@[a],
                forall|a: int| k <= a < RAM_SIZE ==> self.ram@[a] == 0,
            decreases FONT_SIZE - k,
        {
            self.ram[k] = FONT[k];
            k += 1;
        }
        assert(self.ram@ =~= Machine::initial().ram);
    }

    /// Pushes a return address onto the call stack.
    pub fn push(&mut self, val: u16) -> (r: Result<(), FatalError>)
        ensures
            final(self)@.wf(),
            match r {
                Ok(()) => old(self)@.push(val) == Ok::<Machine, FatalError>(final(self)@),
                Err(e) => old(self)@.push(val) == Err::<Machine, FatalError>(e) && final(self)@
                    == old(self)@,
            },
    {
        proof {
            use_type_invariant(&*self);
        }
        if self.stack_pointer as usize >= STACK_SIZE {
            return Err(FatalError::StackOverflow);
        }
        self.stack[self.stack_pointer as usize] = val;
        self.stack_pointer += 1;
        Ok(())
    }

    /// Pops the most recent return address off the call stack.
    pub fn pop(&mut self) -> (r: Result<u16, FatalError>)
        ensures
            final(self)@.wf(),
            match r {
                Ok(val) => old(self)@.pop() == Ok::<(Machine, u16), FatalError>(
                    (final(self)@, val),
                ),
                Err(e) => old(self)@.pop() == Err::<(Machine, u16), FatalError>(e) && final(self)@
                    == old(self)@,
            },
    {
        proof {
            use_type_invariant(&*self);
        }
        if self.stack_pointer == 0 {
            return Err(FatalError::StackUnderflow);
        }
        self.stack_pointer -= 1;
        Ok(self.stack[self.stack_pointer as usize])
    }

    /// Records that key `index` went down (`pressed`) or up.
    pub fn set_key(&mut self, index: usize, pressed: bool)
        requires
            index < NUM_KEYS,
        ensures
            final(self)@.wf(),
            final(self)@ == old(self)@.with_key(index as int, pressed),
    {
        proof {
            use_type_invariant(&*self);
        }
        self.keys[index] = pressed;
    }

    /// One beat of the 60 Hz clock: each timer that is not zero goes down
    /// by one.
    pub fn decrement_timers(&mut self)
        ensures
            final(self)@.wf(),
            final(self)@ == old(self)@.timers_decremented(),
    {
        proof {
            use_type_invariant(&*self);
        }
        if self.delay_timer > 0 {
            self.delay_timer -= 1;
        }
        if self.sound_timer > 0 {
            self.sound_timer -= 1;
        }
    }

    /// Copies a program into memory from the start address on. A program
    /// that does not fit between the start address and the end of memory is
    /// refused.
    pub fn load(&mut self, data: &[u8]) -> (r: Result<(), FatalError>)
        ensures
            final(self)@.wf(),
            r is Ok <==> START_ADDRESS + data@.len() <= RAM_SIZE,
            r is Ok ==> final(self)@ == old(self)@.loaded(data@),
            r is Err ==> r == Err::<(), FatalError>(FatalError::MemoryOutOfRange) && final(self)@
                == old(self)@,
    {
        proof {
            use_type_invariant(&*self);
        }
        let start = START_ADDRESS as usize;
        let len = data.len();
        if len > RAM_SIZE - start {
            return Err(FatalError::MemoryOutOfRange);
        }
        let mut k: usize = 0;
        while k < len
            invariant
                k <= len == data@.len(),
                start == START_ADDRESS,
                start + len <= RAM_SIZE,
                self.inv(),
                self@ == (Machine { ram: self.ram@, ..old(self)@ }),
                forall|a: int|
                    0 <= a < RAM_SIZE ==> self.ram@[a] == if start <= a < start + k {
                        data@[a - start]
                    } else {
                        old(self)@.ram[a]
                    },
            decreases len - k,
        {
            self.ram[start + k] = data[k];
            k += 1;
        }
        assert(self.ram@ =~= old(self)@.loaded(data@).ram);
        Ok(())
    }

    /// Seeds the pseudo-random generator.
    pub fn seed(&mut self, seed: u16)
        ensures
            final(self)@.wf(),
            final(self)@ == old(self)@.seeded(seed),
    {
        proof {
            use_type_invariant(&*self);
        }
        self.rng_state = seed;
    }

    /// The display, row by row: pixel `(x, y)` is at index `y * 64 + x`.
    pub fn display(&self) -> (screen: &[bool; SCREEN_SIZE])
        ensures
            screen@ == self@.screen,
    {
        &self.screen
    }

    /// Whether pixel `(x, y)` is on.
    pub fn pixel(&self, x: usize, y: usize) -> (on: bool)
        requires
            x < SCREEN_WIDTH,
            y < SCREEN_HEIGHT,
        ensures
            on == self@.screen[y * SCREEN_WIDTH + x],
    {
        self.screen[y * SCREEN_WIDTH + x]
    }

    /// The sound timer; the host sounds a tone while it is not zero.
    pub fn sound_timer(&self) -> (t: u8)
        ensures
            t == self@.sound,
    {
        self.sound_timer
    }

    /// The delay timer.
    pub fn delay_timer(&self) -> (t: u8)
        ensures
            t == self@.delay,
    {
        self.delay_timer
    }

    /// Address of the next instruction.
    pub fn program_counter(&self) -> (pc: u16)
        ensures
            pc == self@.pc,
    {
        self.program_counter
    }

    /// The index register.
    pub fn index_register(&self) -> (i: u16)
        ensures
            i == self@.i,
    {
        self.i_reg
    }

    /// Number of return addresses on the call stack.
    pub fn stack_pointer(&self) -> (sp: u16)
        ensures
            sp == self@.sp,
            sp <= STACK_SIZE,
    {
        proof {
            use_type_invariant(self);
        }
        self.stack_pointer
    }

    /// The general register `Vx`.
    pub fn register(&self, x: usize) -> (val: u8)
        requires
            x < NUM_REGISTERS,
        ensures
            val == self@.v[x as int],
    {
        self.v_reg[x]
    }

    /// The byte of memory at `addr`.
    pub fn memory(&self, addr: usize) -> (byte: u8)
        requires
            addr < RAM_SIZE,
        ensures
            byte == self@.ram[addr as int],
    {
        self.ram[addr]
    }

    /// Whether key `index` is held down.
    pub fn key(&self, index: usize) -> (down: bool)
        requires
            index < NUM_KEYS,
        ensures
            down == self@.keys[index as int],
    {
        self.keys[index]
    }

    /// Reads the opcode word at the program counter.
    pub fn fetch(&self) -> (r: Result<u16, FatalError>)
        ensures
            self@.wf(),
            r == self@.fetch(),
    {
        proof {
            use_type_invariant(self);
        }
        let pc = self.program_counter as usize;
        if pc + 1 >= RAM_SIZE {
            return Err(FatalError::MemoryOutOfRange);
        }
        let high = self.ram[pc] as u16;
        let low = self.ram[pc + 1] as u16;
        Ok(high * 256 + low)
    }

    /// The lowest-numbered key that is down, if any is.
    fn find_key(&self) -> (r: Option<u8>)
        ensures
            r is Some <==> any_key_down(self@.keys),
            r matches Some(k) ==> k == first_key_down(self@.keys),
    {
        let mut k: usize = 0;
        while k < NUM_KEYS
            invariant
                k <= NUM_KEYS,
                forall|j: int| 0 <= j < k ==> !self.keys@[j],
            decreases NUM_KEYS - k,
        {
            if self.keys[k] {
                proof {
                    assert(is_first_key_down(self@.keys, k as int));
                    let c = first_key_down(self@.keys);
                    assert(is_first_key_down(self@.keys, c));
                    assert(c == k);
                }
                return Some(k as u8);
            }
            k += 1;
        }
        None
    }

    /// Writes the three decimal digits of `val` at `I`, `I + 1` and `I + 2`.
    fn store_bcd(&mut self, val: u8)
        requires
            old(self)@.operand_in_range(3),
        ensures
            final(self)@ == (Machine {
                ram: old(self)@.ram.update(old(self)@.i as int, val / 100).update(
                    old(self)@.i + 1,
                    (val / 10) % 10,
                ).update(old(self)@.i + 2, val % 10),
                ..old(self)@
            }),
    {
        proof {
            use_type_invariant(&*self);
        }
        let at = self.i_reg as usize;
        self.ram[at] = val / 100;
        self.ram[at + 1] = (val / 10) % 10;
        self.ram[at + 2] = val % 10;
    }

    /// Copies `V0..=Vx` to memory from `I` on.
    fn store_regs(&mut self, x: u8)
        requires
            x < 16,
            old(self)@.operand_in_range(x + 1),
        ensures
            final(self)@ == (Machine {
                ram: Seq::new(
                    old(self)@.ram.len(),
                    |a: int|
                        if old(self)@.i <= a <= old(self)@.i + x {
                            old(self)@.v[a - old(self)@.i]
                        } else {
                            old(self)@.ram[a]
                        },
                ),
                ..old(self)@
            }),
    {
        proof {
            use_type_invariant(&*self);
        }
        let at = self.i_reg as usize;
        let count = x as usize + 1;
        let mut r: usize = 0;
        while r < count
            invariant
                r <= count == x + 1 <= 16,
                at == self.i_reg,
                at + count <= RAM_SIZE,
                self.inv(),
                self@ == (Machine { ram: self.ram@, ..old(self)@ }),
                forall|a: int|
                    0 <= a < RAM_SIZE ==> self.ram@[a] == if at <= a < at + r {
                        old(self)@.v[a - at]
                    } else {
                        old(self)@.ram[a]
                    },
            decreases count - r,
        {
            self.ram[at + r] = self.v_reg[r];
            r += 1;
        }
        assert(self.ram@ =~= Seq::new(
            old(self)@.ram.len(),
            |a: int|
                if old(self)@.i <= a <= old(self)@.i + x {
                    old(self)@.v[a - old(self)@.i]
                } else {
                    old(self)@.ram[a]
                },
        ));
    }

    /// Copies memory from `I` on to `V0..=Vx`.
    fn load_regs(&mut self, x: u8)
        requires
            x < 16,
            old(self)@.operand_in_range(x + 1),
        ensures
            final(self)@ == (Machine {
                v: Seq::new(
                    old(self)@.v.len(),
                    |r: int|
                        if r <= x {
                            old(self)@.ram[old(self)@.i + r]
                        } else {
                            old(self)@.v[r]
                        },
                ),
                ..old(self)@
            }),
    {
        proof {
            use_type_invariant(&*self);
        }
        let at = self.i_reg as usize;
        let count = x as usize + 1;
        let mut r: usize = 0;
        while r < count
            invariant
                r <= count == x + 1 <= 16,
                at == self.i_reg,
                at + count <= RAM_SIZE,
                self.inv(),
                self@ == (Machine { v: self.v_reg@, ..old(self)@ }),
                forall|j: int|
                    0 <= j < NUM_REGISTERS ==> self.v_reg@[j] == if j < r {
                        old(self)@.ram[at + j]
                    } else {
                        old(self)@.v[j]
                    },
            decreases count - r,
        {
            self.v_reg[r] = self.ram[at + r];
            r += 1;
        }
        assert(self.v_reg@ =~= Seq::new(
            old(self)@.v.len(),
            |r: int|
                if r <= x {
                    old(self)@.ram[old(self)@.i + r]
                } else {
                    old(self)@.v[r]
                },
        ));
    }

    /// Sets `Vx` to `val` and then `VF` to `flag`.
    fn set_reg_and_flag(&mut self, x: u8, val: u8, flag: u8)
        requires
            x < 16,
        ensures
            final(self)@ == old(self)@.with_reg_and_flag(x, val, flag),
    {
        proof {
            use_type_invariant(&*self);
        }
        self.v_reg[x as usize] = val;
        self.v_reg[FLAG] = flag;
    }

    /// Executes an instruction that only moves the program counter or the
    /// call stack.
    fn execute_flow(&mut self, ins: Instruction) -> (r: Result<(), FatalError>)
        requires
            ins.wf(),
            is_flow(ins),
            old(self)@.pc + 1 < RAM_SIZE,
        ensures
            final(self)@.wf(),
            match r {
                Ok(()) => old(self)@.execute(ins) == Ok::<Machine, FatalError>(final(self)@),
                Err(e) => old(self)@.execute(ins) == Err::<Machine, FatalError>(e)
                    && final(self)@ == old(self)@,
            },
    {
        proof {
            use_type_invariant(&*self);
        }
        let next: u16 = self.program_counter + 2;
        match ins {
            Instruction::Return => {
                if self.stack_pointer == 0 {
                    return Err(FatalError::StackUnderflow);
                }
                self.stack_pointer -= 1;
                self.program_counter = self.stack[self.stack_pointer as usize];
            },
            Instruction::Jump { addr } => {
                self.program_counter = addr;
            },
            Instruction::Call { addr } => {
                if self.stack_pointer as usize >= STACK_SIZE {
                    return Err(FatalError::StackOverflow);
                }
                self.stack[self.stack_pointer as usize] = next;
                self.stack_pointer += 1;
                self.program_counter = addr;
            },
            Instruction::JumpOffset { addr } => {
                self.program_counter = addr + self.v_reg[0] as u16;
            },
            Instruction::SkipEqImm { x, nn } => {
                self.skip_if(self.v_reg[x as usize] == nn);
            },
            Instruction::SkipNeImm { x, nn } => {
                self.skip_if(self.v_reg[x as usize] != nn);
            },
            Instruction::SkipEqReg { x, y } => {
                self.skip_if(self.v_reg[x as usize] == self.v_reg[y as usize]);
            },
            Instruction::SkipNeReg { x, y } => {
                self.skip_if(self.v_reg[x as usize] != self.v_reg[y as usize]);
            },
            Instruction::SkipKey { x } => {
                let key = (self.v_reg[x as usize] % 16) as usize;
                self.skip_if(self.keys[key]);
            },
            Instruction::SkipNoKey { x } => {
                let key = (self.v_reg[x as usize] % 16) as usize;
                self.skip_if(!self.keys[key]);
            },
            _ => {},
        }
        Ok(())
    }

    /// Moves the program counter past the current instruction, and past the
    /// next one too if `skip` holds.
    fn skip_if(&mut self, skip: bool)
        requires
            old(self)@.pc + 1 < RAM_SIZE,
        ensures
            final(self)@ == old(self)@.advanced(skip),
    {
        proof {
            use_type_invariant(&*self);
        }
        self.program_counter = if skip {
            self.program_counter + 4
        } else {
            self.program_counter + 2
        };
    }

    /// Sets `Vx` to `val`.
    fn set_reg(&mut self, x: u8, val: u8)
        requires
            x < 16,
        ensures
            final(self)@ == old(self)@.with_reg(x, val),
    {
        proof {
            use_type_invariant(&*self);
        }
        self.v_reg[x as usize] = val;
    }

    /// Draws the next byte from the pseudo-random generator.
    fn next_random(&mut self) -> (byte: u8)
        ensures
            byte == rng_byte(old(self)@.rng),
            final(self)@ == (Machine { rng: rng_next(old(self)@.rng), ..old(self)@ }),
    {
        proof {
            use_type_invariant(&*self);
        }
        let state: u32 = (self.rng_state as u32 * 25173 + 13849) % 65536;
        self.rng_state = state as u16;
        (state / 256) as u8
    }

    /// Executes an instruction that computes a register from registers,
    /// immediates, the delay timer or the random generator.
    fn execute_alu(&mut self, ins: Instruction)
        requires
            ins.wf(),
            is_alu(ins),
            old(self)@.pc + 1 < RAM_SIZE,
        ensures
            final(self)@.wf(),
            old(self)@.execute(ins) == Ok::<Machine, FatalError>(final(self)@),
    {
        proof {
            use_type_invariant(&*self);
        }
        match ins {
            Instruction::LoadImm { x, nn } => {
                self.set_reg(x, nn);
            },
            Instruction::AddImm { x, nn } => {
                let sum: u16 = self.v_reg[x as usize] as u16 + nn as u16;
                self.set_reg(x, (sum % 256) as u8);
            },
            Instruction::Move { x, y } => {
                self.set_reg(x, self.v_reg[y as usize]);
            },
            Instruction::Or { x, y } => {
                self.set_reg(x, self.v_reg[x as usize] | self.v_reg[y as usize]);
            },
            Instruction::And { x, y } => {
                self.set_reg(x, self.v_reg[x as usize] & self.v_reg[y as usize]);
            },
            Instruction::Xor { x, y } => {
                self.set_reg(x, self.v_reg[x as usize] ^ self.v_reg[y as usize]);
            },
            Instruction::Add { x, y } => {
                let sum: u16 = self.v_reg[x as usize] as u16 + self.v_reg[y as usize] as u16;
                let carry: u8 = if sum > 255 {
                    1
                } else {
                    0
                };
                self.set_reg_and_flag(x, (sum % 256) as u8, carry);
            },
            Instruction::Sub { x, y } => {
                let a = self.v_reg[x as usize];
                let b = self.v_reg[y as usize];
                let (diff, flag) = wrapping_difference(a, b);
                self.set_reg_and_flag(x, diff, flag);
            },
            Instruction::SubReverse { x, y } => {
                let a = self.v_reg[y as usize];
                let b = self.v_reg[x as usize];
                let (diff, flag) = wrapping_difference(a, b);
                self.set_reg_and_flag(x, diff, flag);
            },
            Instruction::ShiftRight { x } => {
                let a = self.v_reg[x as usize];
                self.set_reg_and_flag(x, a / 2, a % 2);
            },
            Instruction::ShiftLeft { x } => {
                let a = self.v_reg[x as usize];
                self.set_reg_and_flag(x, ((a as u16 * 2) % 256) as u8, a / 128);
            },
            Instruction::Random { x, nn } => {
                let byte = self.next_random();
                self.set_reg(x, byte & nn);
            },
            Instruction::ReadDelay { x } => {
                self.set_reg(x, self.delay_timer);
            },
            _ => {},
        }
        self.skip_if(false);
    }

    /// Draws the sprite of `n` rows at `I` at `(vx, vy)` and sets `VF` to
    /// whether a pixel went off.
    fn draw(&mut self, vx: u8, vy: u8, n: u8)
        requires
            n < 16,
            old(self)@.operand_in_range(n as int),
        ensures
            final(self)@ == (Machine {
                screen: drawn_screen(old(self)@.screen, old(self)@.operand(n as int), vx, vy),
                v: old(self)@.v.update(
                    FLAG as int,
                    flag_of(collides(old(self)@.screen, old(self)@.operand(n as int), vx, vy)),
                ),
                ..old(self)@
            }),
    {
        proof {
            use_type_invariant(&*self);
        }
        let rows = n as usize;
        let start = if rows == 0 {
            0
        } else {
            self.i_reg as usize
        };
        assert(self@.operand(n as int) =~= self.ram@.subrange(start as int, start + rows));
        let hit = draw_sprite(&mut self.screen, &self.ram, start, rows, vx, vy);
        self.v_reg[FLAG] = if hit {
            1
        } else {
            0
        };
    }

    /// Executes an instruction that works on memory, the index register,
    /// the timers, the display or the keypad.
    fn execute_system(&mut self, ins: Instruction) -> (r: Result<(), FatalError>)
        requires
            ins.wf(),
            !is_flow(ins),
            !is_alu(ins),
            old(self)@.pc + 1 < RAM_SIZE,
        ensures
            final(self)@.wf(),
            match r {
                Ok(()) => old(self)@.execute(ins) == Ok::<Machine, FatalError>(final(self)@),
                Err(e) => old(self)@.execute(ins) == Err::<Machine, FatalError>(e)
                    && final(self)@ == old(self)@,
            },
    {
        proof {
            use_type_invariant(&*self);
        }
        match ins {
            Instruction::ClearScreen => {
                self.screen = [false; SCREEN_SIZE];
                assert(self.screen@ =~= Seq::new(SCREEN_SIZE as nat, |k: int| false));
            },
            Instruction::LoadIndex { addr } => {
                self.i_reg = addr;
            },
            Instruction::Draw { x, y, n } => {
                if n > 0 && self.i_reg as usize + n as usize > RAM_SIZE {
                    return Err(FatalError::MemoryOutOfRange);
                }
                let vx = self.v_reg[x as usize];
                let vy = self.v_reg[y as usize];
                self.draw(vx, vy, n);
            },
            Instruction::WaitKey { x } => {
                match self.find_key() {
                    Some(key) => {
                        self.set_reg(x, key);
                    },
                    None => {
                        return Ok(());
                    },
                }
            },
            Instruction::SetDelay { x } => {
                self.delay_timer = self.v_reg[x as usize];
            },
            Instruction::SetSound { x } => {
                self.sound_timer = self.v_reg[x as usize];
            },
            Instruction::AddIndex { x } => {
                let sum: u32 = self.i_reg as u32 + self.v_reg[x as usize] as u32;
                self.i_reg = (sum % 65536) as u16;
            },
            Instruction::FontAddr { x } => {
                self.i_reg = (self.v_reg[x as usize] % 16) as u16 * 5;
            },
            Instruction::StoreBcd { x } => {
                if self.i_reg as usize + 3 > RAM_SIZE {
                    return Err(FatalError::MemoryOutOfRange);
                }
                let val = self.v_reg[x as usize];
                self.store_bcd(val);
            },
            Instruction::StoreRegs { x } => {
                if self.i_reg as usize + x as usize + 1 > RAM_SIZE {
                    return Err(FatalError::MemoryOutOfRange);
                }
                self.store_regs(x);
            },
            Instruction::LoadRegs { x } => {
                if self.i_reg as usize + x as usize + 1 > RAM_SIZE {
                    return Err(FatalError::MemoryOutOfRange);
                }
                self.load_regs(x);
            },
            _ => {},
        }
        self.skip_if(false);
        Ok(())
    }

    /// Executes `ins` as the instruction at the program counter.
    pub fn execute(&mut self, ins: Instruction) -> (r: Result<(), FatalError>)
        requires
            ins.wf(),
        ensures
            final(self)@.wf(),
            match r {
                Ok(()) => old(self)@.execute(ins) == Ok::<Machine, FatalError>(final(self)@),
                Err(e) => old(self)@.execute(ins) == Err::<Machine, FatalError>(e)
                    && final(self)@ == old(self)@,
            },
    {
        proof {
            use_type_invariant(&*self);
        }
        if self.program_counter as usize + 1 >= RAM_SIZE {
            return Err(FatalError::MemoryOutOfRange);
        }
        match ins {
            Instruction::Return
            | Instruction::Jump { .. }
            | Instruction::Call { .. }
            | Instruction::JumpOffset { .. }
            | Instruction::SkipEqImm { .. }
            | Instruction::SkipNeImm { .. }
            | Instruction::SkipEqReg { .. }
            | Instruction::SkipNeReg { .. }
            | Instruction::SkipKey { .. }
            | Instruction::SkipNoKey { .. } => self.execute_flow(ins),
            Instruction::LoadImm { .. }
            | Instruction::AddImm { .. }
            | Instruction::Move { .. }
            | Instruction::Or { .. }
            | Instruction::And { .. }
            | Instruction::Xor { .. }
            | Instruction::Add { .. }
            | Instruction::Sub { .. }
            | Instruction::SubReverse { .. }
            | Instruction::ShiftRight { .. }
            | Instruction::ShiftLeft { .. }
            | Instruction::Random { .. }
            | Instruction::ReadDelay { .. } => {
                self.execute_alu(ins);
                Ok(())
            },
            _ => self.execute_system(ins),
        }
    }

    /// Whether the machine is blocked on a key-wait instruction with no key
    /// down, so that further cycles change nothing until a key is reported.
    pub fn awaiting_key(&self) -> (blocked: bool)
        ensures
            blocked == self@.awaiting_key(),
    {
        match self.fetch() {
            Err(_) => false,
            Ok(word) => match Instruction::decode(word) {
                Some(Instruction::WaitKey { .. }) => self.find_key().is_none(),
                _ => false,
            },
        }
    }

    /// Runs one instruction cycle: fetch, decode, execute.
    pub fn tick(&mut self) -> (r: Result<(), FatalError>)
        ensures
            final(self)@.wf(),
            match r {
                Ok(()) => old(self)@.step() == Ok::<Machine, FatalError>(final(self)@),
                Err(e) => old(self)@.step() == Err::<Machine, FatalError>(e) && final(self)@
                    == old(self)@,
            },
    {
        match self.fetch() {
            Err(e) => Err(e),
            Ok(word) => match Instruction::decode(word) {
                None => Err(FatalError::UnknownOpcode(word)),
                Some(ins) => self.execute(ins),
            },
        }
    }
}

} // verus!
