use vstd::prelude::*;
use crate::decode::decoded;
use crate::decode::Instruction;
use crate::display::collides;
use crate::display::drawn_screen;
use crate::error::FatalError;
use crate::machine::rng_byte;
use crate::machine::rng_next;
use crate::machine::Machine;
use crate::machine::FLAG;
use crate::machine::RAM_SIZE;
use crate::machine::SCREEN_SIZE;

verus! {

/// Whether some key of the latch is down.
pub open spec fn any_key_down(keys: Seq<bool>) -> bool {
    exists|k: int| 0 <= k < keys.len() && keys[k]
}

/// Whether `k` is the lowest-numbered key that is down.
pub open spec fn is_first_key_down(keys: Seq<bool>, k: int) -> bool {
    &&& 0 <= k < keys.len()
    &&& keys[k]
    &&& forall|j: int| 0 <= j < k ==> !keys[j]
}

/// The lowest-numbered key that is down, where one is.
pub open spec fn first_key_down(keys: Seq<bool>) -> int {
    choose|k: int| is_first_key_down(keys, k)
}

/// The key that a register value names: its low nibble.
pub open spec fn key_named(val: u8) -> int {
    val as int % 16
}

/// The flag value for a condition: 1 if it holds, else 0.
pub open spec fn flag_of(cond: bool) -> u8 {
    if cond {
        1
    } else {
        0
    }
}

impl Machine {
    /// The opcode word at the program counter: two bytes, the high one
    /// first. Both must lie in memory.
    pub open spec fn fetch(self) -> Result<u16, FatalError> {
        if self.pc + 1 < RAM_SIZE {
            Ok((self.ram[self.pc as int] * 256 + self.ram[self.pc + 1]) as u16)
        } else {
            Err(FatalError::MemoryOutOfRange)
        }
    }

    /// The state with the program counter moved past the current
    /// instruction, and past the one after it too if `skip` holds.
    pub open spec fn advanced(self, skip: bool) -> Machine {
        Machine { pc: (self.pc + (if skip { 4int } else { 2int })) as u16, ..self }
    }

    /// The state with `Vx` set to `val`.
    pub open spec fn with_reg(self, x: u8, val: u8) -> Machine {
        Machine { v: self.v.update(x as int, val), ..self }
    }

    /// The state with `Vx` set to `val` and then `VF` set to `flag`: where
    /// `x` names `VF` itself, the flag is what stays.
    pub open spec fn with_reg_and_flag(self, x: u8, val: u8, flag: u8) -> Machine {
        Machine { v: self.v.update(x as int, val).update(FLAG as int, flag), ..self }
    }

    /// Whether the `len` bytes from `I` on all lie in memory.
    pub open spec fn operand_in_range(self, len: int) -> bool {
        len <= 0 || self.i + len <= RAM_SIZE
    }

    /// The `len` bytes of memory from `I` on.
    pub open spec fn operand(self, len: int) -> Seq<u8> {
        Seq::new(len as nat, |r: int| self.ram[self.i + r])
    }

    /// The state after `ins` was executed as the instruction at the
    /// program counter, or the error that stops it.
    ///
    /// Conventions where the architecture leaves a choice: the shifts work
    /// on `Vx` alone; `FX55` and `FX65` leave `I` as it is; `FX1E` wraps at
    /// sixteen bits and leaves `VF` alone; key and glyph numbers are the low
    /// nibble of `Vx`; a memory operand that reaches past the end of memory
    /// is an error.
    pub open spec fn execute(self, ins: Instruction) -> Result<Machine, FatalError> {
        if self.pc + 1 >= RAM_SIZE {
            Err(FatalError::MemoryOutOfRange)
        } else {
            match ins {
                Instruction::ClearScreen => Ok(
                    Machine {
                        screen: Seq::new(SCREEN_SIZE as nat, |k: int| false),
                        ..self
                    }.advanced(false),
                ),
                Instruction::Return => match self.pop() {
                    Ok((m, addr)) => Ok(Machine { pc: addr, ..m }),
                    Err(e) => Err(e),
                },
                Instruction::Jump { addr } => Ok(Machine { pc: addr, ..self }),
                Instruction::Call { addr } => match self.push((self.pc + 2) as u16) {
                    Ok(m) => Ok(Machine { pc: addr, ..m }),
                    Err(e) => Err(e),
                },
                Instruction::SkipEqImm { x, nn } => Ok(self.advanced(self.v[x as int] == nn)),
                Instruction::SkipNeImm { x, nn } => Ok(self.advanced(self.v[x as int] != nn)),
                Instruction::SkipEqReg { x, y } => Ok(
                    self.advanced(self.v[x as int] == self.v[y as int]),
                ),
                Instruction::SkipNeReg { x, y } => Ok(
                    self.advanced(self.v[x as int] != self.v[y as int]),
                ),
                Instruction::LoadImm { x, nn } => Ok(self.with_reg(x, nn).advanced(false)),
                Instruction::AddImm { x, nn } => Ok(
                    self.with_reg(x, ((self.v[x as int] + nn) % 256) as u8).advanced(false),
                ),
                Instruction::Move { x, y } => Ok(
                    self.with_reg(x, self.v[y as int]).advanced(false),
                ),
                Instruction::Or { x, y } => Ok(
                    self.with_reg(x, self.v[x as int] | self.v[y as int]).advanced(false),
                ),
                Instruction::And { x, y } => Ok(
                    self.with_reg(x, self.v[x as int] & self.v[y as int]).advanced(false),
                ),
                Instruction::Xor { x, y } => Ok(
                    self.with_reg(x, self.v[x as int] ^ self.v[y as int]).advanced(false),
                ),
                Instruction::Add { x, y } => {
                    let sum = self.v[x as int] + self.v[y as int];
                    Ok(
                        self.with_reg_and_flag(
                            x,
                            (sum % 256) as u8,
                            flag_of(sum > 255),
                        ).advanced(false),
                    )
                },
                Instruction::Sub { x, y } => {
                    let a = self.v[x as int];
                    let b = self.v[y as int];
                    Ok(
                        self.with_reg_and_flag(
                            x,
                            ((a - b) % 256) as u8,
                            flag_of(a >= b),
                        ).advanced(false),
                    )
                },
                Instruction::SubReverse { x, y } => {
                    let a = self.v[y as int];
                    let b = self.v[x as int];
                    Ok(
                        self.with_reg_and_flag(
                            x,
                            ((a - b) % 256) as u8,
                            flag_of(a >= b),
                        ).advanced(false),
                    )
                },
                Instruction::ShiftRight { x } => {
                    let a = self.v[x as int];
                    Ok(self.with_reg_and_flag(x, a / 2, a % 2).advanced(false))
                },
                Instruction::ShiftLeft { x } => {
                    let a = self.v[x as int];
                    Ok(
                        self.with_reg_and_flag(x, ((a * 2) % 256) as u8, a / 128).advanced(
                            false,
                        ),
                    )
                },
                Instruction::LoadIndex { addr } => Ok(Machine { i: addr, ..self }.advanced(false)),
                Instruction::JumpOffset { addr } => Ok(
                    Machine { pc: (addr + self.v[0]) as u16, ..self },
                ),
                Instruction::Random { x, nn } => Ok(
                    Machine { rng: rng_next(self.rng), ..self }.with_reg(
                        x,
                        rng_byte(self.rng) & nn,
                    ).advanced(false),
                ),
                Instruction::Draw { x, y, n } => {
                    let vx = self.v[x as int];
                    let vy = self.v[y as int];
                    if self.operand_in_range(n as int) {
                        Ok(
                            Machine {
                                screen: drawn_screen(self.screen, self.operand(n as int), vx, vy),
                                v: self.v.update(
                                    FLAG as int,
                                    flag_of(collides(self.screen, self.operand(n as int), vx, vy)),
                                ),
                                ..self
                            }.advanced(false),
                        )
                    } else {
                        Err(FatalError::MemoryOutOfRange)
                    }
                },
                Instruction::SkipKey { x } => Ok(
                    self.advanced(self.keys[key_named(self.v[x as int])]),
                ),
                Instruction::SkipNoKey { x } => Ok(
                    self.advanced(!self.keys[key_named(self.v[x as int])]),
                ),
                Instruction::ReadDelay { x } => Ok(self.with_reg(x, self.delay).advanced(false)),
                Instruction::WaitKey { x } => if any_key_down(self.keys) {
                    Ok(self.with_reg(x, first_key_down(self.keys) as u8).advanced(false))
                } else {
                    Ok(self)
                },
                Instruction::SetDelay { x } => Ok(
                    Machine { delay: self.v[x as int], ..self }.advanced(false),
                ),
                Instruction::SetSound { x } => Ok(
                    Machine { sound: self.v[x as int], ..self }.advanced(false),
                ),
                Instruction::AddIndex { x } => Ok(
                    Machine { i: ((self.i + self.v[x as int]) % 65536) as u16, ..self }.advanced(
                        false,
                    ),
                ),
                Instruction::FontAddr { x } => Ok(
                    Machine { i: ((self.v[x as int] % 16) * 5) as u16, ..self }.advanced(false),
                ),
                Instruction::StoreBcd { x } => {
                    let a = self.v[x as int];
                    if self.operand_in_range(3) {
                        Ok(
                            Machine {
                                ram: self.ram.update(self.i as int, a / 100).update(
                                    self.i + 1,
                                    (a / 10) % 10,
                                ).update(self.i + 2, a % 10),
                                ..self
                            }.advanced(false),
                        )
                    } else {
                        Err(FatalError::MemoryOutOfRange)
                    }
                },
                Instruction::StoreRegs { x } => if self.operand_in_range(x + 1) {
                    Ok(
                        Machine {
                            ram: Seq::new(
                                self.ram.len(),
                                |a: int|
                                    if self.i <= a <= self.i + x {
                                        self.v[a - self.i]
                                    } else {
                                        self.ram[a]
                                    },
                            ),
                            ..self
                        }.advanced(false),
                    )
                } else {
                    Err(FatalError::MemoryOutOfRange)
                },
                Instruction::LoadRegs { x } => if self.operand_in_range(x + 1) {
                    Ok(
                        Machine {
                            v: Seq::new(
                                self.v.len(),
                                |r: int|
                                    if r <= x {
                                        self.ram[self.i + r]
                                    } else {
                                        self.v[r]
                                    },
                            ),
                            ..self
                        }.advanced(false),
                    )
                } else {
                    Err(FatalError::MemoryOutOfRange)
                },
            }
        }
    }

    /// The instruction at the program counter, where the word there can be
    /// fetched and is an instruction.
    pub open spec fn current(self) -> Option<Instruction> {
        match self.fetch() {
            Err(_) => None,
            Ok(word) => decoded(word),
        }
    }

    /// Whether the machine is blocked: the instruction at the program
    /// counter is a key-wait and no key is down. A blocked machine stays as
    /// it is, cycle after cycle, until the host reports a key.
    pub open spec fn awaiting_key(self) -> bool {
        self.current() matches Some(Instruction::WaitKey { .. }) && !any_key_down(self.keys)
    }

    /// One instruction cycle: fetch the opcode word at the program counter,
    /// decode it and execute the instruction. A word that is no instruction
    /// is reported with the word itself.
    pub open spec fn step(self) -> Result<Machine, FatalError> {
        match self.fetch() {
            Err(e) => Err(e),
            Ok(word) => match decoded(word) {
                None => Err(FatalError::UnknownOpcode(word)),
                Some(ins) => self.execute(ins),
            },
        }
    }
}

} // verus!
