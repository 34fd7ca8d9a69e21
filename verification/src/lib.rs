//! Interpreter core for the CHIP-8 virtual machine.
//!
//! [`Machine`] is the mathematical model of the architectural state together
//! with its transition functions; [`Emu`] is the executable machine, every
//! operation of which is proved to follow the model.

pub mod decode;
pub mod display;
pub mod emu;
pub mod error;
pub mod font;
pub mod laws;
pub mod machine;
pub mod semantics;

pub use decode::Instruction;
pub use emu::Emu;
pub use error::FatalError;
pub use font::FONT;
pub use font::FONT_SIZE;
pub use machine::Machine;
pub use machine::SCREEN_HEIGHT;
pub use machine::SCREEN_WIDTH;
