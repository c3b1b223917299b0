//! A CHIP-8 virtual machine: the instruction decoder and the execution
//! engine, with the behaviour of every instruction stated over a
//! mathematical model of the machine and proved.
//!
//! - `opcode` decodes a 16-bit instruction word into an `Opcode`.
//! - `machine` is the model: the state as plain values and the meaning of
//!   every operation, of a whole cycle, of loading and of the keypad.
//! - `cpu` is the engine: `CPU` holds the state, and each of its methods is
//!   proved to do to the state what the model says.
//! - `display`, `alu` and `random` hold what the engine draws, computes and
//!   draws lots with.
//! - `laws` holds what follows for every program.
//!
//! A host creates a `CPU`, loads a program, and calls `emulate_cycle` as
//! often as it likes. Between cycles it may hand over the state of the
//! keys with `set_keys`, show `framebuffer`, and sound a tone while
//! `sound_active` holds. A cycle that fails reports why and leaves the
//! machine as it was.

pub mod alu;
pub mod cpu;
pub mod display;
pub mod error;
pub mod font;
pub mod laws;
pub mod machine;
pub mod opcode;
pub mod random;
