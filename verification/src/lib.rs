//! A verified interpreter for the classic CHIP-8 virtual machine.
//!
//! The machine holds 4096 bytes of memory, sixteen 8-bit registers, a
//! 16-bit index register and program counter, a bounded call stack, two
//! timers, a 64 x 32 monochrome display and a 16-key keypad.  Programs
//! are loaded at address 0x200 and run one two-byte, big-endian
//! instruction per `execute` call.

pub mod draw;
pub mod instr;
pub mod laws;
pub mod machine;
pub mod rng;
pub mod state;
pub mod step;
