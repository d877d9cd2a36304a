//! A verified CHIP-8 virtual machine.
//!
//! The interpreter fetches two-byte instructions from a 4096-byte memory
//! image, decodes them by nibble pattern, and mutates a small bounded
//! machine state: sixteen byte registers, an address register, a program
//! counter, a call stack, two timers, a 64x32 monochrome framebuffer and a
//! sixteen-key keyboard latch.  Every public operation carries a contract
//! that pins its behaviour down to an abstract transition function over a
//! mathematical model of that state.

pub mod chip8;
pub mod constant;
pub mod decode;
pub mod laws;
pub mod state;
