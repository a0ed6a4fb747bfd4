//! A verified CHIP-8 virtual machine core.
//!
//! The crate models the classic CHIP-8 interpreter: a 4096-byte address
//! space, sixteen 8-bit registers, a bounded call stack, a 64x32 monochrome
//! framebuffer with wrap-around sprite drawing, a 16-key input latch and two
//! 8-bit timers.  The decode-execute engine is specified by a mathematical
//! small-step transition function over a ghost view of the machine state, and
//! every instruction handler is proved to implement it.  Illegal opcodes,
//! out-of-range indices and call-stack misuse surface as typed errors instead
//! of corrupting the state.

pub mod state;
pub mod font;
pub mod vm;
pub mod draw;
pub mod isa;
pub mod engine;
pub mod keymap;
pub mod laws;
