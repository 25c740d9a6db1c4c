//! A verified CHIP-8 virtual machine: a 4096-byte memory image, sixteen 8-bit
//! registers, a call stack, two countdown timers, a 16-key keypad and a 64x32
//! monochrome framebuffer, driven one fetch-decode-execute step at a time.
//!
//! The whole instruction set is given a mathematical semantics (`step::spec_step`)
//! over a ghost view of the machine, and the executable interpreter is proved to
//! follow it exactly. A driver owns the frame loop: it loads a ROM, calls
//! `Chip8::emulate_cycle` at its own cadence, presents the framebuffer when the
//! redraw signal is up, feeds key transitions in through `Chip8::set_key`, and
//! ticks the timers at 60 Hz through `Chip8::tick_timers`.

pub mod font;
pub mod laws;
pub mod model;
mod rng;
pub mod step;
pub mod vm;

pub use model::CapacityError;
pub use model::Fault;
pub use model::Status;
pub use vm::Chip8;
