//! A CHIP-8 virtual machine: 4 KiB of memory, sixteen 8-bit registers, a
//! 64x32 one-bit framebuffer, a sixteen-key pad and two countdown timers.
//!
//! `model` holds the mathematical machine and the meaning of every
//! instruction; `chip8` holds the executable interpreter, proved to follow it;
//! `laws` states what holds across instructions.

pub mod chance;
pub mod chip8;
pub mod font;
pub mod laws;
pub mod model;
pub mod sprite;
