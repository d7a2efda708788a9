//! A verified CHIP-8 virtual machine core: memory, registers, call stack,
//! framebuffer, timers, instruction decode and execution. Rendering, audio
//! and physical input are left to the surrounding driver.

pub mod chip8;
pub mod display;
pub mod font;
pub mod instr;
pub mod keypad;

