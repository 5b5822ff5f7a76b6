//! A verified CHIP-8 virtual machine: memory, registers, call stack, timers,
//! keypad and a 64×32 monochrome frame buffer, advanced one instruction at a time.
pub mod font;
pub mod model;
pub mod screen;
pub mod machine;
pub mod keypad;
pub mod laws;
