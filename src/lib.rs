//! A deterministic 16-bit virtual machine with a 256x256 RGB565 screen,
//! together with the host-side encodings it relies on: program images,
//! pixel conversion and input codes.
pub mod cli;
pub mod display;
pub mod engine;
pub mod input;
pub mod laws;
pub mod program;
