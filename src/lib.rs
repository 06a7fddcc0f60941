//! A CHIP-8 interpreter core: machine state, the fetch-decode-execute cycle,
//! and the framebuffer, keypad and timers it drives. Host concerns (reading
//! program files, pacing, drawing, sound) stay with the caller.
pub mod chip8;
pub mod display;
pub mod host;
pub mod keypad;
pub mod laws;
pub mod timers;
