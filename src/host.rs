use vstd::prelude::*;

verus! {

/// Prepares the host's graphics surface. The library keeps the framebuffer
/// itself, so it has nothing to set up here.
pub fn setup_graphics() {
}

/// Prepares the host's input source. Key states are handed to the machine
/// through `Chip8::set_key`, so there is nothing to set up here.
pub fn setup_input() {
}

/// Hands a frame to the host's graphics surface. The host reads the
/// framebuffer through `Chip8::pixel_at`; nothing is buffered here.
pub fn draw_graphics() {
}

} // verus!
