//! A CHIP-8 interpreter core whose instruction semantics are stated over a
//! mathematical model of the machine and proved for the executable code.

pub mod cpu;
pub mod display;
pub mod input;
pub mod instruction;
pub mod laws;
pub mod machine;
pub mod stack;
pub mod timer;

use vstd::prelude::*;

verus! {

/// Width of the framebuffer in pixels.
pub const VRAM_WIDTH: usize = 64;

/// Height of the framebuffer in pixels.
pub const VRAM_HEIGHT: usize = 32;

} // verus!
