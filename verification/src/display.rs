//! The geometry of the window: where on it each framebuffer cell is painted,
//! and in which colour.

use crate::{VRAM_HEIGHT, VRAM_WIDTH};
use vstd::prelude::*;

verus! {

/// Side of the square of window pixels that one framebuffer cell is painted as.
pub const SCALE_FACTOR: u32 = 20;

/// Width of the window in pixels.
pub const SCREEN_WIDTH: u32 = (VRAM_WIDTH as u32) * SCALE_FACTOR;

/// Height of the window in pixels.
pub const SCREEN_HEIGHT: u32 = (VRAM_HEIGHT as u32) * SCALE_FACTOR;

/// A rectangle of the window: its top left corner and its size.
#[derive(Clone, Copy, Debug, PartialEq, Eq, Structural)]
pub struct CellRect {
    pub x: i32,
    pub y: i32,
    pub width: u32,
    pub height: u32,
}

/// A colour, by its red, green and blue parts.
#[derive(Clone, Copy, Debug, PartialEq, Eq, Structural)]
pub struct CellColor {
    pub r: u8,
    pub g: u8,
    pub b: u8,
}

/// The rectangle of the window that the cell in column `x` and row `y` of the
/// framebuffer is painted as.
pub fn cell_rect(x: usize, y: usize) -> (rect: CellRect)
    requires
        x < VRAM_WIDTH,
        y < VRAM_HEIGHT,
    ensures
        rect.x == x * SCALE_FACTOR,
        rect.y == y * SCALE_FACTOR,
        rect.width == SCALE_FACTOR,
        rect.height == SCALE_FACTOR,
        rect.x + rect.width <= SCREEN_WIDTH,
        rect.y + rect.height <= SCREEN_HEIGHT,
{
    CellRect {
        x: (x as u32 * SCALE_FACTOR) as i32,
        y: (y as u32 * SCALE_FACTOR) as i32,
        width: SCALE_FACTOR,
        height: SCALE_FACTOR,
    }
}

/// The colour in which a cell is painted: black for 0 and full green for 1,
/// which is the cell's value times 255 in the green part. Any other value is
/// painted as 1 is.
pub fn cell_color(value: u8) -> (color: CellColor)
    ensures
        color.r == 0,
        color.b == 0,
        color.g == if value == 0 { 0u8 } else { 255u8 },
        value <= 1 ==> color.g == value * 255,
{
    CellColor {
        r: 0,
        g: if value == 0 {
            0
        } else {
            255
        },
        b: 0,
    }
}

} // verus!
