//! A cycle-stepped emulator core for an 8-bit handheld console in its
//! monochrome and colour generations: instruction interpreter, video
//! controller, memory-mapping unit, timer, joypad latch and the cartridge
//! bank controllers. Every function carries a contract. Verus proves them
//! all but those of the two wrappers round the standard library's word
//! splitting and the hexadecimal decoder in `debugger`, which it takes on
//! trust.
pub mod alu;
pub mod bits;
pub mod boot;
pub mod cpu;
pub mod debugger;
pub mod display;
pub mod fault;
pub mod gpu;
pub mod input;
pub mod mbc;
pub mod mmu;
pub mod ram;
pub mod registers;
pub mod timer;

use vstd::prelude::*;

verus! {

pub const SCREEN_WIDTH: u8 = 160;

pub const SCREEN_HEIGHT: u8 = 144;

/// Interrupt source bits, in priority order.
pub const V_BLANK_INTERRUPT: u8 = 1;

pub const STAT_INTERRUPT: u8 = 2;

pub const TIMER_INTERRUPT: u8 = 4;

pub const SERIAL_INTERRUPT: u8 = 8;

pub const JOYPAD_INTERRUPT: u8 = 16;

/// An RGB triple as handed to the presentation layer.
#[derive(Clone, Copy, Debug, PartialEq, Eq, Structural)]
pub struct Color {
    pub r: u8,
    pub g: u8,
    pub b: u8,
}

impl Color {
    pub fn rgb(r: u8, g: u8, b: u8) -> (color: Color)
        ensures
            color == (Color { r, g, b }),
    {
        Color { r, g, b }
    }
}

impl Default for Color {
    fn default() -> (color: Color)
        ensures
            color == (Color { r: 0, g: 0, b: 0 }),
    {
        Color { r: 0, g: 0, b: 0 }
    }
}

} // verus!
