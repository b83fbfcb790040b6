//! The joypad: a latch of eight buttons behind one selectable register.
use vstd::prelude::*;
use crate::JOYPAD_INTERRUPT;

verus! {

pub const SELECT_BUTTON: u8 = 0b00100000;

pub const SELECT_DIRECTION: u8 = 0b00010000;

#[derive(Clone, Copy, Debug, PartialEq, Eq, Structural)]
pub enum Keycode {
    Start,
    Select,
    B,
    A,
    Down,
    Up,
    Left,
    Right,
}

impl Keycode {
    /// The bit of the latch that the key owns: directions in the high
    /// nibble, buttons in the low one.
    pub open spec fn mask(self) -> u8 {
        match self {
            Keycode::Start => 0b00001000,
            Keycode::Select => 0b00000100,
            Keycode::B => 0b00000010,
            Keycode::A => 0b00000001,
            Keycode::Down => 0b10000000,
            Keycode::Up => 0b01000000,
            Keycode::Left => 0b00100000,
            Keycode::Right => 0b00010000,
        }
    }

    pub fn bit(&self) -> (mask: u8)
        ensures
            mask == self.mask(),
    {
        match self {
            Keycode::Start => 0b00001000,
            Keycode::Select => 0b00000100,
            Keycode::B => 0b00000010,
            Keycode::A => 0b00000001,
            Keycode::Down => 0b10000000,
            Keycode::Up => 0b01000000,
            Keycode::Left => 0b00100000,
            Keycode::Right => 0b00010000,
        }
    }
}

#[derive(Clone, Copy, Debug, PartialEq, Eq, Structural)]
pub struct Input {
    pub joypad: u8,
    pub buttons: u8,
    pub interrupt: u8,
}

impl Input {
    /// The joypad register as it reads: the direction nibble when the
    /// direction selector bit is clear, else the button nibble when the
    /// button selector bit is clear, else neither; bits 6 and 7 read high.
    pub open spec fn register(&self) -> u8 {
        if self.joypad & SELECT_DIRECTION == 0 {
            self.joypad | ((0b11110000 & self.buttons) >> 4) | 0b11000000
        } else if self.joypad & SELECT_BUTTON == 0 {
            self.joypad | (0b00001111 & self.buttons) | 0b11000000
        } else {
            self.joypad | 0b11000000
        }
    }

    pub fn new() -> (input: Input)
        ensures
            input == (Input { joypad: 0b00110000, buttons: 0xFF, interrupt: 0 }),
    {
        Input { joypad: 0b00110000, buttons: 0xFF, interrupt: 0 }
    }

    /// Toggles the key's bit in the latch and raises the joypad interrupt.
    pub fn key_pressed(&mut self, key: Keycode)
        ensures
            *final(self) == (Input {
                buttons: old(self).buttons ^ key.mask(),
                interrupt: JOYPAD_INTERRUPT,
                ..*old(self)
            }),
    {
        self.interrupt = JOYPAD_INTERRUPT;
        self.buttons = self.buttons ^ key.bit();
    }

    /// Toggles the key's bit in the latch.
    pub fn key_released(&mut self, key: Keycode)
        ensures
            *final(self) == (Input { buttons: old(self).buttons ^ key.mask(), ..*old(self) }),
    {
        self.buttons = self.buttons ^ key.bit();
    }

    /// Stores the selector bits; the low nibble is not writable.
    pub fn write_joypad(&mut self, value: u8)
        ensures
            *final(self) == (Input { joypad: value & 0b11110000, ..*old(self) }),
    {
        self.joypad = value & 0b11110000;
    }

    pub fn read_joypad(&self) -> (value: u8)
        ensures
            value == self.register(),
            value & 0b11000000 == 0b11000000,
    {
        proof {
            lemma_high_bits(self.joypad, self.buttons);
        }
        if self.joypad & SELECT_DIRECTION == 0 {
            self.joypad | ((0b11110000 & self.buttons) >> 4) | 0b11000000
        } else if self.joypad & SELECT_BUTTON == 0 {
            self.joypad | (0b00001111 & self.buttons) | 0b11000000
        } else {
            self.joypad | 0b11000000
        }
    }
}

proof fn lemma_high_bits(joypad: u8, buttons: u8)
    by (bit_vector)
    ensures
        (joypad | ((0b11110000 & buttons) >> 4) | 0b11000000) & 0b11000000 == 0b11000000,
        (joypad | (0b00001111 & buttons) | 0b11000000) & 0b11000000 == 0b11000000,
        (joypad | 0b11000000) & 0b11000000 == 0b11000000,
{
}

proof fn lemma_toggle_twice(buttons: u8, mask: u8)
    by (bit_vector)
    ensures
        (buttons ^ mask) ^ mask == buttons,
{
}

/// A press followed by the release of the same key leaves the latch as it
/// was.
pub proof fn lemma_press_release(buttons: u8, key: Keycode)
    ensures
        (buttons ^ key.mask()) ^ key.mask() == buttons,
{
    lemma_toggle_twice(buttons, key.mask());
}

} // verus!
