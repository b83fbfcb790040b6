//! The register file: eight 8-bit registers, their 16-bit pairings, the
//! stack pointer, the program counter, and the four flags held in the top
//! nibble of `F`.
use vstd::prelude::*;

verus! {

pub const ZERO_FLAG_MASK: u8 = 0b10000000;

pub const SUBTRACT_FLAG_MASK: u8 = 0b01000000;

pub const HALF_CARRY_FLAG_MASK: u8 = 0b00100000;

pub const CARRY_FLAG_MASK: u8 = 0b00010000;

/// The four condition flags as separate truth values.
#[derive(Clone, Copy, Debug, PartialEq, Eq, Structural)]
pub struct Flags {
    pub zero: bool,
    pub subtract: bool,
    pub half_carry: bool,
    pub carry: bool,
}

/// The byte that `F` holds for the given flags: bit 7 zero, bit 6 subtract,
/// bit 5 half-carry, bit 4 carry, low nibble clear.
pub open spec fn flags_byte(flags: Flags) -> u8 {
    ((if flags.zero { 128int } else { 0 })
        + (if flags.subtract { 64int } else { 0 })
        + (if flags.half_carry { 32int } else { 0 })
        + (if flags.carry { 16int } else { 0 })) as u8
}

/// The flags that a value of `F` encodes.
pub open spec fn flags_of(f: u8) -> Flags {
    Flags {
        zero: f >= 128,
        subtract: f % 128 >= 64,
        half_carry: f % 64 >= 32,
        carry: f % 32 >= 16,
    }
}

/// The value of a register pair: `hi` is the more significant byte.
pub open spec fn pair(hi: u8, lo: u8) -> u16 {
    (hi as int * 256 + lo as int) as u16
}

/// The more significant byte of a 16-bit value.
pub open spec fn high_byte(value: u16) -> u8 {
    (value / 256) as u8
}

/// The less significant byte of a 16-bit value.
pub open spec fn low_byte(value: u16) -> u8 {
    (value % 256) as u8
}

proof fn lemma_flag_masks(f: u8)
    by (bit_vector)
    ensures
        (f & 0x80u8 > 0) == (f >= 128),
        (f & 0x40u8 > 0) == (f % 128 >= 64),
        (f & 0x20u8 > 0) == (f % 64 >= 32),
        (f & 0x10u8 > 0) == (f % 32 >= 16),
        ((f | 0x80u8) >= 128) == true,
        ((f | 0x80u8) % 128 >= 64) == (f % 128 >= 64),
        ((f | 0x80u8) % 64 >= 32) == (f % 64 >= 32),
        ((f | 0x80u8) % 32 >= 16) == (f % 32 >= 16),
        (f | 0x80u8) % 16 == f % 16,
        ((f & !0x80u8) >= 128) == false,
        ((f & !0x80u8) % 128 >= 64) == (f % 128 >= 64),
        ((f & !0x80u8) % 64 >= 32) == (f % 64 >= 32),
        ((f & !0x80u8) % 32 >= 16) == (f % 32 >= 16),
        (f & !0x80u8) % 16 == f % 16,
        ((f | 0x40u8) >= 128) == (f >= 128),
        ((f | 0x40u8) % 128 >= 64) == true,
        ((f | 0x40u8) % 64 >= 32) == (f % 64 >= 32),
        ((f | 0x40u8) % 32 >= 16) == (f % 32 >= 16),
        (f | 0x40u8) % 16 == f % 16,
        ((f & !0x40u8) >= 128) == (f >= 128),
        ((f & !0x40u8) % 128 >= 64) == false,
        ((f & !0x40u8) % 64 >= 32) == (f % 64 >= 32),
        ((f & !0x40u8) % 32 >= 16) == (f % 32 >= 16),
        (f & !0x40u8) % 16 == f % 16,
        ((f | 0x20u8) >= 128) == (f >= 128),
        ((f | 0x20u8) % 128 >= 64) == (f % 128 >= 64),
        ((f | 0x20u8) % 64 >= 32) == true,
        ((f | 0x20u8) % 32 >= 16) == (f % 32 >= 16),
        (f | 0x20u8) % 16 == f % 16,
        ((f & !0x20u8) >= 128) == (f >= 128),
        ((f & !0x20u8) % 128 >= 64) == (f % 128 >= 64),
        ((f & !0x20u8) % 64 >= 32) == false,
        ((f & !0x20u8) % 32 >= 16) == (f % 32 >= 16),
        (f & !0x20u8) % 16 == f % 16,
        ((f | 0x10u8) >= 128) == (f >= 128),
        ((f | 0x10u8) % 128 >= 64) == (f % 128 >= 64),
        ((f | 0x10u8) % 64 >= 32) == (f % 64 >= 32),
        ((f | 0x10u8) % 32 >= 16) == true,
        (f | 0x10u8) % 16 == f % 16,
        ((f & !0x10u8) >= 128) == (f >= 128),
        ((f & !0x10u8) % 128 >= 64) == (f % 128 >= 64),
        ((f & !0x10u8) % 64 >= 32) == (f % 64 >= 32),
        ((f & !0x10u8) % 32 >= 16) == false,
        (f & !0x10u8) % 16 == f % 16,
{
}

proof fn lemma_high_nibble(f: u8)
    by (bit_vector)
    ensures
        (f & 0xF0u8) == (f - f % 16) as u8,
        (f & 0xF0u8) % 16 == 0,
{
}

#[derive(Clone, Copy, Debug, PartialEq, Eq, Structural)]
pub struct Registers {
    pub a: u8,
    pub f: u8,
    pub b: u8,
    pub c: u8,
    pub d: u8,
    pub e: u8,
    pub h: u8,
    pub l: u8,
    pub sp: u16,
    pub pc: u16,
}

impl Registers {
    /// The low nibble of `F` is clear.
    pub open spec fn wf(&self) -> bool {
        self.f % 16 == 0
    }

    pub open spec fn flags(&self) -> Flags {
        flags_of(self.f)
    }

    pub open spec fn af(&self) -> u16 {
        pair(self.a, self.f)
    }

    pub open spec fn bc(&self) -> u16 {
        pair(self.b, self.c)
    }

    pub open spec fn de(&self) -> u16 {
        pair(self.d, self.e)
    }

    pub open spec fn hl(&self) -> u16 {
        pair(self.h, self.l)
    }

    /// These registers with `AF` replaced; the low nibble of `F` is dropped.
    pub open spec fn with_af(self, value: u16) -> Registers {
        Registers { a: high_byte(value), f: (low_byte(value) - low_byte(value) % 16) as u8, ..self }
    }

    pub open spec fn with_bc(self, value: u16) -> Registers {
        Registers { b: high_byte(value), c: low_byte(value), ..self }
    }

    pub open spec fn with_de(self, value: u16) -> Registers {
        Registers { d: high_byte(value), e: low_byte(value), ..self }
    }

    pub open spec fn with_hl(self, value: u16) -> Registers {
        Registers { h: high_byte(value), l: low_byte(value), ..self }
    }

    /// These registers with the four flags replaced and the low nibble of
    /// `F` clear.
    pub open spec fn with_flags(self, flags: Flags) -> Registers {
        Registers { f: flags_byte(flags), ..self }
    }

    /// These registers after two bytes went onto the stack.
    pub open spec fn pushed(self) -> Registers {
        Registers { sp: ((self.sp - 2) % 0x10000) as u16, ..self }
    }

    /// These registers after two bytes came off the stack.
    pub open spec fn popped(self) -> Registers {
        Registers { sp: ((self.sp + 2) % 0x10000) as u16, ..self }
    }

    pub fn new() -> (regs: Registers)
        ensures
            regs == (Registers { a: 0, f: 0, b: 0, c: 0, d: 0, e: 0, h: 0, l: 0, sp: 0, pc: 0 }),
            regs.wf(),
    {
        Registers { a: 0, f: 0, b: 0, c: 0, d: 0, e: 0, h: 0, l: 0, sp: 0, pc: 0 }
    }

    pub fn get_af(&self) -> (value: u16)
        ensures
            value == self.af(),
    {
        (self.a as u16) * 256 + (self.f as u16)
    }

    pub fn get_hl(&self) -> (value: u16)
        ensures
            value == self.hl(),
    {
        (self.h as u16) * 256 + (self.l as u16)
    }

    pub fn get_bc(&self) -> (value: u16)
        ensures
            value == self.bc(),
    {
        (self.b as u16) * 256 + (self.c as u16)
    }

    pub fn get_de(&self) -> (value: u16)
        ensures
            value == self.de(),
    {
        (self.d as u16) * 256 + (self.e as u16)
    }

    pub fn set_af(&mut self, value: u16)
        ensures
            *final(self) == old(self).with_af(value),
            final(self).wf(),
    {
        proof {
            lemma_high_nibble((value % 256) as u8);
        }
        self.a = (value / 256) as u8;
        self.f = ((value % 256) as u8) & 0b11110000;
    }

    pub fn set_hl(&mut self, value: u16)
        ensures
            *final(self) == old(self).with_hl(value),
    {
        self.h = (value / 256) as u8;
        self.l = (value % 256) as u8;
    }

    pub fn set_bc(&mut self, value: u16)
        ensures
            *final(self) == old(self).with_bc(value),
    {
        self.b = (value / 256) as u8;
        self.c = (value % 256) as u8;
    }

    pub fn set_de(&mut self, value: u16)
        ensures
            *final(self) == old(self).with_de(value),
    {
        self.d = (value / 256) as u8;
        self.e = (value % 256) as u8;
    }

    /// All four flags at once.
    pub fn get_flags(&self) -> (flags: Flags)
        ensures
            flags == self.flags(),
    {
        proof {
            lemma_flag_masks(self.f);
        }
        Flags {
            zero: self.f & ZERO_FLAG_MASK > 0,
            subtract: self.f & SUBTRACT_FLAG_MASK > 0,
            half_carry: self.f & HALF_CARRY_FLAG_MASK > 0,
            carry: self.f & CARRY_FLAG_MASK > 0,
        }
    }

    /// Replaces all four flags and clears the low nibble of `F`.
    pub fn set_flags(&mut self, flags: Flags)
        ensures
            *final(self) == old(self).with_flags(flags),
            final(self).flags() == flags,
            final(self).wf(),
    {
        let z: u8 = if flags.zero { ZERO_FLAG_MASK } else { 0 };
        let n: u8 = if flags.subtract { SUBTRACT_FLAG_MASK } else { 0 };
        let h: u8 = if flags.half_carry { HALF_CARRY_FLAG_MASK } else { 0 };
        let c: u8 = if flags.carry { CARRY_FLAG_MASK } else { 0 };
        self.f = z + n + h + c;
    }

    pub fn zero_flag(&self) -> (set: bool)
        ensures
            set == self.flags().zero,
    {
        proof {
            lemma_flag_masks(self.f);
        }
        self.f & ZERO_FLAG_MASK > 0
    }

    pub fn set_zero_flag(&mut self, to: bool)
        ensures
            final(self).flags() == (Flags { zero: to, ..old(self).flags() }),
            final(self).f % 16 == old(self).f % 16,
            *final(self) == (Registers { f: final(self).f, ..*old(self) }),
    {
        proof {
            lemma_flag_masks(self.f);
        }
        self.f = if to {
            self.f | ZERO_FLAG_MASK
        } else {
            self.f & !ZERO_FLAG_MASK
        };
    }

    /// Clears the zero flag.
    pub fn reset_zero_flag(&mut self)
        ensures
            final(self).flags() == (Flags { zero: false, ..old(self).flags() }),
            final(self).f % 16 == old(self).f % 16,
            *final(self) == (Registers { f: final(self).f, ..*old(self) }),
    {
        self.set_zero_flag(false);
    }

    pub fn subtract_flag(&self) -> (set: bool)
        ensures
            set == self.flags().subtract,
    {
        proof {
            lemma_flag_masks(self.f);
        }
        self.f & SUBTRACT_FLAG_MASK > 0
    }

    pub fn set_subtract_flag(&mut self, to: bool)
        ensures
            final(self).flags() == (Flags { subtract: to, ..old(self).flags() }),
            final(self).f % 16 == old(self).f % 16,
            *final(self) == (Registers { f: final(self).f, ..*old(self) }),
    {
        proof {
            lemma_flag_masks(self.f);
        }
        self.f = if to {
            self.f | SUBTRACT_FLAG_MASK
        } else {
            self.f & !SUBTRACT_FLAG_MASK
        };
    }

    /// Clears the subtract flag.
    pub fn reset_subtract_flag(&mut self)
        ensures
            final(self).flags() == (Flags { subtract: false, ..old(self).flags() }),
            final(self).f % 16 == old(self).f % 16,
            *final(self) == (Registers { f: final(self).f, ..*old(self) }),
    {
        self.set_subtract_flag(false);
    }

    pub fn half_carry_flag(&self) -> (set: bool)
        ensures
            set == self.flags().half_carry,
    {
        proof {
            lemma_flag_masks(self.f);
        }
        self.f & HALF_CARRY_FLAG_MASK > 0
    }

    pub fn set_half_carry_flag(&mut self, to: bool)
        ensures
            final(self).flags() == (Flags { half_carry: to, ..old(self).flags() }),
            final(self).f % 16 == old(self).f % 16,
            *final(self) == (Registers { f: final(self).f, ..*old(self) }),
    {
        proof {
            lemma_flag_masks(self.f);
        }
        self.f = if to {
            self.f | HALF_CARRY_FLAG_MASK
        } else {
            self.f & !HALF_CARRY_FLAG_MASK
        };
    }

    /// Clears the half-carry flag.
    pub fn reset_half_carry_flag(&mut self)
        ensures
            final(self).flags() == (Flags { half_carry: false, ..old(self).flags() }),
            final(self).f % 16 == old(self).f % 16,
            *final(self) == (Registers { f: final(self).f, ..*old(self) }),
    {
        self.set_half_carry_flag(false);
    }

    pub fn carry_flag(&self) -> (set: bool)
        ensures
            set == self.flags().carry,
    {
        proof {
            lemma_flag_masks(self.f);
        }
        self.f & CARRY_FLAG_MASK > 0
    }

    pub fn set_carry_flag(&mut self, to: bool)
        ensures
            final(self).flags() == (Flags { carry: to, ..old(self).flags() }),
            final(self).f % 16 == old(self).f % 16,
            *final(self) == (Registers { f: final(self).f, ..*old(self) }),
    {
        proof {
            lemma_flag_masks(self.f);
        }
        self.f = if to {
            self.f | CARRY_FLAG_MASK
        } else {
            self.f & !CARRY_FLAG_MASK
        };
    }

    /// Clears the carry flag.
    pub fn reset_carry_flag(&mut self)
        ensures
            final(self).flags() == (Flags { carry: false, ..old(self).flags() }),
            final(self).f % 16 == old(self).f % 16,
            *final(self) == (Registers { f: final(self).f, ..*old(self) }),
    {
        self.set_carry_flag(false);
    }
}

proof fn lemma_flag_sum(f: u8)
    by (bit_vector)
    requires
        f % 16 == 0,
    ensures
        f == (if f >= 128 { 128u8 } else { 0u8 }) + (if f % 128 >= 64 { 64u8 } else { 0u8 }) + (if f % 64
            >= 32 { 32u8 } else { 0u8 }) + (if f % 32 >= 16 { 16u8 } else { 0u8 }),
{
}

/// A value of `F` with a clear low nibble is exactly the byte of the flags
/// it encodes.
pub proof fn lemma_flags_of_byte(f: u8)
    requires
        f % 16 == 0,
    ensures
        flags_byte(flags_of(f)) == f,
{
    lemma_flag_sum(f);
}

/// Every flag byte encodes the flags it was made from, and its low nibble
/// is clear.
pub proof fn lemma_byte_of_flags(flags: Flags)
    ensures
        flags_of(flags_byte(flags)) == flags,
        flags_byte(flags) % 16 == 0,
{
}

/// Splitting a 16-bit value into its bytes and pairing them again gives the
/// value back, and the other way round.
pub proof fn lemma_pair_roundtrip(value: u16, hi: u8, lo: u8)
    ensures
        pair(high_byte(value), low_byte(value)) == value,
        high_byte(pair(hi, lo)) == hi,
        low_byte(pair(hi, lo)) == lo,
{
}

} // verus!
