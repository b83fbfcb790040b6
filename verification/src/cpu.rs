//! The processor: interrupt dispatch, instruction fetch, decode and
//! execution, and the loop that runs the machine for one video frame.
use vstd::prelude::*;
use crate::alu::{
    add16, add8, add_sp, alu_add, alu_add_sp, alu_add_u16, alu_and, alu_daa, alu_dec, alu_inc,
    alu_or, alu_sub, alu_xor, and8, bit_flags, daa, dec8, inc8, offset16, or8, reset_bit, rl,
    rlc, rotate_left, rotate_left_carry, rotate_right, rotate_right_carry, rr, rrc, set_bit,
    shift_left, shift_right, shift_right_zero, sla, sra, srl, sub8, swap, swap_nibles,
    test_bit, with_bit_reset, with_bit_set, xor8, add_signed_u8_to_u16, inc16, dec16,
    increment_u16, decrement_u16,
};
use crate::debugger::Debugger;
use crate::display::Display;
use crate::fault::Fault;
use crate::mmu::{following, Latches, Mmu, MmuView, INTERUPTS_ENABLE, INTERUPT_REQUEST};
use crate::registers::{Flags, Registers};
use crate::{
    JOYPAD_INTERRUPT, SERIAL_INTERRUPT, STAT_INTERRUPT, TIMER_INTERRUPT, V_BLANK_INTERRUPT,
};

verus! {

/// Why the processor stopped before it ran an instruction to its end.
#[derive(Clone, Copy, Debug, PartialEq, Eq, Structural)]
pub enum Pause {
    /// The program counter reached a breakpoint; nothing was fetched.
    Breakpoint { address: u16 },
    /// The machine cannot go on.
    Fault(Fault),
}

pub struct Cpu {
    pub mem: Mmu,
    pub regs: Registers,
    /// disables interrupts when false overriding IE register
    pub ime: bool,
    pub ei: bool,
    pub halted: bool,
    pub debugger: Option<Debugger>,
    /// Set when a breakpoint stopped the processor: the next fetch then
    /// goes ahead without a check.
    pub resuming: bool,
}

pub struct CpuView {
    pub mem: MmuView,
    pub regs: Registers,
    pub ime: bool,
    pub ei: bool,
    pub halted: bool,
    pub breakpoints: Option<Set<u16>>,
    pub resuming: bool,
}

impl View for Cpu {
    type V = CpuView;

    open spec fn view(&self) -> CpuView {
        CpuView {
            mem: self.mem@,
            regs: self.regs,
            ime: self.ime,
            ei: self.ei,
            halted: self.halted,
            breakpoints: match self.debugger {
                Some(debugger) => Some(debugger@),
                None => None,
            },
            resuming: self.resuming,
        }
    }
}

/// The selector in bits 6 and 7 of an opcode.
pub open spec fn block_of(opcode: u8) -> u8 {
    opcode / 64
}

/// The selector in bits 3 to 5 of an opcode.
pub open spec fn upper_of(opcode: u8) -> u8 {
    (opcode / 8) % 8
}

/// The selector in bits 0 to 2 of an opcode.
pub open spec fn lower_of(opcode: u8) -> u8 {
    opcode % 8
}

impl CpuView {
    pub open spec fn wf(self) -> bool {
        self.mem.wf() && self.regs.wf()
    }

    pub open spec fn with_regs(self, regs: Registers) -> CpuView {
        CpuView { regs, ..self }
    }

    pub open spec fn with_mem(self, mem: MmuView) -> CpuView {
        CpuView { mem, ..self }
    }

    pub open spec fn with_flags(self, flags: Flags) -> CpuView {
        self.with_regs(self.regs.with_flags(flags))
    }

    pub open spec fn with_pc(self, pc: u16) -> CpuView {
        self.with_regs(Registers { pc, ..self.regs })
    }

    /// The byte at the program counter, with the counter moved past it.
    pub open spec fn fetch(self) -> (CpuView, u8) {
        (self.with_pc(following(self.regs.pc)), self.mem.read(self.regs.pc))
    }

    /// The 16-bit value at the program counter, low byte first, with the
    /// counter moved past it.
    pub open spec fn fetch_u16(self) -> (CpuView, u16) {
        (self.with_pc(following(following(self.regs.pc))), self.mem.read_u16(self.regs.pc))
    }

    /// The 8-bit operand that a three-bit selector names: B, C, D, E, H,
    /// L, the byte at the address in HL, or A.
    pub open spec fn r8(self, index: u8) -> u8 {
        if index == 0 {
            self.regs.b
        } else if index == 1 {
            self.regs.c
        } else if index == 2 {
            self.regs.d
        } else if index == 3 {
            self.regs.e
        } else if index == 4 {
            self.regs.h
        } else if index == 5 {
            self.regs.l
        } else if index == 6 {
            self.mem.read(self.regs.hl())
        } else {
            self.regs.a
        }
    }

    /// The processor with an 8-bit operand replaced.
    pub open spec fn with_r8(self, index: u8, value: u8) -> CpuView {
        if index == 0 {
            self.with_regs(Registers { b: value, ..self.regs })
        } else if index == 1 {
            self.with_regs(Registers { c: value, ..self.regs })
        } else if index == 2 {
            self.with_regs(Registers { d: value, ..self.regs })
        } else if index == 3 {
            self.with_regs(Registers { e: value, ..self.regs })
        } else if index == 4 {
            self.with_regs(Registers { h: value, ..self.regs })
        } else if index == 5 {
            self.with_regs(Registers { l: value, ..self.regs })
        } else if index == 6 {
            self.with_mem(self.mem.write(self.regs.hl(), value))
        } else {
            self.with_regs(Registers { a: value, ..self.regs })
        }
    }

    /// The 16-bit register that a two-bit selector names: BC, DE, HL or
    /// SP.
    pub open spec fn r16(self, index: u8) -> u16 {
        if index == 0 {
            self.regs.bc()
        } else if index == 1 {
            self.regs.de()
        } else if index == 2 {
            self.regs.hl()
        } else {
            self.regs.sp
        }
    }

    pub open spec fn with_r16(self, index: u8, value: u16) -> CpuView {
        if index == 0 {
            self.with_regs(self.regs.with_bc(value))
        } else if index == 1 {
            self.with_regs(self.regs.with_de(value))
        } else if index == 2 {
            self.with_regs(self.regs.with_hl(value))
        } else {
            self.with_regs(Registers { sp: value, ..self.regs })
        }
    }

    /// The register pair that a two-bit selector names for the stack: BC,
    /// DE, HL or AF.
    pub open spec fn stack_pair(self, index: u8) -> u16 {
        if index == 0 {
            self.regs.bc()
        } else if index == 1 {
            self.regs.de()
        } else if index == 2 {
            self.regs.hl()
        } else {
            self.regs.af()
        }
    }

    pub open spec fn with_stack_pair(self, index: u8, value: u16) -> CpuView {
        if index == 0 {
            self.with_regs(self.regs.with_bc(value))
        } else if index == 1 {
            self.with_regs(self.regs.with_de(value))
        } else if index == 2 {
            self.with_regs(self.regs.with_hl(value))
        } else {
            self.with_regs(self.regs.with_af(value))
        }
    }

    /// The condition that a two-bit selector names: zero clear, zero set,
    /// carry clear or carry set.
    pub open spec fn condition(self, index: u8) -> bool {
        if index == 0 {
            !self.regs.flags().zero
        } else if index == 1 {
            self.regs.flags().zero
        } else if index == 2 {
            !self.regs.flags().carry
        } else {
            self.regs.flags().carry
        }
    }

    /// The processor after `value` went onto the stack.
    pub open spec fn pushed(self, value: u16) -> CpuView {
        CpuView {
            regs: self.regs.pushed(),
            mem: self.mem.write_u16(self.regs.pushed().sp, value),
            ..self
        }
    }

    /// The value on top of the stack, with the stack pointer moved past
    /// it.
    pub open spec fn popped(self) -> (CpuView, u16) {
        (self.with_regs(self.regs.popped()), self.mem.read_u16(self.regs.sp))
    }
}

impl Cpu {
    pub open spec fn wf(&self) -> bool {
        self.mem.wf() && self.regs.wf()
    }

    fn next_byte(&mut self) -> (byte: u8)
        requires
            old(self).wf(),
        ensures
            (final(self)@, byte) == old(self)@.fetch(),
            final(self).wf(),
    {
        let byte: u8 = self.mem.read(self.regs.pc);
        self.regs.pc = self.regs.pc.wrapping_add(1);
        byte
    }

    fn next_u16(&mut self) -> (value: u16)
        requires
            old(self).wf(),
        ensures
            (final(self)@, value) == old(self)@.fetch_u16(),
            final(self).wf(),
    {
        let val: u16 = self.mem.read_u16(self.regs.pc);
        self.regs.pc = self.regs.pc.wrapping_add(2);
        val
    }

    fn read_r8(&self, index: u8) -> (value: u8)
        requires
            self.wf(),
        ensures
            value == self@.r8(index),
    {
        if index == 0 {
            self.regs.b
        } else if index == 1 {
            self.regs.c
        } else if index == 2 {
            self.regs.d
        } else if index == 3 {
            self.regs.e
        } else if index == 4 {
            self.regs.h
        } else if index == 5 {
            self.regs.l
        } else if index == 6 {
            self.byte_at_hl()
        } else {
            self.regs.a
        }
    }

    fn write_r8(&mut self, index: u8, value: u8)
        requires
            old(self).wf(),
        ensures
            final(self)@ == old(self)@.with_r8(index, value),
            final(self).wf(),
    {
        if index == 0 {
            self.regs.b = value;
        } else if index == 1 {
            self.regs.c = value;
        } else if index == 2 {
            self.regs.d = value;
        } else if index == 3 {
            self.regs.e = value;
        } else if index == 4 {
            self.regs.h = value;
        } else if index == 5 {
            self.regs.l = value;
        } else if index == 6 {
            self.set_byte_at_hl(value);
        } else {
            self.regs.a = value;
        }
    }

    fn read_r16(&self, index: u8) -> (value: u16)
        ensures
            value == self@.r16(index),
    {
        if index == 0 {
            self.regs.get_bc()
        } else if index == 1 {
            self.regs.get_de()
        } else if index == 2 {
            self.regs.get_hl()
        } else {
            self.regs.sp
        }
    }

    fn write_r16(&mut self, index: u8, value: u16)
        requires
            old(self).wf(),
        ensures
            final(self)@ == old(self)@.with_r16(index, value),
            final(self).wf(),
    {
        if index == 0 {
            self.regs.set_bc(value);
        } else if index == 1 {
            self.regs.set_de(value);
        } else if index == 2 {
            self.regs.set_hl(value);
        } else {
            self.regs.sp = value;
        }
    }

    fn read_stack_pair(&self, index: u8) -> (value: u16)
        ensures
            value == self@.stack_pair(index),
    {
        if index == 0 {
            self.regs.get_bc()
        } else if index == 1 {
            self.regs.get_de()
        } else if index == 2 {
            self.regs.get_hl()
        } else {
            self.regs.get_af()
        }
    }

    fn write_stack_pair(&mut self, index: u8, value: u16)
        requires
            old(self).wf(),
        ensures
            final(self)@ == old(self)@.with_stack_pair(index, value),
            final(self).wf(),
    {
        if index == 0 {
            self.regs.set_bc(value);
        } else if index == 1 {
            self.regs.set_de(value);
        } else if index == 2 {
            self.regs.set_hl(value);
        } else {
            self.regs.set_af(value);
        }
    }

    fn condition(&self, index: u8) -> (holds: bool)
        ensures
            holds == self@.condition(index),
    {
        if index == 0 {
            !self.regs.zero_flag()
        } else if index == 1 {
            self.regs.zero_flag()
        } else if index == 2 {
            !self.regs.carry_flag()
        } else {
            self.regs.carry_flag()
        }
    }

    /// Gets the value of the byte in memory at address stored in HL register
    fn byte_at_hl(&self) -> (value: u8)
        requires
            self.wf(),
        ensures
            value == self@.mem.read(self@.regs.hl()),
    {
        self.mem.read(self.regs.get_hl())
    }

    /// Sets the value of the byte in memory at address stored in HL register
    fn set_byte_at_hl(&mut self, value: u8)
        requires
            old(self).wf(),
        ensures
            final(self)@ == old(self)@.with_mem(old(self)@.mem.write(old(self)@.regs.hl(), value)),
            final(self).wf(),
    {
        self.mem.write(self.regs.get_hl(), value);
    }

    fn push(&mut self, value: u16)
        requires
            old(self).wf(),
        ensures
            final(self)@ == old(self)@.pushed(value),
            final(self).wf(),
    {
        self.mem.push_u16(&mut self.regs, value);
    }

    fn pop(&mut self) -> (value: u16)
        requires
            old(self).wf(),
        ensures
            (final(self)@, value) == old(self)@.popped(),
            final(self).wf(),
    {
        self.mem.pop_u16(&mut self.regs)
    }
}

impl CpuView {
    /// The processor after one of the eight operations on A and an
    /// operand: add, add with carry, subtract, subtract with carry, and,
    /// exclusive or, or, compare. Compare sets the flags of a subtraction
    /// and leaves A alone.
    pub open spec fn alu(self, kind: u8, n: u8) -> CpuView {
        let a = self.regs.a;
        let carry = self.regs.flags().carry;
        let out = if kind == 0 {
            add8(a, n, false)
        } else if kind == 1 {
            add8(a, n, carry)
        } else if kind == 2 {
            sub8(a, n, false)
        } else if kind == 3 {
            sub8(a, n, carry)
        } else if kind == 4 {
            and8(a, n)
        } else if kind == 5 {
            xor8(a, n)
        } else if kind == 6 {
            or8(a, n)
        } else {
            (a, sub8(a, n, false).1)
        };
        self.with_regs((Registers { a: out.0, ..self.regs }).with_flags(out.1))
    }

    /// An opcode from 0x40 to 0x7F but 0x76: a load from one 8-bit operand
    /// into another; 8 cycles where the byte at HL takes part, else 4.
    pub open spec fn load_r8(self, opcode: u8) -> (CpuView, u8) {
        (
            self.with_r8(upper_of(opcode), self.r8(lower_of(opcode))),
            if upper_of(opcode) == 6 || lower_of(opcode) == 6 {
                8
            } else {
                4
            },
        )
    }

    /// An opcode from 0x80 to 0xBF: an operation on A and an 8-bit
    /// operand; 8 cycles for the byte at HL, else 4.
    pub open spec fn alu_r8(self, opcode: u8) -> (CpuView, u8) {
        (
            self.alu(upper_of(opcode), self.r8(lower_of(opcode))),
            if lower_of(opcode) == 6 {
                8
            } else {
                4
            },
        )
    }

    /// An operation on A and the byte after the opcode; 8 cycles.
    pub open spec fn alu_immediate(self, opcode: u8) -> (CpuView, u8) {
        let fetched = self.fetch();
        (fetched.0.alu(upper_of(opcode), fetched.1), 8)
    }

    /// An increment of an 8-bit operand; 12 cycles for the byte at HL,
    /// else 4.
    pub open spec fn inc_r8(self, opcode: u8) -> (CpuView, u8) {
        let index = upper_of(opcode);
        let out = inc8(self.r8(index), self.regs.flags());
        (self.with_flags(out.1).with_r8(index, out.0), if index == 6 { 12 } else { 4 })
    }

    /// A decrement of an 8-bit operand; 12 cycles for the byte at HL, else
    /// 4.
    pub open spec fn dec_r8(self, opcode: u8) -> (CpuView, u8) {
        let index = upper_of(opcode);
        let out = dec8(self.r8(index), self.regs.flags());
        (self.with_flags(out.1).with_r8(index, out.0), if index == 6 { 12 } else { 4 })
    }

    /// A load of the byte after the opcode into an 8-bit operand; 12
    /// cycles for the byte at HL, else 8.
    pub open spec fn load_immediate(self, opcode: u8) -> (CpuView, u8) {
        let index = upper_of(opcode);
        let fetched = self.fetch();
        (fetched.0.with_r8(index, fetched.1), if index == 6 { 12 } else { 8 })
    }

    /// Opcodes 0x01 to 0x39 that end in 1 or 9: a load of the two bytes
    /// after the opcode into a 16-bit register, 12 cycles, or the addition
    /// of a 16-bit register to HL, 8 cycles.
    pub open spec fn wide_load_or_add(self, opcode: u8) -> (CpuView, u8) {
        let index = upper_of(opcode) / 2;
        if upper_of(opcode) % 2 == 0 {
            let fetched = self.fetch_u16();
            (fetched.0.with_r16(index, fetched.1), 12)
        } else {
            let out = add16(self.regs.hl(), self.r16(index), self.regs.flags());
            (self.with_flags(out.1).with_r16(2, out.0), 8)
        }
    }

    /// Opcodes 0x03 to 0x3B that end in 3 or B: a 16-bit register goes up
    /// or down by one, modulo 65536; no flag changes; 8 cycles.
    pub open spec fn wide_step(self, opcode: u8) -> (CpuView, u8) {
        let index = upper_of(opcode) / 2;
        let value = self.r16(index);
        let stepped = if upper_of(opcode) % 2 == 0 {
            inc16(value)
        } else {
            dec16(value)
        };
        (self.with_r16(index, stepped), 8)
    }

    /// The processor after A went to the byte at `address`, or came from
    /// it.
    pub open spec fn move_a(self, address: u16, store: bool) -> CpuView {
        if store {
            self.with_mem(self.mem.write(address, self.regs.a))
        } else {
            self.with_regs(Registers { a: self.mem.read(address), ..self.regs })
        }
    }

    /// Opcodes 0x02 to 0x3A that end in 2 or A: A goes to, or comes from,
    /// the byte at the address in BC, in DE, or in HL with HL then moved
    /// up or down by one; 8 cycles.
    pub open spec fn indirect_load(self, opcode: u8) -> (CpuView, u8) {
        let which = upper_of(opcode) / 2;
        let address = if which == 0 {
            self.regs.bc()
        } else if which == 1 {
            self.regs.de()
        } else {
            self.regs.hl()
        };
        let moved = self.move_a(address, upper_of(opcode) % 2 == 0);
        if which == 2 {
            (moved.with_regs(moved.regs.with_hl(inc16(address))), 8)
        } else if which == 3 {
            (moved.with_regs(moved.regs.with_hl(dec16(address))), 8)
        } else {
            (moved, 8)
        }
    }

    /// Opcodes 0x07 to 0x3F that end in 7 or F: the four rotations of A,
    /// which clear the zero flag; the decimal adjustment; the complement
    /// of A; set carry; complement carry. 4 cycles.
    pub open spec fn accumulator_op(self, opcode: u8) -> (CpuView, u8) {
        let a = self.regs.a;
        let flags = self.regs.flags();
        let kind = upper_of(opcode);
        let out = if kind == 0 {
            (rlc(a).0, Flags { zero: false, ..rlc(a).1 })
        } else if kind == 1 {
            (rrc(a).0, Flags { zero: false, ..rrc(a).1 })
        } else if kind == 2 {
            (rl(a, flags).0, Flags { zero: false, ..rl(a, flags).1 })
        } else if kind == 3 {
            (rr(a, flags).0, Flags { zero: false, ..rr(a, flags).1 })
        } else if kind == 4 {
            daa(a, flags)
        } else if kind == 5 {
            ((255 - a) as u8, Flags { subtract: true, half_carry: true, ..flags })
        } else if kind == 6 {
            (a, Flags { subtract: false, half_carry: false, carry: true, ..flags })
        } else {
            (a, Flags { subtract: false, half_carry: false, carry: !flags.carry, ..flags })
        };
        (self.with_regs((Registers { a: out.0, ..self.regs }).with_flags(out.1)), 4)
    }
}

impl Cpu {
    fn alu(&mut self, kind: u8, n: u8)
        requires
            old(self).wf(),
        ensures
            final(self)@ == old(self)@.alu(kind, n),
            final(self).wf(),
    {
        let a: u8 = self.regs.a;
        let carry: bool = self.regs.carry_flag();
        let out: (u8, Flags) = if kind == 0 {
            alu_add(a, n, false)
        } else if kind == 1 {
            alu_add(a, n, carry)
        } else if kind == 2 {
            alu_sub(a, n, false)
        } else if kind == 3 {
            alu_sub(a, n, carry)
        } else if kind == 4 {
            alu_and(a, n)
        } else if kind == 5 {
            alu_xor(a, n)
        } else if kind == 6 {
            alu_or(a, n)
        } else {
            (a, alu_sub(a, n, false).1)
        };
        self.regs.a = out.0;
        self.regs.set_flags(out.1);
    }

    fn load_r8(&mut self, opcode: u8) -> (cycles: u8)
        requires
            old(self).wf(),
        ensures
            (final(self)@, cycles) == old(self)@.load_r8(opcode),
            final(self).wf(),
            4 <= cycles <= 32,
            cycles % 4 == 0,
    {
        let to: u8 = (opcode / 8) % 8;
        let from: u8 = opcode % 8;
        let value: u8 = self.read_r8(from);
        self.write_r8(to, value);
        if to == 6 || from == 6 {
            8
        } else {
            4
        }
    }

    fn alu_r8(&mut self, opcode: u8) -> (cycles: u8)
        requires
            old(self).wf(),
        ensures
            (final(self)@, cycles) == old(self)@.alu_r8(opcode),
            final(self).wf(),
            4 <= cycles <= 32,
            cycles % 4 == 0,
    {
        let from: u8 = opcode % 8;
        let value: u8 = self.read_r8(from);
        self.alu((opcode / 8) % 8, value);
        if from == 6 {
            8
        } else {
            4
        }
    }

    fn alu_immediate(&mut self, opcode: u8) -> (cycles: u8)
        requires
            old(self).wf(),
        ensures
            (final(self)@, cycles) == old(self)@.alu_immediate(opcode),
            final(self).wf(),
            4 <= cycles <= 32,
            cycles % 4 == 0,
    {
        let n: u8 = self.next_byte();
        self.alu((opcode / 8) % 8, n);
        8
    }

    fn inc_r8(&mut self, opcode: u8) -> (cycles: u8)
        requires
            old(self).wf(),
        ensures
            (final(self)@, cycles) == old(self)@.inc_r8(opcode),
            final(self).wf(),
            4 <= cycles <= 32,
            cycles % 4 == 0,
    {
        let index: u8 = (opcode / 8) % 8;
        let out: (u8, Flags) = alu_inc(self.read_r8(index), self.regs.get_flags());
        self.regs.set_flags(out.1);
        self.write_r8(index, out.0);
        if index == 6 {
            12
        } else {
            4
        }
    }

    fn dec_r8(&mut self, opcode: u8) -> (cycles: u8)
        requires
            old(self).wf(),
        ensures
            (final(self)@, cycles) == old(self)@.dec_r8(opcode),
            final(self).wf(),
            4 <= cycles <= 32,
            cycles % 4 == 0,
    {
        let index: u8 = (opcode / 8) % 8;
        let out: (u8, Flags) = alu_dec(self.read_r8(index), self.regs.get_flags());
        self.regs.set_flags(out.1);
        self.write_r8(index, out.0);
        if index == 6 {
            12
        } else {
            4
        }
    }

    fn load_immediate(&mut self, opcode: u8) -> (cycles: u8)
        requires
            old(self).wf(),
        ensures
            (final(self)@, cycles) == old(self)@.load_immediate(opcode),
            final(self).wf(),
            4 <= cycles <= 32,
            cycles % 4 == 0,
    {
        let index: u8 = (opcode / 8) % 8;
        let n: u8 = self.next_byte();
        self.write_r8(index, n);
        if index == 6 {
            12
        } else {
            8
        }
    }

    fn wide_load_or_add(&mut self, opcode: u8) -> (cycles: u8)
        requires
            old(self).wf(),
        ensures
            (final(self)@, cycles) == old(self)@.wide_load_or_add(opcode),
            final(self).wf(),
            4 <= cycles <= 32,
            cycles % 4 == 0,
    {
        let selector: u8 = (opcode / 8) % 8;
        let index: u8 = selector / 2;
        if selector % 2 == 0 {
            let nn: u16 = self.next_u16();
            self.write_r16(index, nn);
            12
        } else {
            let out: (u16, Flags) = alu_add_u16(
                self.regs.get_hl(),
                self.read_r16(index),
                self.regs.get_flags(),
            );
            self.regs.set_flags(out.1);
            self.write_r16(2, out.0);
            8
        }
    }

    fn wide_step(&mut self, opcode: u8) -> (cycles: u8)
        requires
            old(self).wf(),
        ensures
            (final(self)@, cycles) == old(self)@.wide_step(opcode),
            final(self).wf(),
            4 <= cycles <= 32,
            cycles % 4 == 0,
    {
        let selector: u8 = (opcode / 8) % 8;
        let index: u8 = selector / 2;
        let value: u16 = self.read_r16(index);
        let stepped: u16 = if selector % 2 == 0 {
            increment_u16(value)
        } else {
            decrement_u16(value)
        };
        self.write_r16(index, stepped);
        8
    }

    fn move_a(&mut self, address: u16, store: bool)
        requires
            old(self).wf(),
        ensures
            final(self)@ == old(self)@.move_a(address, store),
            final(self).wf(),
    {
        if store {
            self.mem.write(address, self.regs.a);
        } else {
            self.regs.a = self.mem.read(address);
        }
    }

    fn indirect_load(&mut self, opcode: u8) -> (cycles: u8)
        requires
            old(self).wf(),
        ensures
            (final(self)@, cycles) == old(self)@.indirect_load(opcode),
            final(self).wf(),
            4 <= cycles <= 32,
            cycles % 4 == 0,
    {
        let selector: u8 = (opcode / 8) % 8;
        let which: u8 = selector / 2;
        let address: u16 = if which == 0 {
            self.regs.get_bc()
        } else if which == 1 {
            self.regs.get_de()
        } else {
            self.regs.get_hl()
        };
        self.move_a(address, selector % 2 == 0);
        if which == 2 {
            self.regs.set_hl(increment_u16(address));
        } else if which == 3 {
            self.regs.set_hl(decrement_u16(address));
        }
        8
    }

    fn accumulator_op(&mut self, opcode: u8) -> (cycles: u8)
        requires
            old(self).wf(),
        ensures
            (final(self)@, cycles) == old(self)@.accumulator_op(opcode),
            final(self).wf(),
            4 <= cycles <= 32,
            cycles % 4 == 0,
    {
        let a: u8 = self.regs.a;
        let flags: Flags = self.regs.get_flags();
        let kind: u8 = (opcode / 8) % 8;
        let out: (u8, Flags) = if kind == 0 {
            let rotated = rotate_left_carry(a);
            (
                rotated.0,
                Flags {
                    zero: false,
                    subtract: rotated.1.subtract,
                    half_carry: rotated.1.half_carry,
                    carry: rotated.1.carry,
                },
            )
        } else if kind == 1 {
            let rotated = rotate_right_carry(a);
            (
                rotated.0,
                Flags {
                    zero: false,
                    subtract: rotated.1.subtract,
                    half_carry: rotated.1.half_carry,
                    carry: rotated.1.carry,
                },
            )
        } else if kind == 2 {
            let rotated = rotate_left(a, flags);
            (
                rotated.0,
                Flags {
                    zero: false,
                    subtract: rotated.1.subtract,
                    half_carry: rotated.1.half_carry,
                    carry: rotated.1.carry,
                },
            )
        } else if kind == 3 {
            let rotated = rotate_right(a, flags);
            (
                rotated.0,
                Flags {
                    zero: false,
                    subtract: rotated.1.subtract,
                    half_carry: rotated.1.half_carry,
                    carry: rotated.1.carry,
                },
            )
        } else if kind == 4 {
            alu_daa(a, flags)
        } else if kind == 5 {
            (
                255 - a,
                Flags { zero: flags.zero, subtract: true, half_carry: true, carry: flags.carry },
            )
        } else if kind == 6 {
            (a, Flags { zero: flags.zero, subtract: false, half_carry: false, carry: true })
        } else {
            (
                a,
                Flags {
                    zero: flags.zero,
                    subtract: false,
                    half_carry: false,
                    carry: !flags.carry,
                },
            )
        };
        self.regs.a = out.0;
        self.regs.set_flags(out.1);
        4
    }
}

/// The result and the flags of the rotate, shift or swap that a three-bit
/// selector names: rotate left, rotate right, rotate left through carry,
/// rotate right through carry, shift left, shift right keeping the sign,
/// swap the nibbles, shift right.
pub open spec fn shifted(kind: u8, value: u8, flags: Flags) -> (u8, Flags) {
    if kind == 0 {
        rlc(value)
    } else if kind == 1 {
        rrc(value)
    } else if kind == 2 {
        rl(value, flags)
    } else if kind == 3 {
        rr(value, flags)
    } else if kind == 4 {
        sla(value)
    } else if kind == 5 {
        sra(value)
    } else if kind == 6 {
        swap(value)
    } else {
        srl(value)
    }
}

fn shift(kind: u8, value: u8, flags: Flags) -> (out: (u8, Flags))
    ensures
        out == shifted(kind, value, flags),
{
    if kind == 0 {
        rotate_left_carry(value)
    } else if kind == 1 {
        rotate_right_carry(value)
    } else if kind == 2 {
        rotate_left(value, flags)
    } else if kind == 3 {
        rotate_right(value, flags)
    } else if kind == 4 {
        shift_left(value)
    } else if kind == 5 {
        shift_right(value)
    } else if kind == 6 {
        swap_nibles(value)
    } else {
        shift_right_zero(value)
    }
}

impl CpuView {
    /// The processor with a fault latched.
    pub open spec fn faulted(self, fault: Fault) -> CpuView {
        self.with_mem(
            MmuView { latches: Latches { fault: Some(fault), ..self.mem.latches }, ..self.mem },
        )
    }

    /// An opcode without defined behaviour: the fault is latched with the
    /// address that the opcode was fetched from, and no cycle passes.
    pub open spec fn unknown(self, opcode: u8) -> (CpuView, u8) {
        (self.faulted(Fault::UnknownOpcode { opcode, address: dec16(self.regs.pc) }), 0)
    }

    /// The stop instruction: an armed speed switch takes effect, on a
    /// colour machine; on a monochrome machine an armed switch is a fault.
    pub open spec fn stop(self) -> CpuView {
        let latches = self.mem.latches;
        if !latches.prepare_speed_switch {
            self
        } else if !self.mem.gpu.color_mode {
            self.faulted(Fault::SpeedSwitchOnMonochrome)
        } else {
            self.with_mem(
                MmuView {
                    latches: Latches {
                        prepare_speed_switch: false,
                        doublespeed: !latches.doublespeed,
                        ..latches
                    },
                    ..self.mem
                },
            )
        }
    }

    /// A relative jump: the byte after the opcode, read as signed, is
    /// added to the program counter where the condition holds.
    pub open spec fn jump_by_n_if(self, cond: bool) -> CpuView {
        let fetched = self.fetch();
        if cond {
            fetched.0.with_pc(offset16(fetched.0.regs.pc, fetched.1))
        } else {
            fetched.0
        }
    }

    /// An absolute jump to the address after the opcode where the
    /// condition holds.
    pub open spec fn jump_to_nn_if(self, cond: bool) -> CpuView {
        let fetched = self.fetch_u16();
        if cond {
            fetched.0.with_pc(fetched.1)
        } else {
            fetched.0
        }
    }

    /// A call of the address after the opcode where the condition holds:
    /// the address of the next instruction goes onto the stack.
    pub open spec fn call_if(self, cond: bool) -> CpuView {
        let fetched = self.fetch_u16();
        if cond {
            fetched.0.pushed(fetched.0.regs.pc).with_pc(fetched.1)
        } else {
            fetched.0
        }
    }

    /// A return where the condition holds: the program counter comes off
    /// the stack.
    pub open spec fn return_if(self, cond: bool) -> CpuView {
        if cond {
            self.popped().0.with_pc(self.popped().1)
        } else {
            self
        }
    }

    /// A call of a fixed address in the first page.
    pub open spec fn restart(self, n: u8) -> CpuView {
        self.pushed(self.regs.pc).with_pc(n as u16)
    }

    /// Opcodes 0x00 to 0x38 that end in 0 or 8: no operation, 4 cycles; the
    /// store of the stack pointer at the address after the opcode, 20;
    /// stop, 4; the relative jumps, 8.
    pub open spec fn misc_control(self, opcode: u8) -> (CpuView, u8) {
        let kind = upper_of(opcode);
        if kind == 0 {
            (self, 4)
        } else if kind == 1 {
            let fetched = self.fetch_u16();
            (fetched.0.with_mem(fetched.0.mem.write_u16(fetched.1, self.regs.sp)), 20)
        } else if kind == 2 {
            (self.stop(), 4)
        } else if kind == 3 {
            (self.jump_by_n_if(true), 8)
        } else {
            (self.jump_by_n_if(self.condition((kind - 4) as u8)), 8)
        }
    }

    /// A store of A at, or a load of A from, the high page at `offset`.
    pub open spec fn high_page(self, offset: u8, store: bool) -> CpuView {
        self.move_a((0xFF00 + offset) as u16, store)
    }

    /// The stack pointer plus the signed byte after the opcode, into the
    /// stack pointer or into HL, with the flags of that addition.
    pub open spec fn stack_offset(self, into_hl: bool) -> CpuView {
        let fetched = self.fetch();
        let out = add_sp(self.regs.sp, fetched.1);
        let flagged = fetched.0.with_flags(out.1);
        if into_hl {
            flagged.with_regs(flagged.regs.with_hl(out.0))
        } else {
            flagged.with_regs(Registers { sp: out.0, ..flagged.regs })
        }
    }

    /// Opcodes 0xC0 to 0xF8 that end in 0 or 8: the conditional returns, 8
    /// cycles; the store and the load of A in the high page at the byte
    /// after the opcode, 12; the addition of a signed byte to the stack
    /// pointer, 16, or into HL, 12.
    pub open spec fn return_or_high(self, opcode: u8) -> (CpuView, u8) {
        let kind = upper_of(opcode);
        if kind < 4 {
            (self.return_if(self.condition(kind)), 8)
        } else if kind == 4 {
            (self.fetch().0.high_page(self.fetch().1, true), 12)
        } else if kind == 5 {
            (self.stack_offset(false), 16)
        } else if kind == 6 {
            (self.fetch().0.high_page(self.fetch().1, false), 12)
        } else {
            (self.stack_offset(true), 12)
        }
    }

    /// Opcodes 0xC1 to 0xF9 that end in 1 or 9: the pops, 12 cycles;
    /// return, 8; return with the interrupts enabled, 8; the jump to the
    /// address in HL, 4; the load of HL into the stack pointer, 8.
    pub open spec fn pop_or_jump(self, opcode: u8) -> (CpuView, u8) {
        let kind = upper_of(opcode);
        if kind % 2 == 0 {
            (self.popped().0.with_stack_pair(kind / 2, self.popped().1), 12)
        } else if kind == 1 {
            (self.return_if(true), 8)
        } else if kind == 3 {
            (CpuView { ime: true, ..self.return_if(true) }, 8)
        } else if kind == 5 {
            (self.with_pc(self.regs.hl()), 4)
        } else {
            (self.with_regs(Registers { sp: self.regs.hl(), ..self.regs }), 8)
        }
    }

    /// Opcodes 0xC2 to 0xFA that end in 2 or A: the conditional jumps, 12
    /// cycles; the store and the load of A in the high page at C, 8; the
    /// store of A at the address after the opcode, 8, and the load from
    /// there, 16.
    pub open spec fn jump_or_far_load(self, opcode: u8) -> (CpuView, u8) {
        let kind = upper_of(opcode);
        if kind < 4 {
            (self.jump_to_nn_if(self.condition(kind)), 12)
        } else if kind == 4 {
            (self.high_page(self.regs.c, true), 8)
        } else if kind == 5 {
            (self.fetch_u16().0.move_a(self.fetch_u16().1, true), 8)
        } else if kind == 6 {
            (self.high_page(self.regs.c, false), 8)
        } else {
            (self.fetch_u16().0.move_a(self.fetch_u16().1, false), 16)
        }
    }

    /// An opcode behind the prefix 0xCB. Bits 0 to 2 name the operand,
    /// bits 6 and 7 the group, bits 3 to 5 the operation or the bit: the
    /// rotates, shifts and swap; the bit tests; the bit resets; the bit
    /// sets. 16 cycles for the byte at HL, else 8.
    pub open spec fn cb_opcode_step(self) -> (CpuView, u8) {
        let fetched = self.fetch();
        let cpu = fetched.0;
        let target = lower_of(fetched.1);
        let which = upper_of(fetched.1);
        let value = cpu.r8(target);
        let cycles: u8 = if target == 6 { 16 } else { 8 };
        if block_of(fetched.1) == 0 {
            let out = shifted(which, value, cpu.regs.flags());
            (cpu.with_flags(out.1).with_r8(target, out.0), cycles)
        } else if block_of(fetched.1) == 1 {
            (cpu.with_flags(bit_flags(value, which, cpu.regs.flags())), cycles)
        } else if block_of(fetched.1) == 2 {
            (cpu.with_r8(target, with_bit_reset(value, which)), cycles)
        } else {
            (cpu.with_r8(target, with_bit_set(value, which)), cycles)
        }
    }

    /// Opcodes 0xC3 to 0xFB that end in 3 or B: the jump, 12 cycles; the
    /// prefix of the second opcode table; disable interrupts, 4; enable
    /// interrupts after the next instruction, 4. The rest are not defined.
    pub open spec fn jump_prefix_or_mask(self, opcode: u8) -> (CpuView, u8) {
        if opcode == 0xC3 {
            (self.jump_to_nn_if(true), 12)
        } else if opcode == 0xCB {
            self.cb_opcode_step()
        } else if opcode == 0xF3 {
            (CpuView { ime: false, ..self }, 4)
        } else if opcode == 0xFB {
            (CpuView { ei: true, ..self }, 4)
        } else {
            self.unknown(opcode)
        }
    }

    /// Opcodes 0xC4 to 0xFD that end in 4, 5, C or D: the conditional
    /// calls, 12 cycles; the pushes, 16; the call, 12. The rest are not
    /// defined.
    pub open spec fn call_or_push(self, opcode: u8) -> (CpuView, u8) {
        let kind = upper_of(opcode);
        if lower_of(opcode) == 4 {
            if kind < 4 {
                (self.call_if(self.condition(kind)), 12)
            } else {
                self.unknown(opcode)
            }
        } else if kind % 2 == 0 {
            (self.pushed(self.stack_pair(kind / 2)), 16)
        } else if kind == 1 {
            (self.call_if(true), 12)
        } else {
            self.unknown(opcode)
        }
    }

    /// An opcode below 0x40, by its low three bits.
    pub open spec fn execute_low(self, opcode: u8) -> (CpuView, u8) {
        let kind = lower_of(opcode);
        if kind == 0 {
            self.misc_control(opcode)
        } else if kind == 1 {
            self.wide_load_or_add(opcode)
        } else if kind == 2 {
            self.indirect_load(opcode)
        } else if kind == 3 {
            self.wide_step(opcode)
        } else if kind == 4 {
            self.inc_r8(opcode)
        } else if kind == 5 {
            self.dec_r8(opcode)
        } else if kind == 6 {
            self.load_immediate(opcode)
        } else {
            self.accumulator_op(opcode)
        }
    }

    /// An opcode from 0xC0 on, by its low three bits; those that end in 7
    /// or F call the address that bits 3 to 5 give, times eight, 32
    /// cycles.
    pub open spec fn execute_high(self, opcode: u8) -> (CpuView, u8) {
        let kind = lower_of(opcode);
        if kind == 0 {
            self.return_or_high(opcode)
        } else if kind == 1 {
            self.pop_or_jump(opcode)
        } else if kind == 2 {
            self.jump_or_far_load(opcode)
        } else if kind == 3 {
            self.jump_prefix_or_mask(opcode)
        } else if kind == 4 || kind == 5 {
            self.call_or_push(opcode)
        } else if kind == 6 {
            self.alu_immediate(opcode)
        } else {
            (self.restart((upper_of(opcode) * 8) as u8), 32)
        }
    }

    /// The processor after the instruction with this opcode, and the
    /// cycles that it took. 0x76 halts, 4 cycles.
    pub open spec fn execute(self, opcode: u8) -> (CpuView, u8) {
        if opcode == 0x76 {
            (CpuView { halted: true, ..self }, 4)
        } else if block_of(opcode) == 0 {
            self.execute_low(opcode)
        } else if block_of(opcode) == 1 {
            self.load_r8(opcode)
        } else if block_of(opcode) == 2 {
            self.alu_r8(opcode)
        } else {
            self.execute_high(opcode)
        }
    }

    /// One instruction: the opcode is fetched, an enable of the interrupts
    /// that the instruction before asked for takes effect, and the
    /// instruction runs.
    pub open spec fn next_intruction(self) -> (CpuView, u8) {
        let fetched = self.fetch();
        let armed = if fetched.0.ei {
            CpuView { ime: true, ei: false, ..fetched.0 }
        } else {
            fetched.0
        };
        armed.execute(fetched.1)
    }
}

impl Cpu {
    fn fault(&mut self, fault: Fault)
        requires
            old(self).wf(),
        ensures
            final(self)@ == old(self)@.faulted(fault),
            final(self).wf(),
    {
        self.mem.latches.fault = Some(fault);
    }

    fn unknown(&mut self, opcode: u8) -> (cycles: u8)
        requires
            old(self).wf(),
        ensures
            (final(self)@, cycles) == old(self)@.unknown(opcode),
            final(self).wf(),
    {
        let address: u16 = decrement_u16(self.regs.pc);
        self.fault(Fault::UnknownOpcode { opcode, address });
        0
    }

    fn stop(&mut self)
        requires
            old(self).wf(),
        ensures
            final(self)@ == old(self)@.stop(),
            final(self).wf(),
    {
        if self.mem.latches.prepare_speed_switch {
            if !self.mem.gpu.color_mode {
                self.fault(Fault::SpeedSwitchOnMonochrome);
            } else {
                let speed: bool = !self.mem.latches.doublespeed;
                self.mem.latches.prepare_speed_switch = false;
                self.mem.latches.doublespeed = speed;
            }
        }
    }

    /// If cond is true, jump to the current addres + n
    /// where n is the immediately following signed byte
    fn jump_by_n_if(&mut self, cond: bool)
        requires
            old(self).wf(),
        ensures
            final(self)@ == old(self)@.jump_by_n_if(cond),
            final(self).wf(),
    {
        let n: u8 = self.next_byte();
        let next_addr: u16 = add_signed_u8_to_u16(self.regs.pc, n);
        if cond {
            self.regs.pc = next_addr;
        }
    }

    fn jump_to_nn_if(&mut self, cond: bool)
        requires
            old(self).wf(),
        ensures
            final(self)@ == old(self)@.jump_to_nn_if(cond),
            final(self).wf(),
    {
        let nn: u16 = self.next_u16();
        if cond {
            self.regs.pc = nn;
        }
    }

    fn call_if(&mut self, cond: bool)
        requires
            old(self).wf(),
        ensures
            final(self)@ == old(self)@.call_if(cond),
            final(self).wf(),
    {
        let next_addr: u16 = self.next_u16();
        if cond {
            let next_instr: u16 = self.regs.pc;
            self.push(next_instr);
            self.regs.pc = next_addr;
        }
    }

    fn return_if(&mut self, cond: bool)
        requires
            old(self).wf(),
        ensures
            final(self)@ == old(self)@.return_if(cond),
            final(self).wf(),
    {
        if cond {
            let address: u16 = self.pop();
            self.regs.pc = address;
        }
    }

    /// jump to the current 0x0000 + n, push current address to stack
    fn restart(&mut self, n: u8)
        requires
            old(self).wf(),
        ensures
            final(self)@ == old(self)@.restart(n),
            final(self).wf(),
    {
        let next_addr: u16 = self.regs.pc;
        self.push(next_addr);
        self.regs.pc = n as u16;
    }

    fn misc_control(&mut self, opcode: u8) -> (cycles: u8)
        requires
            old(self).wf(),
        ensures
            (final(self)@, cycles) == old(self)@.misc_control(opcode),
            final(self).wf(),
            4 <= cycles <= 32,
            cycles % 4 == 0,
    {
        let kind: u8 = (opcode / 8) % 8;
        if kind == 0 {
            4
        } else if kind == 1 {
            let sp: u16 = self.regs.sp;
            let nn: u16 = self.next_u16();
            self.mem.write_u16(nn, sp);
            20
        } else if kind == 2 {
            self.stop();
            4
        } else if kind == 3 {
            self.jump_by_n_if(true);
            8
        } else {
            let cond: bool = self.condition(kind - 4);
            self.jump_by_n_if(cond);
            8
        }
    }

    fn high_page(&mut self, offset: u8, store: bool)
        requires
            old(self).wf(),
        ensures
            final(self)@ == old(self)@.high_page(offset, store),
            final(self).wf(),
    {
        self.move_a(0xFF00 + offset as u16, store);
    }

    fn stack_offset(&mut self, into_hl: bool)
        requires
            old(self).wf(),
        ensures
            final(self)@ == old(self)@.stack_offset(into_hl),
            final(self).wf(),
    {
        let sp: u16 = self.regs.sp;
        let n: u8 = self.next_byte();
        let out: (u16, Flags) = alu_add_sp(sp, n);
        self.regs.set_flags(out.1);
        if into_hl {
            self.regs.set_hl(out.0);
        } else {
            self.regs.sp = out.0;
        }
    }

    fn return_or_high(&mut self, opcode: u8) -> (cycles: u8)
        requires
            old(self).wf(),
        ensures
            (final(self)@, cycles) == old(self)@.return_or_high(opcode),
            final(self).wf(),
            4 <= cycles <= 32,
            cycles % 4 == 0,
    {
        let kind: u8 = (opcode / 8) % 8;
        if kind < 4 {
            let cond: bool = self.condition(kind);
            self.return_if(cond);
            8
        } else if kind == 4 {
            let n: u8 = self.next_byte();
            self.high_page(n, true);
            12
        } else if kind == 5 {
            self.stack_offset(false);
            16
        } else if kind == 6 {
            let n: u8 = self.next_byte();
            self.high_page(n, false);
            12
        } else {
            self.stack_offset(true);
            12
        }
    }

    fn pop_or_jump(&mut self, opcode: u8) -> (cycles: u8)
        requires
            old(self).wf(),
        ensures
            (final(self)@, cycles) == old(self)@.pop_or_jump(opcode),
            final(self).wf(),
            4 <= cycles <= 32,
            cycles % 4 == 0,
    {
        let kind: u8 = (opcode / 8) % 8;
        if kind % 2 == 0 {
            let nn: u16 = self.pop();
            self.write_stack_pair(kind / 2, nn);
            12
        } else if kind == 1 {
            self.return_if(true);
            8
        } else if kind == 3 {
            self.return_if(true);
            self.ime = true;
            8
        } else if kind == 5 {
            self.regs.pc = self.regs.get_hl();
            4
        } else {
            self.regs.sp = self.regs.get_hl();
            8
        }
    }

    fn jump_or_far_load(&mut self, opcode: u8) -> (cycles: u8)
        requires
            old(self).wf(),
        ensures
            (final(self)@, cycles) == old(self)@.jump_or_far_load(opcode),
            final(self).wf(),
            4 <= cycles <= 32,
            cycles % 4 == 0,
    {
        let kind: u8 = (opcode / 8) % 8;
        if kind < 4 {
            let cond: bool = self.condition(kind);
            self.jump_to_nn_if(cond);
            12
        } else if kind == 4 {
            self.high_page(self.regs.c, true);
            8
        } else if kind == 5 {
            let nn: u16 = self.next_u16();
            self.move_a(nn, true);
            8
        } else if kind == 6 {
            self.high_page(self.regs.c, false);
            8
        } else {
            let nn: u16 = self.next_u16();
            self.move_a(nn, false);
            16
        }
    }

    fn cb_opcode_step(&mut self) -> (cycles: u8)
        requires
            old(self).wf(),
        ensures
            (final(self)@, cycles) == old(self)@.cb_opcode_step(),
            final(self).wf(),
            4 <= cycles <= 32,
            cycles % 4 == 0,
    {
        let cb_opcode: u8 = self.next_byte();
        let target: u8 = cb_opcode % 8;
        let which: u8 = (cb_opcode / 8) % 8;
        let group: u8 = cb_opcode / 64;
        let value: u8 = self.read_r8(target);
        let flags: Flags = self.regs.get_flags();
        if group == 0 {
            let out: (u8, Flags) = shift(which, value, flags);
            self.regs.set_flags(out.1);
            self.write_r8(target, out.0);
        } else if group == 1 {
            self.regs.set_flags(test_bit(value, which, flags));
        } else if group == 2 {
            self.write_r8(target, reset_bit(value, which));
        } else {
            self.write_r8(target, set_bit(value, which));
        }
        if target == 6 {
            16
        } else {
            8
        }
    }

    fn jump_prefix_or_mask(&mut self, opcode: u8) -> (cycles: u8)
        requires
            old(self).wf(),
        ensures
            (final(self)@, cycles) == old(self)@.jump_prefix_or_mask(opcode),
            final(self).wf(),
            cycles <= 32,
            cycles % 4 == 0,
            cycles < 4 ==> final(self)@.mem.latches.fault is Some,
    {
        if opcode == 0xC3 {
            self.jump_to_nn_if(true);
            12
        } else if opcode == 0xCB {
            self.cb_opcode_step()
        } else if opcode == 0xF3 {
            self.ime = false;
            4
        } else if opcode == 0xFB {
            self.ei = true;
            4
        } else {
            self.unknown(opcode)
        }
    }

    fn call_or_push(&mut self, opcode: u8) -> (cycles: u8)
        requires
            old(self).wf(),
        ensures
            (final(self)@, cycles) == old(self)@.call_or_push(opcode),
            final(self).wf(),
            cycles <= 32,
            cycles % 4 == 0,
            cycles < 4 ==> final(self)@.mem.latches.fault is Some,
    {
        let kind: u8 = (opcode / 8) % 8;
        if opcode % 8 == 4 {
            if kind < 4 {
                let cond: bool = self.condition(kind);
                self.call_if(cond);
                12
            } else {
                self.unknown(opcode)
            }
        } else if kind % 2 == 0 {
            let value: u16 = self.read_stack_pair(kind / 2);
            self.push(value);
            16
        } else if kind == 1 {
            self.call_if(true);
            12
        } else {
            self.unknown(opcode)
        }
    }

    fn execute_low(&mut self, opcode: u8) -> (cycles: u8)
        requires
            old(self).wf(),
        ensures
            (final(self)@, cycles) == old(self)@.execute_low(opcode),
            final(self).wf(),
            4 <= cycles <= 32,
            cycles % 4 == 0,
    {
        let kind: u8 = opcode % 8;
        if kind == 0 {
            self.misc_control(opcode)
        } else if kind == 1 {
            self.wide_load_or_add(opcode)
        } else if kind == 2 {
            self.indirect_load(opcode)
        } else if kind == 3 {
            self.wide_step(opcode)
        } else if kind == 4 {
            self.inc_r8(opcode)
        } else if kind == 5 {
            self.dec_r8(opcode)
        } else if kind == 6 {
            self.load_immediate(opcode)
        } else {
            self.accumulator_op(opcode)
        }
    }

    fn execute_high(&mut self, opcode: u8) -> (cycles: u8)
        requires
            old(self).wf(),
        ensures
            (final(self)@, cycles) == old(self)@.execute_high(opcode),
            final(self).wf(),
            cycles <= 32,
            cycles % 4 == 0,
            cycles < 4 ==> final(self)@.mem.latches.fault is Some,
    {
        let kind: u8 = opcode % 8;
        if kind == 0 {
            self.return_or_high(opcode)
        } else if kind == 1 {
            self.pop_or_jump(opcode)
        } else if kind == 2 {
            self.jump_or_far_load(opcode)
        } else if kind == 3 {
            self.jump_prefix_or_mask(opcode)
        } else if kind == 4 || kind == 5 {
            self.call_or_push(opcode)
        } else if kind == 6 {
            self.alu_immediate(opcode)
        } else {
            self.restart(((opcode / 8) % 8) * 8);
            32
        }
    }

    fn execute(&mut self, opcode: u8) -> (cycles: u8)
        requires
            old(self).wf(),
        ensures
            (final(self)@, cycles) == old(self)@.execute(opcode),
            final(self).wf(),
            cycles <= 32,
            cycles % 4 == 0,
            cycles < 4 ==> final(self)@.mem.latches.fault is Some,
    {
        if opcode == 0x76 {
            self.halted = true;
            4
        } else if opcode / 64 == 0 {
            self.execute_low(opcode)
        } else if opcode / 64 == 1 {
            self.load_r8(opcode)
        } else if opcode / 64 == 2 {
            self.alu_r8(opcode)
        } else {
            self.execute_high(opcode)
        }
    }

    /// returns number of cycles completed
    fn next_intruction(&mut self) -> (cycles: u8)
        requires
            old(self).wf(),
        ensures
            (final(self)@, cycles) == old(self)@.next_intruction(),
            final(self).wf(),
            cycles <= 32,
            cycles % 4 == 0,
            cycles < 4 ==> final(self)@.mem.latches.fault is Some,
    {
        let opcode: u8 = self.next_byte();
        if self.ei {
            self.ime = true;
            self.ei = false;
        }
        self.execute(opcode)
    }
}

/// The most steps that one call runs: twice as many as a frame has steps
/// of four cycles.
pub const FRAME_STEP_LIMIT: u32 = 35112;

/// How a run for one frame ended.
#[derive(Clone, Copy, Debug, PartialEq, Eq, Structural)]
pub enum FrameExit {
    /// The video controller completed a frame.
    Complete,
    /// The step limit was reached before a frame was complete, as happens
    /// while the LCD is off.
    Limit,
    /// The program counter reached a breakpoint; nothing was fetched.
    Breakpoint { address: u16 },
    /// The machine cannot go on.
    Fault(Fault),
}

/// The address that the processor jumps to for an interrupt source.
pub open spec fn vector_of(flag: u8) -> u16 {
    if flag == V_BLANK_INTERRUPT {
        0x40
    } else if flag == STAT_INTERRUPT {
        0x48
    } else if flag == TIMER_INTERRUPT {
        0x50
    } else if flag == SERIAL_INTERRUPT {
        0x58
    } else {
        0x60
    }
}

impl CpuView {
    /// The processor after it looked at one interrupt source, and the
    /// cycles that this took. A source that is both enabled and requested
    /// wakes a halted processor. With the master enable set it is
    /// dispatched: the master enable and the request are cleared, the
    /// program counter goes onto the stack and the processor jumps to the
    /// source's vector; this takes 20 cycles, 24 from a halt. Without the
    /// master enable, waking takes 4 cycles and nothing else happens.
    pub open spec fn handle_interrupt(self, flag: u8, enabled: u8, requested: u8) -> (
        CpuView,
        u8,
    ) {
        if enabled & requested & flag == flag {
            let woken = CpuView { halted: false, ..self };
            if self.ime {
                let cleared = CpuView {
                    ime: false,
                    mem: self.mem.write(INTERUPT_REQUEST, requested ^ flag),
                    ..woken
                };
                (
                    cleared.pushed(self.regs.pc).with_pc(vector_of(flag)),
                    if self.halted {
                        24
                    } else {
                        20
                    },
                )
            } else {
                (
                    woken,
                    if self.halted {
                        4
                    } else {
                        0
                    },
                )
            }
        } else {
            (self, 0)
        }
    }

    /// The next source is looked at only where the ones before took no
    /// cycle.
    pub open spec fn then_interrupt(
        before: (CpuView, u8),
        flag: u8,
        enabled: u8,
        requested: u8,
    ) -> (CpuView, u8) {
        if before.1 > 0 {
            before
        } else {
            before.0.handle_interrupt(flag, enabled, requested)
        }
    }

    /// The processor after it looked at the five interrupt sources in
    /// their order of priority, against the enable and request bytes as
    /// they were before the first.
    pub open spec fn handle_interrupts(self) -> (CpuView, u8) {
        let enabled = self.mem.read(INTERUPTS_ENABLE);
        let requested = self.mem.read(INTERUPT_REQUEST);
        let first = self.handle_interrupt(V_BLANK_INTERRUPT, enabled, requested);
        let second = Self::then_interrupt(first, STAT_INTERRUPT, enabled, requested);
        let third = Self::then_interrupt(second, TIMER_INTERRUPT, enabled, requested);
        let fourth = Self::then_interrupt(third, SERIAL_INTERRUPT, enabled, requested);
        Self::then_interrupt(fourth, JOYPAD_INTERRUPT, enabled, requested)
    }

    /// Whether the processor stops for a breakpoint before its next fetch.
    pub open spec fn at_breakpoint(self) -> bool {
        &&& !self.resuming
        &&& self.breakpoints is Some
        &&& self.breakpoints->Some_0.contains(self.regs.pc)
    }

    /// What a step that took `cycles` hands back: the fault, where one is
    /// latched.
    pub open spec fn finished(self, cycles: u8) -> (CpuView, Result<u8, Pause>) {
        match self.mem.latches.fault {
            Some(fault) => (self, Err(Pause::Fault(fault))),
            None => (self, Ok(cycles)),
        }
    }

    /// One unit of the processor's time: nothing at all once a fault is
    /// latched; else an interrupt dispatch or a wake-up; else a tick of 4
    /// cycles while halted; else a stop at a breakpoint; else one
    /// instruction.
    #[verifier::opaque]
    pub open spec fn step(self) -> (CpuView, Result<u8, Pause>) {
        let interrupted = self.handle_interrupts();
        if self.mem.latches.fault is Some {
            (self, Err(Pause::Fault(self.mem.latches.fault->Some_0)))
        } else if interrupted.1 > 0 {
            interrupted.0.finished(interrupted.1)
        } else if interrupted.0.halted {
            (interrupted.0, Ok(4u8))
        } else if interrupted.0.at_breakpoint() {
            (
                CpuView { resuming: true, ..interrupted.0 },
                Err(Pause::Breakpoint { address: interrupted.0.regs.pc }),
            )
        } else {
            let ran = (CpuView { resuming: false, ..interrupted.0 }).next_intruction();
            ran.0.finished(ran.1)
        }
    }

    /// The share of the processor's cycles that the video controller
    /// takes: all of them, or half of them at double speed.
    pub open spec fn video_share(self, cycles: u8) -> u8 {
        if self.mem.latches.doublespeed {
            cycles / 2
        } else {
            cycles
        }
    }

    /// The machine after the video controller took its share of the
    /// cycles of the processor and the rest of the peripherals took them
    /// all.
    pub open spec fn peripherals_run(self, cycles: u8) -> CpuView {
        self.with_mem(
            self.mem.with_gpu(self.mem.gpu.advanced(self.video_share(cycles)).0).stepped(cycles),
        )
    }

    /// The processor's part of a round of the frame loop: one step, two at
    /// double speed. With the machine after them come the cycles of the
    /// steps that ran, none where the first step paused, and the pause, if
    /// there was one.
    #[verifier::opaque]
    pub open spec fn round_steps(self) -> (CpuView, Option<u8>, Option<Pause>) {
        let first = self.step();
        match first.1 {
            Err(pause) => (first.0, None, Some(pause)),
            Ok(c1) => if self.mem.latches.doublespeed {
                let second = first.0.step();
                match second.1 {
                    Ok(c2) => (second.0, Some((c1 + c2) as u8), None),
                    Err(pause) => (second.0, Some(c1), Some(pause)),
                }
            } else {
                (first.0, Some(c1), None)
            },
        }
    }

    /// One round of the frame loop: the steps of the processor, and then
    /// the peripherals with the cycles of the steps that ran, unchanged.
    #[verifier::opaque]
    pub open spec fn round(self) -> (CpuView, Option<Pause>) {
        let ran = self.round_steps();
        match ran.1 {
            None => (ran.0, ran.2),
            Some(cycles) => (ran.0.peripherals_run(cycles), ran.2),
        }
    }

    /// The machine with the mark of a complete frame taken off.
    pub open spec fn frame_taken(self) -> CpuView {
        self.with_mem(
            self.mem.with_gpu(crate::gpu::GpuView { frame_complete: false, ..self.mem.gpu }),
        )
    }

    /// The machine after rounds of the frame loop until the video
    /// controller completes a frame, a round pauses, or `limit` rounds
    /// have run.
    pub open spec fn frame_run(self, limit: nat) -> (CpuView, FrameExit)
        decreases limit,
    {
        if self.mem.gpu.frame_complete {
            (self.frame_taken(), FrameExit::Complete)
        } else if limit == 0 {
            (self, FrameExit::Limit)
        } else {
            let ran = self.round();
            match ran.1 {
                Some(Pause::Breakpoint { address }) => (ran.0, FrameExit::Breakpoint { address }),
                Some(Pause::Fault(fault)) => (ran.0, FrameExit::Fault(fault)),
                None => ran.0.frame_run((limit - 1) as nat),
            }
        }
    }

    /// The processor at power-on around a memory-mapping unit: registers
    /// cleared, interrupts enabled, no debugger.
    pub open spec fn initial(mem: MmuView) -> CpuView {
        CpuView {
            mem,
            regs: Registers { a: 0, f: 0, b: 0, c: 0, d: 0, e: 0, h: 0, l: 0, sp: 0, pc: 0 },
            ime: true,
            ei: false,
            halted: false,
            breakpoints: None,
            resuming: false,
        }
    }
}

fn vector(flag: u8) -> (address: u16)
    ensures
        address == vector_of(flag),
{
    if flag == V_BLANK_INTERRUPT {
        0x40  // v-blank
    } else if flag == STAT_INTERRUPT {
        0x48  // LCD Stat
    } else if flag == TIMER_INTERRUPT {
        0x50  // Timer
    } else if flag == SERIAL_INTERRUPT {
        0x58  // Serial
    } else {
        0x60  // Joypad
    }
}

impl Cpu {
    /// Builds the machine: the cartridge that the image asks for, the boot
    /// ROM in place, and the processor at power-on.
    pub fn new(rom_bytes: Vec<u8>, save_bytes: Vec<u8>, boot_rom: Vec<u8>, gpu: crate::gpu::Gpu) -> (made:
        Result<Cpu, Fault>)
        requires
            gpu.wf(),
        ensures
            match made {
                Ok(cpu) => MmuView::new_fault(
                    rom_bytes@,
                    save_bytes@,
                    boot_rom@,
                    gpu@.color_mode,
                ) is None && cpu@ == CpuView::initial(
                    MmuView::initial(
                        boot_rom@,
                        gpu@,
                        crate::mbc::MemoryBankView::created(rom_bytes@, save_bytes@),
                    ),
                ) && cpu.wf(),
                Err(fault) => MmuView::new_fault(
                    rom_bytes@,
                    save_bytes@,
                    boot_rom@,
                    gpu@.color_mode,
                ) == Some(fault),
            },
    {
        match Mmu::new(rom_bytes, save_bytes, boot_rom, gpu) {
            Ok(mem) => Ok(
                Cpu {
                    mem,
                    regs: Registers::new(),
                    ime: true,
                    ei: false,
                    halted: false,
                    debugger: None,
                    resuming: false,
                },
            ),
            Err(fault) => Err(fault),
        }
    }

    pub fn attatch_debugger(&mut self, debug: Debugger)
        ensures
            final(self)@ == (CpuView { breakpoints: Some(debug@), ..old(self)@ }),
            old(self).wf() ==> final(self).wf(),
    {
        self.debugger = Some(debug);
    }

    fn handle_interrupt(&mut self, flag: u8, enabled: u8, requested: u8) -> (cycles: u8)
        requires
            old(self).wf(),
        ensures
            (final(self)@, cycles) == old(self)@.handle_interrupt(flag, enabled, requested),
            final(self).wf(),
            cycles == 0 || 4 <= cycles <= 32,
            cycles % 4 == 0,
    {
        let was_halted: bool = self.halted;
        if enabled & requested & flag != flag {
            return 0;
        }
        self.halted = false;
        if !self.ime {
            return if was_halted { 4 } else { 0 };
        }
        self.ime = false;
        self.mem.write(INTERUPT_REQUEST, requested ^ flag);
        let pc: u16 = self.regs.pc;
        self.push(pc);
        self.regs.pc = vector(flag);
        if was_halted {
            24
        } else {
            20
        }
    }

    fn handle_interrupts(&mut self) -> (cycles: u8)
        requires
            old(self).wf(),
        ensures
            (final(self)@, cycles) == old(self)@.handle_interrupts(),
            final(self).wf(),
            cycles == 0 || 4 <= cycles <= 32,
            cycles % 4 == 0,
    {
        //interrupts take 20 cycles to handle (+ 4 if in halt mode)
        let int_enable: u8 = self.mem.read(INTERUPTS_ENABLE);
        let int_request: u8 = self.mem.read(INTERUPT_REQUEST);
        let mut cycles: u8 = self.handle_interrupt(V_BLANK_INTERRUPT, int_enable, int_request);
        if cycles == 0 {
            cycles = self.handle_interrupt(STAT_INTERRUPT, int_enable, int_request);
        }
        if cycles == 0 {
            cycles = self.handle_interrupt(TIMER_INTERRUPT, int_enable, int_request);
        }
        if cycles == 0 {
            cycles = self.handle_interrupt(SERIAL_INTERRUPT, int_enable, int_request);
        }
        if cycles == 0 {
            cycles = self.handle_interrupt(JOYPAD_INTERRUPT, int_enable, int_request);
        }
        cycles
    }

    fn check_breakpoint(&self) -> (hit: bool)
        ensures
            hit == self@.at_breakpoint(),
    {
        if self.resuming {
            return false;
        }
        match &self.debugger {
            Some(debug) => debug.breaks_at(self.regs.pc),
            None => false,
        }
    }

    fn finish(&self, cycles: u8) -> (result: Result<u8, Pause>)
        ensures
            (self@, result) == self@.finished(cycles),
    {
        match self.mem.latches.fault {
            Some(fault) => Err(Pause::Fault(fault)),
            None => Ok(cycles),
        }
    }

    /// Runs the processor for one unit of its time and hands back the
    /// cycles that this took, or why it did not run.
    pub fn step_cycles(&mut self) -> (result: Result<u8, Pause>)
        requires
            old(self).wf(),
        ensures
            (final(self)@, result) == old(self)@.step(),
            final(self).wf(),
            result is Ok ==> 4 <= result->Ok_0 <= 32 && result->Ok_0 % 4 == 0,
    {
        proof {
            reveal(CpuView::step);
        }
        match self.mem.latches.fault {
            Some(fault) => {
                return Err(Pause::Fault(fault));
            },
            None => {},
        }
        let interrupt_cycles: u8 = self.handle_interrupts();
        if interrupt_cycles > 0 {
            return self.finish(interrupt_cycles);
        }
        if self.halted {
            return Ok(4);
        }
        if self.check_breakpoint() {
            self.resuming = true;
            return Err(Pause::Breakpoint { address: self.regs.pc });
        }
        self.resuming = false;
        let cycles: u8 = self.next_intruction();
        self.finish(cycles)
    }

    fn run_peripherals<D: Display>(&mut self, display: &mut D, cycles: u8)
        requires
            old(self).wf(),
        ensures
            final(self)@ == old(self)@.peripherals_run(cycles),
            final(self).wf(),
    {
        let video: u8 = if self.mem.latches.doublespeed { cycles / 2 } else { cycles };
        self.mem.gpu.gpu_step(display, video);
        self.mem.mmu_step(cycles);
    }

    fn round<D: Display>(&mut self, display: &mut D) -> (pause: Option<Pause>)
        requires
            old(self).wf(),
        ensures
            (final(self)@, pause) == old(self)@.round(),
            final(self).wf(),
    {
        proof {
            reveal(CpuView::round);
            reveal(CpuView::round_steps);
        }
        let double: bool = self.mem.latches.doublespeed;
        let first: u8 = match self.step_cycles() {
            Ok(cycles) => cycles,
            Err(pause) => {
                return Some(pause);
            },
        };
        if !double {
            self.run_peripherals(display, first);
            return None;
        }
        match self.step_cycles() {
            Ok(second) => {
                self.run_peripherals(display, first + second);
                None
            },
            Err(pause) => {
                self.run_peripherals(display, first);
                Some(pause)
            },
        }
    }

    /// Runs the machine until the video controller completes a frame and
    /// takes the mark off. Returns early at a breakpoint, on a fault, and
    /// after the step limit.
    pub fn run_one_frame<D: Display>(&mut self, display: &mut D) -> (exit: FrameExit)
        requires
            old(self).wf(),
        ensures
            (final(self)@, exit) == old(self)@.frame_run(FRAME_STEP_LIMIT as nat),
            final(self).wf(),
    {
        let mut remaining: u32 = FRAME_STEP_LIMIT;
        loop
            invariant
                self.wf(),
                self@.frame_run(remaining as nat) == old(self)@.frame_run(FRAME_STEP_LIMIT as nat),
            decreases remaining,
        {
            if self.mem.gpu.frame_complete {
                self.mem.gpu.frame_complete = false;
                return FrameExit::Complete;
            }
            if remaining == 0 {
                return FrameExit::Limit;
            }
            proof {
                let ran = self@.round();
                assert(self@.frame_run(remaining as nat) == match ran.1 {
                    Some(Pause::Breakpoint { address }) => (
                        ran.0,
                        FrameExit::Breakpoint { address },
                    ),
                    Some(Pause::Fault(fault)) => (ran.0, FrameExit::Fault(fault)),
                    None => ran.0.frame_run((remaining - 1) as nat),
                });
            }
            match self.round(display) {
                Some(Pause::Breakpoint { address }) => {
                    return FrameExit::Breakpoint { address };
                },
                Some(Pause::Fault(fault)) => {
                    return FrameExit::Fault(fault);
                },
                None => {},
            }
            remaining = remaining - 1;
        }
    }
}

proof fn lemma_request_bits(enabled: u8, requested: u8)
    by (bit_vector)
    requires
        enabled & requested & 1 == 1,
        enabled & requested & 4 == 4,
    ensures
        (requested ^ 1) & 4 == 4,
        (requested ^ 1) & 1 == 0,
        enabled & (requested ^ 1) & 4 == 4,
{
}

/// With the vertical blanking and the timer both enabled and requested,
/// the vertical blanking is the one dispatched: the processor jumps to its
/// vector, and the request byte that is stored has the bit of the vertical
/// blanking cleared and that of the timer still set.
pub proof fn lemma_v_blank_before_timer(cpu: CpuView)
    requires
        cpu.ime,
        cpu.mem.read(INTERUPTS_ENABLE) & cpu.mem.read(INTERUPT_REQUEST) & V_BLANK_INTERRUPT
            == V_BLANK_INTERRUPT,
        cpu.mem.read(INTERUPTS_ENABLE) & cpu.mem.read(INTERUPT_REQUEST) & TIMER_INTERRUPT
            == TIMER_INTERRUPT,
    ensures
        ({
            let enabled = cpu.mem.read(INTERUPTS_ENABLE);
            let requested = cpu.mem.read(INTERUPT_REQUEST);
            let stored = requested ^ V_BLANK_INTERRUPT;
            &&& cpu.handle_interrupts() == cpu.handle_interrupt(
                V_BLANK_INTERRUPT,
                enabled,
                requested,
            )
            &&& cpu.handle_interrupts().0.regs.pc == 0x40
            &&& cpu.handle_interrupts().1 >= 20
            &&& cpu.handle_interrupts().0 == (CpuView {
                ime: false,
                halted: false,
                mem: cpu.mem.write(INTERUPT_REQUEST, stored),
                ..cpu
            }).pushed(cpu.regs.pc).with_pc(0x40)
            &&& stored & V_BLANK_INTERRUPT == 0
            &&& enabled & stored & TIMER_INTERRUPT == TIMER_INTERRUPT
        }),
{
    lemma_request_bits(cpu.mem.read(INTERUPTS_ENABLE), cpu.mem.read(INTERUPT_REQUEST));
}

/// A push followed by a pop gives the value back and leaves the stack
/// pointer where it was, for a stack in work RAM or high RAM.
pub proof fn lemma_cpu_push_pop(cpu: CpuView, value: u16)
    requires
        cpu.wf(),
        crate::mmu::is_plain_ram(cpu.regs.pushed().sp),
        crate::mmu::is_plain_ram(following(cpu.regs.pushed().sp)),
    ensures
        cpu.pushed(value).popped().1 == value,
        cpu.pushed(value).popped().0.regs == cpu.regs,
{
    crate::mmu::lemma_push_pop(cpu.mem, cpu.regs, value);
}

/// After the peripherals took the cycles of the processor the video
/// controller is where its share of those cycles put it: all of them at
/// native speed, half of them at double speed. The latches of the machine
/// are as they were.
pub proof fn lemma_video_takes_half_at_double_speed(cpu: CpuView, cycles: u8)
    ensures
        crate::mmu::same_position(
            cpu.peripherals_run(cycles).mem.gpu,
            cpu.mem.gpu.advanced(cpu.video_share(cycles)).0,
        ),
        cpu.peripherals_run(cycles).mem.latches == cpu.mem.latches,
{
    crate::mmu::lemma_step_keeps_the_position(
        cpu.mem.with_gpu(cpu.mem.gpu.advanced(cpu.video_share(cycles)).0),
        cycles,
    );
}

/// Whether a number of cycles is one that an instruction or an interrupt
/// can take: a multiple of four from 4 to 32.
pub open spec fn is_cost(cycles: u8) -> bool {
    4 <= cycles <= 32 && cycles % 4 == 0
}

proof fn lemma_low_costs(cpu: CpuView, opcode: u8)
    ensures
        is_cost(cpu.execute_low(opcode).1),
{
}

proof fn lemma_prefixed_costs(cpu: CpuView)
    ensures
        is_cost(cpu.cb_opcode_step().1),
{
}

proof fn lemma_high_costs(cpu: CpuView, opcode: u8)
    ensures
        is_cost(cpu.execute_high(opcode).1) || (cpu.execute_high(opcode).1 == 0
            && cpu.execute_high(opcode).0.mem.latches.fault is Some),
{
    lemma_prefixed_costs(cpu);
}

/// Every instruction takes a multiple of four cycles from 4 to 32, but an
/// opcode without defined behaviour, which takes none and latches a fault.
pub proof fn lemma_instruction_costs(cpu: CpuView, opcode: u8)
    ensures
        is_cost(cpu.execute(opcode).1) || (cpu.execute(opcode).1 == 0 && cpu.execute(
            opcode,
        ).0.mem.latches.fault is Some),
{
    lemma_low_costs(cpu, opcode);
    lemma_high_costs(cpu, opcode);
}

proof fn lemma_interrupt_costs(cpu: CpuView)
    ensures
        cpu.handle_interrupts().1 == 0 || is_cost(cpu.handle_interrupts().1),
{
}

/// A step that runs takes a multiple of four cycles from 4 to 32.
pub proof fn lemma_step_costs(cpu: CpuView)
    ensures
        cpu.step().1 is Ok ==> is_cost(cpu.step().1->Ok_0),
{
    reveal(CpuView::step);
    lemma_interrupt_costs(cpu);
    let interrupted = cpu.handle_interrupts();
    let fetched = (CpuView { resuming: false, ..interrupted.0 }).fetch();
    let armed = if fetched.0.ei {
        CpuView { ime: true, ei: false, ..fetched.0 }
    } else {
        fetched.0
    };
    lemma_instruction_costs(armed, fetched.1);
}

/// The line after `line` in a frame of 154 lines.
pub open spec fn line_after(line: u8) -> int {
    if line >= 153 {
        0
    } else {
        line + 1
    }
}

impl CpuView {
    /// Whether the frame loop runs another round: no frame is complete and
    /// the limit is not reached.
    pub open spec fn running(self, limit: nat) -> bool {
        !self.mem.gpu.frame_complete && limit > 0
    }

    /// The cycles that the steps of the processor take in a round.
    pub open spec fn round_cycles(self) -> int {
        match self.round_steps().1 {
            Some(cycles) => cycles as int,
            None => 0,
        }
    }

    /// The cycles that the video controller is handed in a round.
    pub open spec fn round_video_cycles(self) -> int {
        match self.round_steps().1 {
            Some(cycles) => self.round_steps().0.video_share(cycles) as int,
            None => 0,
        }
    }

    /// Whether the steps of the processor in a round leave the video
    /// controller alone: the LCD is on after them, the line counter, the
    /// position in the line and the mark of a complete frame are as
    /// before, and so is the speed.
    pub open spec fn undisturbed_round(self) -> bool {
        let after = self.round_steps().0;
        &&& after.mem.gpu.control.lcd_enable
        &&& after.mem.gpu.regs.ly == self.mem.gpu.regs.ly
        &&& after.mem.gpu.cycle_count == self.mem.gpu.cycle_count
        &&& after.mem.gpu.frame_complete == self.mem.gpu.frame_complete
        &&& after.mem.latches.doublespeed == self.mem.latches.doublespeed
    }

    /// Whether the program leaves the video controller alone in every
    /// round of a run of the frame loop.
    pub open spec fn undisturbed(self, limit: nat) -> bool
        decreases limit,
    {
        !self.running(limit) || (self.undisturbed_round() && (self.round().1 is None
            ==> self.round().0.undisturbed((limit - 1) as nat)))
    }

    /// The cycles that the steps of the processor take in a run of the
    /// frame loop.
    pub open spec fn frame_cycles(self, limit: nat) -> int
        decreases limit,
    {
        if !self.running(limit) {
            0
        } else if self.round().1 is None {
            self.round_cycles() + self.round().0.frame_cycles((limit - 1) as nat)
        } else {
            self.round_cycles()
        }
    }

    /// The cycles that the video controller is handed in a run of the
    /// frame loop.
    pub open spec fn frame_video_cycles(self, limit: nat) -> int
        decreases limit,
    {
        if !self.running(limit) {
            0
        } else if self.round().1 is None {
            self.round_video_cycles() + self.round().0.frame_video_cycles((limit - 1) as nat)
        } else {
            self.round_video_cycles()
        }
    }

    /// The number of rounds of a run of the frame loop that move the line
    /// counter.
    pub open spec fn frame_lines(self, limit: nat) -> int
        decreases limit,
    {
        if !self.running(limit) {
            0
        } else {
            (if self.round().0.mem.gpu.regs.ly != self.mem.gpu.regs.ly {
                1int
            } else {
                0int
            }) + (if self.round().1 is None {
                self.round().0.frame_lines((limit - 1) as nat)
            } else {
                0int
            })
        }
    }

    /// Whether every round of a run of the frame loop leaves the line
    /// counter where it is or moves it to the line after.
    pub open spec fn line_by_line(self, limit: nat) -> bool
        decreases limit,
    {
        !self.running(limit) || ((self.round().0.mem.gpu.regs.ly == self.mem.gpu.regs.ly
            || self.round().0.mem.gpu.regs.ly == line_after(self.mem.gpu.regs.ly)) && (
        self.round().1 is None ==> self.round().0.line_by_line((limit - 1) as nat)))
    }
}

/// A round without a pause ran its steps and then the peripherals. Its
/// cycles are a multiple of four, and the video controller was handed all
/// of them at native speed and exactly half of them at double speed,
/// where the steps left the speed as it was.
pub proof fn lemma_round_hands_the_cycles_on(cpu: CpuView)
    requires
        cpu.round().1 is None,
    ensures
        cpu.round_steps().1 is Some,
        cpu.round().0 == cpu.round_steps().0.peripherals_run(cpu.round_steps().1->Some_0),
        cpu.round_cycles() % 4 == 0,
        4 <= cpu.round_cycles() <= 64,
        cpu.round_steps().0.mem.latches.doublespeed == cpu.mem.latches.doublespeed ==> (
        if cpu.mem.latches.doublespeed {
            cpu.round_cycles() == 2 * cpu.round_video_cycles()
        } else {
            cpu.round_cycles() == cpu.round_video_cycles()
        }),
{
    reveal(CpuView::round);
    reveal(CpuView::round_steps);
    lemma_step_costs(cpu);
    lemma_step_costs(cpu.step().0);
}

proof fn lemma_round_moves_on(cpu: CpuView)
    requires
        cpu.mem.gpu.control.lcd_enable,
        cpu.mem.gpu.regs.ly <= 153,
        cpu.mem.gpu.cycle_count <= 456,
        cpu.undisturbed_round(),
        cpu.round().1 is None,
    ensures
        crate::gpu::moved_on(cpu.mem.gpu, cpu.round().0.mem.gpu, cpu.round_video_cycles()),
        cpu.round().0.mem.gpu.control.lcd_enable,
        cpu.round().0.mem.gpu.regs.ly <= 153,
        cpu.round().0.mem.gpu.cycle_count <= 456,
        cpu.round().0.mem.latches.doublespeed == cpu.mem.latches.doublespeed,
{
    lemma_round_hands_the_cycles_on(cpu);
    let after = cpu.round_steps().0;
    let cycles = cpu.round_steps().1->Some_0;
    crate::gpu::lemma_place_moves_on(after.mem.gpu, after.video_share(cycles));
    lemma_video_takes_half_at_double_speed(after, cycles);
}

proof fn lemma_run_from(cpu: CpuView, limit: nat, spent: int, passed: int)
    requires
        cpu.mem.gpu.control.lcd_enable,
        cpu.mem.gpu.regs.ly <= 153,
        cpu.mem.gpu.cycle_count <= 456,
        !cpu.mem.gpu.frame_complete ==> spent >= cpu.mem.gpu.regs.ly * 457
            + cpu.mem.gpu.cycle_count && passed == cpu.mem.gpu.regs.ly,
        cpu.mem.gpu.frame_complete ==> spent >= 154 * 457 && passed == 154
            && cpu.mem.gpu.regs.ly == 0 && cpu.mem.gpu.cycle_count == 0,
        cpu.undisturbed(limit),
        cpu.frame_run(limit).1 == FrameExit::Complete,
    ensures
        spent + cpu.frame_video_cycles(limit) >= 154 * 457,
        passed + cpu.frame_lines(limit) == 154,
        cpu.line_by_line(limit),
        cpu.frame_run(limit).0.mem.gpu.regs.ly == 0,
        cpu.frame_run(limit).0.mem.gpu.cycle_count == 0,
        !cpu.frame_run(limit).0.mem.gpu.frame_complete,
        if cpu.mem.latches.doublespeed {
            cpu.frame_cycles(limit) == 2 * cpu.frame_video_cycles(limit)
        } else {
            cpu.frame_cycles(limit) == cpu.frame_video_cycles(limit)
        },
    decreases limit,
{
    if cpu.running(limit) {
        let next = cpu.round().0;
        assert(cpu.round().1 is None);
        lemma_round_hands_the_cycles_on(cpu);
        lemma_round_moves_on(cpu);
        let handed = cpu.round_video_cycles();
        let moved: int = if next.mem.gpu.regs.ly != cpu.mem.gpu.regs.ly { 1 } else { 0 };
        lemma_run_from(next, (limit - 1) as nat, spent + handed, passed + moved);
    }
}

/// A run of the frame loop that starts at the start of line 0 with the
/// LCD on, in which the program leaves the video controller and the speed
/// alone, and that ends with a complete frame: the line counter went, one
/// line at a time, through all 154 lines and is back at line 0; the mark
/// of the complete frame is taken off; the video controller was handed at
/// least 70224 cycles; and the steps of the processor took as many cycles
/// as that at native speed and exactly twice as many at double speed.
pub proof fn lemma_frame_of_an_undisturbed_run(cpu: CpuView, limit: nat)
    requires
        cpu.mem.gpu.control.lcd_enable,
        cpu.mem.gpu.regs.ly == 0,
        cpu.mem.gpu.cycle_count == 0,
        !cpu.mem.gpu.frame_complete,
        cpu.undisturbed(limit),
        cpu.frame_run(limit).1 == FrameExit::Complete,
    ensures
        cpu.line_by_line(limit),
        cpu.frame_lines(limit) == 154,
        cpu.frame_run(limit).0.mem.gpu.regs.ly == 0,
        cpu.frame_run(limit).0.mem.gpu.cycle_count == 0,
        !cpu.frame_run(limit).0.mem.gpu.frame_complete,
        cpu.frame_video_cycles(limit) >= 70224,
        !cpu.mem.latches.doublespeed ==> cpu.frame_cycles(limit) == cpu.frame_video_cycles(limit)
            && cpu.frame_cycles(limit) >= 70224,
        cpu.mem.latches.doublespeed ==> cpu.frame_cycles(limit) == 2 * cpu.frame_video_cycles(
            limit,
        ) && cpu.frame_cycles(limit) >= 140448,
{
    lemma_run_from(cpu, limit, 0, 0);
}

} // verus!
