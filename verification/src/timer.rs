//! The divider and the programmable counter that raises the timer
//! interrupt.
use vstd::prelude::*;
use crate::TIMER_INTERRUPT;

verus! {

pub const TIMER_ENABLE: u8 = 0b00000100;

pub const TIMER_CLOCK_SPEED: u8 = 0b00000011;

#[derive(Clone, Copy, Debug, PartialEq, Eq, Structural)]
pub struct Timer {
    pub div: u8,
    /// Timer counter
    pub tima: u8,
    /// Timer modulo
    pub tma: u8,
    pub enabled: bool,
    pub increment_in_cpu_cycles: u16,
    pub counter: u16,
    pub interrupt: u8,
}

/// The counter period, in cycles, that a clock-select code stands for.
pub open spec fn period_of(code: u8) -> u16 {
    if code == 0 {
        1024
    } else if code == 1 {
        16
    } else if code == 2 {
        64
    } else {
        256
    }
}

/// The clock-select code of a period.
pub open spec fn code_of(period: u16) -> u8 {
    if period == 1024 {
        0
    } else if period == 16 {
        1
    } else if period == 64 {
        2
    } else {
        3
    }
}

impl Timer {
    /// The period is one of the four selectable ones and the cycle
    /// accumulator has not run past the longest of them.
    pub open spec fn wf(&self) -> bool {
        &&& (self.increment_in_cpu_cycles == 1024 || self.increment_in_cpu_cycles == 16
            || self.increment_in_cpu_cycles == 64 || self.increment_in_cpu_cycles == 256)
        &&& self.counter <= 1024
    }

    /// The timer after `cycles` clock cycles. The divider always advances.
    /// While enabled the cycles accumulate; once they exceed the period the
    /// accumulator restarts and the counter goes up by one, or, from 0xFF,
    /// restarts at the modulo with the interrupt raised.
    pub open spec fn stepped(self, cycles: u8) -> Timer {
        let div = ((self.div + cycles) % 256) as u8;
        if !self.enabled {
            Timer { div, ..self }
        } else if self.counter + cycles > self.increment_in_cpu_cycles {
            if self.tima == 0xFF {
                Timer {
                    div,
                    counter: 0,
                    interrupt: TIMER_INTERRUPT,
                    tima: self.tma,
                    ..self
                }
            } else {
                Timer { div, counter: 0, tima: (self.tima + 1) as u8, ..self }
            }
        } else {
            Timer { div, counter: (self.counter + cycles) as u16, ..self }
        }
    }

    /// The control register as it reads back: bits 3 to 7 set, bit 2 the
    /// enable, bits 0 and 1 the clock select.
    pub open spec fn control(&self) -> u8 {
        (0b11111000 + (if self.enabled { 4int } else { 0 }) + code_of(
            self.increment_in_cpu_cycles,
        )) as u8
    }

    /// The timer after a write of `value` to the control register.
    pub open spec fn with_control(self, value: u8) -> Timer {
        Timer {
            enabled: (value / 4) % 2 == 1,
            increment_in_cpu_cycles: period_of(value % 4),
            ..self
        }
    }

    pub fn new() -> (timer: Timer)
        ensures
            timer == (Timer {
                div: 0,
                tima: 0,
                tma: 0,
                enabled: false,
                increment_in_cpu_cycles: 1024,
                counter: 0,
                interrupt: 0,
            }),
            timer.wf(),
    {
        Timer {
            div: 0,
            tima: 0,
            tma: 0,
            enabled: false,
            increment_in_cpu_cycles: 1024,
            counter: 0,
            interrupt: 0,
        }
    }

    pub fn timer_step(&mut self, cycles: u8)
        requires
            old(self).wf(),
        ensures
            *final(self) == old(self).stepped(cycles),
            final(self).wf(),
    {
        self.div = self.div.wrapping_add(cycles);
        if self.enabled {
            self.counter = self.counter + cycles as u16;
            if self.counter > self.increment_in_cpu_cycles {
                self.counter = 0;
                if self.tima == 0xFF {
                    self.interrupt = TIMER_INTERRUPT;
                    self.tima = self.tma;
                } else {
                    self.tima = self.tima + 1;
                }
            }
        }
    }

    pub fn get_div(&self) -> (div: u8)
        ensures
            div == self.div,
    {
        self.div
    }

    /// Any write to the divider register clears it.
    pub fn reset_div(&mut self)
        ensures
            *final(self) == (Timer { div: 0, ..*old(self) }),
    {
        self.div = 0;
    }

    pub fn get_timer_control(&self) -> (tac: u8)
        requires
            self.wf(),
        ensures
            tac == self.control(),
    {
        let mut tac: u8 = 0b11111000;
        if self.enabled {
            tac = tac + TIMER_ENABLE;
        }
        let code: u8 = if self.increment_in_cpu_cycles == 1024 {
            0
        } else if self.increment_in_cpu_cycles == 16 {
            1
        } else if self.increment_in_cpu_cycles == 64 {
            2
        } else {
            3
        };
        tac + code
    }

    pub fn set_timer_control(&mut self, value: u8)
        ensures
            *final(self) == old(self).with_control(value),
            old(self).wf() ==> final(self).wf(),
    {
        proof {
            lemma_control_bits(value);
        }
        self.enabled = value & TIMER_ENABLE > 0;
        let code: u8 = value & TIMER_CLOCK_SPEED;
        self.increment_in_cpu_cycles = if code == 0 {
            1024
        } else if code == 1 {
            16
        } else if code == 2 {
            64
        } else {
            256
        };
    }
}

proof fn lemma_control_bits(value: u8)
    by (bit_vector)
    ensures
        (value & 0b00000100 > 0) == ((value / 4) % 2 == 1),
        value & 0b00000011 == value % 4,
{
}

/// The control register reads back what was written to its low three bits.
pub proof fn lemma_control_roundtrip(timer: Timer, value: u8)
    ensures
        timer.with_control(value).control() == 0b11111000 + value % 8,
{
}

/// The modulo never changes in a step and a disabled timer keeps its
/// counter and its interrupt; the interrupt is raised only in a step in
/// which the counter overflows from 0xFF, and then the counter restarts at
/// the modulo.
pub proof fn lemma_overflow_reloads(timer: Timer, cycles: u8)
    ensures
        timer.stepped(cycles).tma == timer.tma,
        !timer.enabled ==> timer.stepped(cycles).tima == timer.tima && timer.stepped(
            cycles,
        ).interrupt == timer.interrupt,
        timer.stepped(cycles).interrupt != timer.interrupt ==> timer.tima == 0xFF
            && timer.stepped(cycles).tima == timer.tma && timer.stepped(cycles).interrupt
            == TIMER_INTERRUPT,
{
}

} // verus!
