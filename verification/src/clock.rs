//! Timers and interrupt flags: the master counter, three hardware timers,
//! and the downlink/uplink interrupt-flag pair with its service counter.

use vstd::prelude::*;

verus! {

/// Memory address of timer T2.
pub const TIMER_2_ADDRESS: usize = 0o24;

/// Memory address of timer T1.
pub const TIMER_1_ADDRESS: usize = 0o25;

/// Memory address of timer T3.
pub const TIMER_3_ADDRESS: usize = 0o26;

/// Memory address of timer T4.
pub const TIMER_4_ADDRESS: usize = 0o27;

/// Interrupt index of the T4 periodic interrupt.
pub const INTERRUPT_TIMER4: u8 = 0x4;

/// Interrupt index of the downlink interrupt.
pub const INTERRUPT_DOWNLINK: u8 = 0x8;

/// Timing state: master counter, cycle counter, interrupt service counter,
/// downlink/uplink flag pair, and the three timers.
#[derive(Clone, Copy, Debug, PartialEq, Eq, Structural)]
pub struct Clocks {
    pub counter: u32,
    pub mct_counter: u16,
    pub rupt_counter: u32,
    pub interrupt_flags: u8,
    pub timer1: u32,
    pub timer3: u16,
    pub timer4: u16,
}

/// Selects which timer a value is written to.
pub enum ClockType {
    TIMER1,
    TIMER3,
    TIMER4,
}

/// Flag state after merging new downlink/uplink interrupt bits: when both
/// bits become set they clear together and the service counter restarts.
pub open spec fn spec_update_interrupt_flags(c: Clocks, flags: u8) -> Clocks {
    let merged = c.interrupt_flags | flags;
    if merged == 0x3 {
        Clocks { interrupt_flags: 0, rupt_counter: 0, ..c }
    } else {
        Clocks { interrupt_flags: merged, ..c }
    }
}

/// Value read at a timer address: T1 is 14 bits, T3 and T4 are full words,
/// anything else reads zero.
pub open spec fn spec_clock_read(c: Clocks, address: int) -> u16 {
    if address == 0o25 {
        (c.timer1 & 0o37777) as u16
    } else if address == 0o26 {
        c.timer3
    } else if address == 0o27 {
        c.timer4
    } else {
        0
    }
}

/// Timer state after a write: T1 takes the raw value, T3 and T4 are masked
/// to 15 bits, and writes elsewhere change nothing.
pub open spec fn spec_clock_write(c: Clocks, address: int, value: u16) -> Clocks {
    if address == 0o25 {
        Clocks { timer1: value as u32, ..c }
    } else if address == 0o26 {
        Clocks { timer3: value & 0o77777, ..c }
    } else if address == 0o27 {
        Clocks { timer4: value & 0o77777, ..c }
    } else {
        c
    }
}

impl Clocks {
    /// Fresh timing state: the service counter starts at one, all else zero.
    pub fn new() -> (r: Clocks)
        ensures
            r == (Clocks {
                counter: 0,
                mct_counter: 0,
                rupt_counter: 1,
                interrupt_flags: 0,
                timer1: 0,
                timer3: 0,
                timer4: 0,
            }),
    {
        Clocks {
            rupt_counter: 1,
            interrupt_flags: 0,
            counter: 0,
            mct_counter: 0,
            timer1: 0,
            timer3: 0,
            timer4: 0,
        }
    }

    /// Merges new interrupt flag bits into the pair; a complete pair clears
    /// and restarts the service counter.
    pub fn update_interrupt_flags(&mut self, flags: u8)
        ensures
            *final(self) == spec_update_interrupt_flags(*old(self), flags),
    {
        self.interrupt_flags = self.interrupt_flags | flags;
        if self.interrupt_flags == 0x3 {
            self.interrupt_flags = 0x0;
            self.rupt_counter = 0;
        }
    }

    /// Advances timer T4 one tick; at half range it resets and raises the T4
    /// interrupt bit.
    pub fn process_timer4(&mut self) -> (r: u16)
        ensures
            ({
                let ticked = ((old(self).timer4 + 1) as u32 & 0o77777) as u16;
                if ticked == 0o40000 {
                    final(self).timer4 == 0 && r == (1u16 << 4u16)
                } else {
                    final(self).timer4 == ticked && r == 0
                }
            }),
            *final(self) == (Clocks { timer4: final(self).timer4, ..*old(self) }),
    {
        let ticked: u32 = (self.timer4 as u32 + 1) & 0o77777;
        self.timer4 = ticked as u16;
        if self.timer4 == 0o40000 {
            self.timer4 = 0;
            return 1u16 << (INTERRUPT_TIMER4 as u16);
        }
        0
    }

    /// The downlink interrupt bit.
    pub fn trigger_interrupt(&mut self) -> (r: u16)
        ensures
            *final(self) == *old(self),
            r == (1u16 << 8u16),
    {
        1u16 << (INTERRUPT_DOWNLINK as u16)
    }

    /// Sets a timer: T1 takes the raw value, T3 and T4 are masked to 15
    /// bits.
    pub fn set_time_value(&mut self, clock_type: ClockType, value: u16)
        ensures
            *final(self) == match clock_type {
                ClockType::TIMER1 => Clocks { timer1: value as u32, ..*old(self) },
                ClockType::TIMER3 => Clocks { timer3: value & 0o77777, ..*old(self) },
                ClockType::TIMER4 => Clocks { timer4: value & 0o77777, ..*old(self) },
            },
    {
        match clock_type {
            ClockType::TIMER1 => self.timer1 = value as u32,
            ClockType::TIMER3 => self.timer3 = value & 0o77777,
            ClockType::TIMER4 => self.timer4 = value & 0o77777,
        }
    }

    /// The master counter value.
    pub fn get_counter_value(&self) -> (r: u32)
        ensures
            r == self.counter,
    {
        self.counter
    }

    /// Clears the three timers.
    pub fn reset(&mut self)
        ensures
            *final(self) == (Clocks { timer1: 0, timer3: 0, timer4: 0, ..*old(self) }),
    {
        self.timer1 = 0;
        self.timer3 = 0;
        self.timer4 = 0;
    }

    /// Reads a timer register.
    pub fn read(&self, _bank: usize, address: usize) -> (r: u16)
        ensures
            r == spec_clock_read(*self, address as int),
    {
        if address == TIMER_1_ADDRESS {
            (self.timer1 & 0o37777) as u16
        } else if address == TIMER_3_ADDRESS {
            self.timer3
        } else if address == TIMER_4_ADDRESS {
            self.timer4
        } else {
            0
        }
    }

    /// Writes a timer register.
    pub fn write(&mut self, _bank: usize, address: usize, value: u16)
        ensures
            *final(self) == spec_clock_write(*old(self), address as int, value),
    {
        if address == TIMER_1_ADDRESS {
            self.set_time_value(ClockType::TIMER1, value);
        } else if address == TIMER_3_ADDRESS {
            self.set_time_value(ClockType::TIMER3, value);
        } else if address == TIMER_4_ADDRESS {
            self.set_time_value(ClockType::TIMER4, value);
        }
    }
}

} // verus!
