//! Special registers: display, optical, and inertial-platform sensor slots
//! plus command-register placeholders. All are read-only through the memory
//! map; writes are ignored.

use vstd::prelude::*;

verus! {

/// Display/optical/inertial sensor registers.
#[derive(Clone, Copy, Debug)]
pub struct SpecialRegisters {
    pub control_display: (u16, u16, u16),
    pub optical_sensors: (u16, u16),
    pub inertial_platform: (u16, u16, u16),
}

/// Value read from a special register: sensor slots read their stored word,
/// command registers and unknown addresses read zero, as does any bank other
/// than zero.
pub open spec fn spec_special_read(s: SpecialRegisters, bank: int, address: int) -> u16 {
    if bank != 0 {
        0
    } else if address == 0o32 {
        s.control_display.0
    } else if address == 0o33 {
        s.control_display.1
    } else if address == 0o34 {
        s.control_display.2
    } else if address == 0o36 {
        s.optical_sensors.0
    } else if address == 0o35 {
        s.optical_sensors.1
    } else if address == 0o37 {
        s.inertial_platform.0
    } else if address == 0o40 {
        s.inertial_platform.1
    } else if address == 0o41 {
        s.inertial_platform.2
    } else {
        0
    }
}

impl SpecialRegisters {
    /// All sensor slots cleared.
    pub fn new() -> (r: SpecialRegisters)
        ensures
            r == (SpecialRegisters {
                control_display: (0u16, 0u16, 0u16),
                optical_sensors: (0u16, 0u16),
                inertial_platform: (0u16, 0u16, 0u16),
            }),
    {
        SpecialRegisters {
            control_display: (0, 0, 0),
            optical_sensors: (0, 0),
            inertial_platform: (0, 0, 0),
        }
    }

    /// The special registers have no state to restore.
    pub fn reset(&mut self)
        ensures
            *final(self) == *old(self),
    {
    }

    /// Reads a special register.
    pub fn read(&self, memory_bank: usize, register_address: usize) -> (r: u16)
        ensures
            r == spec_special_read(*self, memory_bank as int, register_address as int),
    {
        if memory_bank != 0 {
            return 0;
        }
        if register_address == 0o32 {
            self.control_display.0
        } else if register_address == 0o33 {
            self.control_display.1
        } else if register_address == 0o34 {
            self.control_display.2
        } else if register_address == 0o36 {
            self.optical_sensors.0
        } else if register_address == 0o35 {
            self.optical_sensors.1
        } else if register_address == 0o37 {
            self.inertial_platform.0
        } else if register_address == 0o40 {
            self.inertial_platform.1
        } else if register_address == 0o41 {
            self.inertial_platform.2
        } else {
            0
        }
    }

    /// Every special register is read-only: a write changes nothing.
    pub fn write(&mut self, _memory_bank: usize, _register_address: usize, _data: u16)
        ensures
            *final(self) == *old(self),
    {
    }
}

} // verus!
