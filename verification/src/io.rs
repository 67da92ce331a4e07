//! I/O channel controller: a 256-slot port array backing the channel space,
//! with a downlink and a display peripheral that mirror every write and
//! serve the reads of a few delegating channels.

use vstd::prelude::*;

use crate::periph::IoPeriph;

verus! {

/// Channel number of the link-register alias.
pub const CHANNEL_L: usize = 0o01;

/// Channel number of the return-register alias.
pub const CHANNEL_Q: usize = 0o02;

/// Channel reading the high half of the master counter.
pub const CHANNEL_HISCALAR: usize = 0o03;

/// Channel reading the low half of the master counter.
pub const CHANNEL_LOSCALAR: usize = 0o04;

/// Pitch/yaw jet output channel.
pub const CHANNEL_PYJETS: usize = 0o05;

/// Roll jet output channel.
pub const CHANNEL_ROLLJETS: usize = 0o06;

/// DSKY output channel.
pub const CHANNEL_DSKY: usize = 0o10;

/// Alarm/status output channel.
pub const CHANNEL_DSALMOUT: usize = 0o11;

/// Output channel 12.
pub const CHANNEL_CHAN12: usize = 0o12;

/// Control channel 13; reads are masked to its defined bits.
pub const CHANNEL_CHAN13: usize = 0o13;

/// Output channel 14.
pub const CHANNEL_CHAN14: usize = 0o14;

/// Main keyboard input channel; reads delegate to the display.
pub const CHANNEL_MNKEYIN: usize = 0o15;

/// Navigation keyboard input channel.
pub const CHANNEL_NAVKEYIN: usize = 0o16;

/// Status channel 30.
pub const CHANNEL_CHAN30: usize = 0o30;

/// Status channel 31; always reads ready.
pub const CHANNEL_CHAN31: usize = 0o31;

/// Display status channel 32; read-only, merged with the display's view.
pub const CHANNEL_CHAN32: usize = 0o32;

/// Status channel 33; always reads ready.
pub const CHANNEL_CHAN33: usize = 0o33;

/// Downlink telemetry channel 34.
pub const CHANNEL_CHAN34: usize = 0o34;

/// Downlink telemetry channel 35.
pub const CHANNEL_CHAN35: usize = 0o35;

/// Ghost state of the I/O controller: the port array and which peripherals
/// are attached.
pub ghost struct IoV {
    pub ports: Seq<u16>,
    pub has_downlink: bool,
    pub has_display: bool,
}

/// The port array is 256 slots.
pub open spec fn spec_io_wf(io: IoV) -> bool {
    io.ports.len() == 256
}

/// Whether a channel read is determined by the controller state alone: the
/// delegating channels depend on an attached peripheral, everything else is
/// determined.
pub open spec fn spec_port_read_det(io: IoV, port: int) -> bool {
    if port == 0o15 || port == 0o32 || port == 0o163 {
        !io.has_display
    } else if port == 0o34 || port == 0o35 {
        !io.has_downlink
    } else {
        true
    }
}

/// Value of a channel read. `pv` stands for the word an attached peripheral
/// returned on the delegating channels; it is unused on every determined
/// channel.
pub open spec fn spec_read_port(io: IoV, port: int, pv: u16) -> u16 {
    if port == 0o03 || port == 0o04 {
        0
    } else if port == 0o10 {
        0
    } else if port == 0o13 {
        io.ports[port] & 0x47CF
    } else if port == 0o15 {
        if io.has_display {
            pv
        } else {
            0
        }
    } else if port == 0o16 {
        0
    } else if port == 0o31 {
        0o77777
    } else if port == 0o32 {
        (if io.has_display {
            pv
        } else {
            0o77777
        }) | (io.ports[0o32] & 0o57777)
    } else if port == 0o33 {
        0o77777
    } else if port == 0o34 || port == 0o35 {
        if io.has_downlink {
            pv
        } else {
            0o77777
        }
    } else if port == 0o163 {
        if io.has_display {
            pv
        } else {
            0o77777
        }
    } else if 0 <= port < 256 {
        io.ports[port]
    } else {
        0
    }
}

/// The port array after a channel write: channel 32 is read-only and ports
/// outside the array are unmapped, so those writes change nothing; every
/// other channel stores the value.
pub open spec fn spec_write_port(ports: Seq<u16>, port: int, value: u16) -> Seq<u16> {
    if port == 0o32 || port < 0 || port >= 256 {
        ports
    } else {
        ports.update(port, value)
    }
}

/// The initial port array: calibration channels 0o30..0o33 hold their
/// defaults, everything else is zero.
pub open spec fn spec_initial_ports() -> Seq<u16> {
    Seq::new(256, |i: int| 0u16).update(0o30, 0o37777u16).update(0o31, 0o77777u16).update(
        0o32,
        0o77777u16,
    ).update(0o33, 0o77777u16)
}

/// Routes channel reads and writes between the port array and the attached
/// peripherals.
pub struct IoController<D: IoPeriph, K: IoPeriph> {
    pub port_map: [u16; 256],
    pub downlink: Option<D>,
    pub display: Option<K>,
}

impl<D: IoPeriph, K: IoPeriph> View for IoController<D, K> {
    type V = IoV;

    open spec fn view(&self) -> IoV {
        IoV {
            ports: self.port_map@,
            has_downlink: self.downlink is Some,
            has_display: self.display is Some,
        }
    }
}

impl<D: IoPeriph, K: IoPeriph> IoController<D, K> {
    /// A controller with both peripherals attached and the calibration
    /// channels at their defaults.
    pub fn new(downlink_periph: D, display_unit: K) -> (r: IoController<D, K>)
        ensures
            r@.ports == spec_initial_ports(),
            r@.has_downlink,
            r@.has_display,
    {
        let mut controller = IoController {
            port_map: [0u16; 256],
            downlink: Some(downlink_periph),
            display: Some(display_unit),
        };
        controller.port_map[0o30] = 0o37777;
        controller.port_map[0o31] = 0o77777;
        controller.port_map[0o32] = 0o77777;
        controller.port_map[0o33] = 0o77777;
        proof {
            assert(controller@.ports =~= spec_initial_ports());
        }
        controller
    }

    /// A controller with no peripherals attached.
    pub fn empty() -> (r: IoController<D, K>)
        ensures
            r@.ports == spec_initial_ports(),
            !r@.has_downlink,
            !r@.has_display,
    {
        let mut controller = IoController { port_map: [0u16; 256], downlink: None, display: None };
        controller.port_map[0o30] = 0o37777;
        controller.port_map[0o31] = 0o77777;
        controller.port_map[0o32] = 0o77777;
        controller.port_map[0o33] = 0o77777;
        proof {
            assert(controller@.ports =~= spec_initial_ports());
        }
        controller
    }

    /// Reads a channel. On the delegating channels the result is whatever
    /// the attached peripheral returned; everywhere else it is determined
    /// by the port array.
    pub fn read_port(&self, port: usize) -> (r: u16)
        requires
            spec_io_wf(self@),
        ensures
            spec_port_read_det(self@, port as int) ==> r == spec_read_port(self@, port as int, 0),
            !spec_port_read_det(self@, port as int) ==> exists|pv: u16|
                r == spec_read_port(self@, port as int, pv),
    {
        if port == CHANNEL_LOSCALAR || port == CHANNEL_HISCALAR {
            0
        } else if port == CHANNEL_DSKY {
            0
        } else if port == CHANNEL_CHAN13 {
            self.port_map[port] & 0x47CF
        } else if port == CHANNEL_MNKEYIN {
            match &self.display {
                Some(unit) => {
                    let pv: u16 = unit.read(port);
                    proof {
                        assert(pv == spec_read_port(self@, port as int, pv));
                    }
                    pv
                },
                None => 0o00000,
            }
        } else if port == CHANNEL_NAVKEYIN {
            0
        } else if port == CHANNEL_CHAN31 {
            0o77777
        } else if port == CHANNEL_CHAN32 {
            let display_data: u16 = match &self.display {
                Some(unit) => unit.read(port),
                None => 0o77777,
            };
            let r: u16 = display_data | (self.port_map[0o32] & 0o57777);
            proof {
                assert(r == spec_read_port(self@, port as int, display_data));
            }
            r
        } else if port == CHANNEL_CHAN33 {
            0o77777
        } else if port == CHANNEL_CHAN34 || port == CHANNEL_CHAN35 {
            match &self.downlink {
                Some(periph) => {
                    let pv: u16 = periph.read(port);
                    proof {
                        assert(pv == spec_read_port(self@, port as int, pv));
                    }
                    pv
                },
                None => 0o77777,
            }
        } else if port == 0o163 {
            match &self.display {
                Some(unit) => {
                    let pv: u16 = unit.read(port);
                    proof {
                        assert(pv == spec_read_port(self@, port as int, pv));
                    }
                    pv
                },
                None => 0o77777,
            }
        } else if port < 256 {
            self.port_map[port]
        } else {
            0
        }
    }

    /// Writes a channel: the write is mirrored to both peripherals, then
    /// stored in the port array unless the channel is read-only or
    /// unmapped.
    pub fn write_port(&mut self, port: usize, value: u16)
        requires
            spec_io_wf(old(self)@),
        ensures
            final(self)@.ports == spec_write_port(old(self)@.ports, port as int, value),
            final(self)@.has_downlink == old(self)@.has_downlink,
            final(self)@.has_display == old(self)@.has_display,
    {
        if let Some(unit) = &mut self.display {
            unit.write(port, value);
        }
        if let Some(periph) = &mut self.downlink {
            periph.write(port, value);
        }

        if port == CHANNEL_CHAN32 {
            return ;
        }
        if port < 256 {
            self.port_map[port] = value;
        }
    }

    /// The bitwise OR of the pending-interrupt masks of the attached
    /// peripherals; zero when none is attached.
    pub fn get_interrupt_status(&mut self) -> (r: u16)
        ensures
            final(self)@ == old(self)@,
            !old(self)@.has_display && !old(self)@.has_downlink ==> r == 0,
    {
        let mut interrupt_status: u16 = 0;

        if let Some(unit) = &mut self.display {
            interrupt_status = interrupt_status | unit.is_interrupt();
        }
        if let Some(periph) = &mut self.downlink {
            interrupt_status = interrupt_status | periph.is_interrupt();
        }

        interrupt_status
    }
}

} // verus!
