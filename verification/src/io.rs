//! Ports of the x86 IO space, and the writes that drivers make to them.

use vstd::prelude::*;

verus! {

/// The port that is written to pause briefly between two accesses to slow devices.
pub const IO_WAIT_PORT: u16 = 0x80;

/// A byte written to a port.
#[derive(Clone, Copy, PartialEq, Eq, Structural, Debug)]
pub struct PortWrite {
    pub port: u16,
    pub value: u8,
}

/// The pause: a zero written to the IO wait port.
pub open spec fn io_wait() -> PortWrite {
    PortWrite { port: IO_WAIT_PORT, value: 0 }
}

/// The pause: a zero written to the IO wait port.
pub fn wait() -> (write: PortWrite)
    ensures
        write == io_wait(),
{
    PortWrite { port: IO_WAIT_PORT, value: 0 }
}

/// Represents a port to be accessed through `inb` and `outb`.
#[derive(Clone, Copy, PartialEq, Eq, Structural, Debug)]
pub struct IOPort {
    pub port: u16,
}

impl IOPort {
    pub fn new(port: u16) -> (result: IOPort)
        ensures
            result.port == port,
    {
        IOPort { port }
    }

    /// The write of `value` to this port.
    pub fn write(&self, value: u8) -> (write: PortWrite)
        ensures
            write == (PortWrite { port: self.port, value }),
    {
        PortWrite { port: self.port, value }
    }
}

} // verus!
