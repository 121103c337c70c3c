//! The first driver of the chained PICs: remapping them and masking every line.

use vstd::prelude::*;
use crate::io::{PortWrite, io_wait, wait};

verus! {

/// Command: initialize.
pub const COMMAND_INIT: u8 = 0x10;
/// Command: end of interrupt.
pub const COMMAND_END_OF_INTERRUPT: u8 = 0x20;

/// Represents an 8259 PIC.
#[derive(Clone, Copy, PartialEq, Eq, Structural, Debug)]
pub struct Pic {
    pub offset: u8,
    pub command_port: u16,
    pub data_port: u16,
}

/// The writes that initialise a PIC: the init command and its offset, each with a pause.
pub open spec fn initialise_writes(pic: Pic) -> Seq<PortWrite> {
    seq![
        PortWrite { port: pic.command_port, value: COMMAND_INIT },
        io_wait(),
        PortWrite { port: pic.data_port, value: pic.offset },
        io_wait(),
    ]
}

impl Pic {
    pub fn new(offset: u8, command_port: u16, data_port: u16) -> (pic: Pic)
        ensures
            pic == (Pic { offset, command_port, data_port }),
    {
        Pic { offset, command_port, data_port }
    }

    /// Whether the interrupt vector `interrupt_id` is one of this PIC's eight.
    pub fn handles_interrupt(&self, interrupt_id: u8) -> (handles: bool)
        requires
            self.offset + 8 <= u8::MAX,
        ensures
            handles == (self.offset <= interrupt_id < self.offset + 8),
    {
        self.offset <= interrupt_id && interrupt_id < self.offset + 8
    }

    /// The write that acknowledges an interrupt.
    pub fn end_of_interrupt(&self) -> (write: PortWrite)
        ensures
            write == (PortWrite { port: self.command_port, value: COMMAND_END_OF_INTERRUPT }),
    {
        PortWrite { port: self.command_port, value: COMMAND_END_OF_INTERRUPT }
    }

    /// Appends the writes that initialise this PIC.
    pub fn initialise(&self, out: &mut Vec<PortWrite>)
        ensures
            final(out)@ == old(out)@ + initialise_writes(*self),
    {
        out.push(PortWrite { port: self.command_port, value: COMMAND_INIT });
        out.push(wait());
        out.push(PortWrite { port: self.data_port, value: self.offset });
        out.push(wait());
        assert(final(out)@ =~= old(out)@ + initialise_writes(*self));
    }

    /// Appends the writes that set the mode byte `mode`.
    pub fn set_mode(&self, out: &mut Vec<PortWrite>, mode: u8)
        ensures
            final(out)@ == old(out)@ + seq![PortWrite { port: self.data_port, value: mode }, io_wait()],
    {
        out.push(PortWrite { port: self.data_port, value: mode });
        out.push(wait());
        assert(final(out)@ =~= old(out)@ + seq![PortWrite { port: self.data_port, value: mode }, io_wait()]);
    }
}

/// Represents two PICs chained together as they are in the hardware.
#[derive(Clone, Copy, PartialEq, Eq, Structural, Debug)]
pub struct ChainedPics {
    pub master: Pic,
    pub slave: Pic,
}

impl ChainedPics {
    /// The master PIC on ports `0x20`/`0x21` and the slave on `0xA0`/`0xA1`, with the given
    /// vector offsets.
    pub fn new(offsets: (u8, u8)) -> (pics: ChainedPics)
        ensures
            pics.master == (Pic { offset: offsets.0, command_port: 0x20, data_port: 0x21 }),
            pics.slave == (Pic { offset: offsets.1, command_port: 0xA0, data_port: 0xA1 }),
    {
        ChainedPics { master: Pic::new(offsets.0, 0x20, 0x21), slave: Pic::new(offsets.1, 0xA0, 0xA1) }
    }

    /// The writes that remap both PICs to their offsets and then mask every line: both are
    /// initialised, told of their cascade (the slave at line 2 of the master), put in 8086
    /// mode, and masked.
    pub fn remap_and_disable(&self) -> (writes: Vec<PortWrite>)
        ensures
            writes@ == seq![io_wait()] + initialise_writes(self.master) + initialise_writes(
                self.slave,
            ) + seq![
                PortWrite { port: self.master.data_port, value: 4 },
                io_wait(),
                PortWrite { port: self.slave.data_port, value: 2 },
                io_wait(),
                PortWrite { port: self.master.data_port, value: 1 },
                io_wait(),
                PortWrite { port: self.slave.data_port, value: 1 },
                io_wait(),
                PortWrite { port: self.master.data_port, value: 0xFF },
                PortWrite { port: self.slave.data_port, value: 0xFF },
            ],
    {
        let mut writes = Vec::new();
        writes.push(wait());
        self.master.initialise(&mut writes);
        self.slave.initialise(&mut writes);
        let ghost after_init = writes@;
        writes.push(PortWrite { port: self.master.data_port, value: 4 });
        writes.push(wait());
        writes.push(PortWrite { port: self.slave.data_port, value: 2 });
        writes.push(wait());
        self.master.set_mode(&mut writes, 1);
        self.slave.set_mode(&mut writes, 1);
        writes.push(PortWrite { port: self.master.data_port, value: 0xFF });
        writes.push(PortWrite { port: self.slave.data_port, value: 0xFF });
        assert(writes@ =~= after_init + seq![
            PortWrite { port: self.master.data_port, value: 4 },
            io_wait(),
            PortWrite { port: self.slave.data_port, value: 2 },
            io_wait(),
            PortWrite { port: self.master.data_port, value: 1 },
            io_wait(),
            PortWrite { port: self.slave.data_port, value: 1 },
            io_wait(),
            PortWrite { port: self.master.data_port, value: 0xFF },
            PortWrite { port: self.slave.data_port, value: 0xFF },
        ]);
        writes
    }
}

} // verus!
