//! The two chained 8259 programmable interrupt controllers: where an IRQ line is handled, how
//! its mask bit is changed, and the writes that remap and disable them.

use vstd::prelude::*;
use crate::io::{PortWrite, io_wait, wait};

verus! {

/// Command: initialize.
pub const COMMAND_INIT: u8 = 0x11;
/// Command: end of interrupt.
pub const COMMAND_END_OF_INTERRUPT: u8 = 0x20;
/// Command: read the interrupt request register.
pub const COMMAND_READ_IRR: u8 = 0x0A;
/// Command: read the in-service register.
pub const COMMAND_READ_ISR: u8 = 0x0B;

/// Represents an 8259 PIC.
#[derive(Clone, Copy, PartialEq, Eq, Structural, Debug)]
pub struct Pic {
    pub offset: u8,
    pub command_port: u16,
    pub data_port: u16,
}

/// A command byte, followed by the pause.
pub open spec fn command_writes(pic: Pic, command: u8) -> Seq<PortWrite> {
    seq![PortWrite { port: pic.command_port, value: command }, io_wait()]
}

/// A data byte, followed by the pause.
pub open spec fn data_writes(pic: Pic, value: u8) -> Seq<PortWrite> {
    seq![PortWrite { port: pic.data_port, value }, io_wait()]
}

impl Pic {
    pub fn new(offset: u8, command_port: u16, data_port: u16) -> (pic: Pic)
        ensures
            pic == (Pic { offset, command_port, data_port }),
    {
        Pic { offset, command_port, data_port }
    }

    fn write_command(&self, out: &mut Vec<PortWrite>, command: u8)
        ensures
            final(out)@ == old(out)@ + command_writes(*self, command),
    {
        out.push(PortWrite { port: self.command_port, value: command });
        out.push(wait());
        assert(final(out)@ =~= old(out)@ + command_writes(*self, command));
    }

    fn write_data(&self, out: &mut Vec<PortWrite>, value: u8)
        ensures
            final(out)@ == old(out)@ + data_writes(*self, value),
    {
        out.push(PortWrite { port: self.data_port, value });
        out.push(wait());
        assert(final(out)@ =~= old(out)@ + data_writes(*self, value));
    }

    /// The writes that initialize the PIC: the init command, then its vector offset.
    fn initialize(&self, out: &mut Vec<PortWrite>)
        ensures
            final(out)@ == old(out)@ + command_writes(*self, COMMAND_INIT) + data_writes(
                *self,
                self.offset,
            ),
    {
        self.write_command(out, COMMAND_INIT);
        self.write_data(out, self.offset);
        assert(final(out)@ =~= old(out)@ + command_writes(*self, COMMAND_INIT) + data_writes(
            *self,
            self.offset,
        ));
    }
}

/// Where an IRQ line is handled: on the master or the slave PIC, with the line's number there.
#[derive(Clone, Copy, PartialEq, Eq, Structural, Debug)]
pub enum IrqDestination {
    Master(u8),
    Slave(u8),
}

/// Represents two PICs chained together as they are in the hardware.
#[derive(Clone, Copy, PartialEq, Eq, Structural, Debug)]
pub struct ChainedPics {
    pub master: Pic,
    pub slave: Pic,
}

/// What handling an interrupt does, given the in-service register of the PIC it came from.
#[derive(PartialEq, Eq, Debug)]
pub struct InterruptHandling {
    /// Whether the interrupt is real, so its handler runs.
    pub run_handler: bool,
    /// The end-of-interrupt writes, after the handler.
    pub end_of_interrupt: Vec<PortWrite>,
}

impl ChainedPics {
    /// The master PIC at vector `0x20` (ports `0x20`, `0x21`) and the slave at `0x28` (ports
    /// `0xA0`, `0xA1`).
    pub fn new() -> (pics: ChainedPics)
        ensures
            pics.master == (Pic { offset: 0x20, command_port: 0x20, data_port: 0x21 }),
            pics.slave == (Pic { offset: 0x28, command_port: 0xA0, data_port: 0xA1 }),
    {
        ChainedPics { master: Pic::new(0x20, 0x20, 0x21), slave: Pic::new(0x28, 0xA0, 0xA1) }
    }

    pub open spec fn spec_destination(irq: u8) -> IrqDestination {
        if irq < 8 {
            IrqDestination::Master(irq % 8)
        } else {
            IrqDestination::Slave(irq % 8)
        }
    }

    /// IRQs 0-7 go to the master PIC, while 8-15 go to the slave.
    pub fn destination(&self, irq: u8) -> (destination: IrqDestination)
        requires
            irq < 16,
        ensures
            destination == Self::spec_destination(irq),
    {
        if irq < 8 {
            IrqDestination::Master(irq % 8)
        } else {
            IrqDestination::Slave(irq % 8)
        }
    }

    pub open spec fn spec_pic_of(self, irq: u8) -> Pic {
        if irq < 8 {
            self.master
        } else {
            self.slave
        }
    }

    /// The data port holding the mask of the PIC that handles `irq`; it is read before the
    /// line is enabled or disabled.
    pub fn mask_port(&self, irq: u8) -> (port: u16)
        requires
            irq < 16,
        ensures
            port == self.spec_pic_of(irq).data_port,
    {
        if irq < 8 {
            self.master.data_port
        } else {
            self.slave.data_port
        }
    }

    /// The writes that unmask line `irq`, given the current `mask` of its PIC: the line's bit
    /// is cleared and every other bit kept.
    pub fn enable_line(&self, irq: u8, mask: u8) -> (writes: Vec<PortWrite>)
        requires
            irq < 16,
        ensures
            writes@ == data_writes(self.spec_pic_of(irq), mask & !(1u8 << (irq % 8))),
    {
        let pic = if irq < 8 {
            self.master
        } else {
            self.slave
        };
        let line = irq % 8;
        let mut writes = Vec::new();
        pic.write_data(&mut writes, mask & !(1u8 << line));
        writes
    }

    /// The writes that mask line `irq`, given the current `mask` of its PIC: the line's bit is
    /// set and every other bit kept.
    pub fn disable_line(&self, irq: u8, mask: u8) -> (writes: Vec<PortWrite>)
        requires
            irq < 16,
        ensures
            writes@ == data_writes(self.spec_pic_of(irq), mask | (1u8 << (irq % 8))),
    {
        let pic = if irq < 8 {
            self.master
        } else {
            self.slave
        };
        let line = irq % 8;
        let mut writes = Vec::new();
        pic.write_data(&mut writes, mask | (1u8 << line));
        writes
    }

    /// The writes that read the in-service register of the PIC that handles `irq`; the
    /// register is then read from that PIC's command port.
    pub fn isr_request(&self, irq: u8) -> (writes: Vec<PortWrite>)
        requires
            irq < 16,
        ensures
            writes@ == command_writes(self.spec_pic_of(irq), COMMAND_READ_ISR),
    {
        let pic = if irq < 8 {
            self.master
        } else {
            self.slave
        };
        let mut writes = Vec::new();
        pic.write_command(&mut writes, COMMAND_READ_ISR);
        writes
    }

    /// Handling interrupt `irq`, given the in-service register `isr` of its PIC. The interrupt
    /// is spurious when its line's bit is clear there. A real interrupt runs its handler and is
    /// acknowledged at its own PIC; a spurious one from the slave is acknowledged at the master
    /// only, and a spurious one from the master not at all.
    pub fn handle_interrupt(&self, irq: u8, isr: u8) -> (handling: InterruptHandling)
        requires
            irq < 16,
        ensures
            handling.run_handler == (isr & (1u8 << (irq % 8)) != 0),
            handling.end_of_interrupt@ == (if handling.run_handler {
                command_writes(self.spec_pic_of(irq), COMMAND_END_OF_INTERRUPT)
            } else if irq < 8 {
                Seq::<PortWrite>::empty()
            } else {
                command_writes(self.master, COMMAND_END_OF_INTERRUPT)
            }),
    {
        let line = irq % 8;
        let genuine = isr & (1u8 << line) != 0;
        let mut end_of_interrupt = Vec::new();
        match self.destination(irq) {
            IrqDestination::Master(_) => {
                if genuine {
                    self.master.write_command(&mut end_of_interrupt, COMMAND_END_OF_INTERRUPT);
                }
            },
            IrqDestination::Slave(_) => {
                if genuine {
                    self.slave.write_command(&mut end_of_interrupt, COMMAND_END_OF_INTERRUPT);
                } else {
                    self.master.write_command(&mut end_of_interrupt, COMMAND_END_OF_INTERRUPT);
                }
            },
        }
        assert(end_of_interrupt@.len() == 0 ==> end_of_interrupt@ =~= Seq::<PortWrite>::empty());
        InterruptHandling { run_handler: genuine, end_of_interrupt }
    }

    /// The writes that initialize both PICs and remap their vectors to their offsets, given the
    /// masks read from their data ports before; the masks are restored at the end.
    pub fn init_and_remap(&self, master_mask: u8, slave_mask: u8) -> (writes: Vec<PortWrite>)
        ensures
            writes@ == seq![io_wait()] + command_writes(self.master, COMMAND_INIT) + data_writes(
                self.master,
                self.master.offset,
            ) + command_writes(self.slave, COMMAND_INIT) + data_writes(
                self.slave,
                self.slave.offset,
            ) + data_writes(self.master, 4) + data_writes(self.slave, 2) + data_writes(
                self.master,
                1,
            ) + data_writes(self.slave, 1) + data_writes(self.master, master_mask) + data_writes(
                self.slave,
                slave_mask,
            ),
    {
        let mut writes = Vec::new();
        writes.push(wait());
        self.master.initialize(&mut writes);
        self.slave.initialize(&mut writes);
        self.master.write_data(&mut writes, 4);
        self.slave.write_data(&mut writes, 2);
        self.master.write_data(&mut writes, 1);
        self.slave.write_data(&mut writes, 1);
        self.master.write_data(&mut writes, master_mask);
        self.slave.write_data(&mut writes, slave_mask);
        writes
    }

    /// The writes that mask all interrupts on both PICs, so that every interrupt is ignored.
    pub fn disable(&self) -> (writes: Vec<PortWrite>)
        ensures
            writes@ == data_writes(self.master, 0xFF) + data_writes(self.slave, 0xFF),
    {
        let mut writes = Vec::new();
        self.master.write_data(&mut writes, 0xFF);
        self.slave.write_data(&mut writes, 0xFF);
        writes
    }
}

} // verus!
