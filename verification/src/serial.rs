//! 8250 UART serial ports: the register writes that configure a port, and what its line
//! status allows.

use vstd::prelude::*;
use crate::io::PortWrite;

verus! {

pub const PORT_1_ADDR: u16 = 0x3f8;
pub const PORT_2_ADDR: u16 = 0x2f8;
pub const MAX_BAUD: u32 = 115200;

pub const DATA_READY: u8 = 1;
pub const OVERRUN_ERROR: u8 = 2;
pub const PARITY_ERROR: u8 = 4;
pub const FRAMING_ERROR: u8 = 8;
pub const BREAK_INDICATOR: u8 = 0x10;
pub const TRANSMITTER_HOLDING_REGISTER_EMPTY: u8 = 0x20;
pub const TRANSMITTER_EMPTY: u8 = 0x40;
pub const IMPENDING_ERROR: u8 = 0x80;

/// FIFO control: enable, reset both FIFOs, 64 byte buffer, trigger level of 56 bytes.
pub const FIFO_FLAGS: u8 = 0xE7;
/// Line control: the divisor latch access bit.
pub const DLAB: u8 = 0x80;
/// Line control: 8 bits, no parity, one stop bit.
pub const LINE_8N1: u8 = 0x03;
/// Modem control: request to send and data terminal ready.
pub const MODEM_READY: u8 = 0x01;
/// Modem control: auxiliary output 2, which enables the port's interrupts.
pub const MODEM_IRQS: u8 = 0x08;

/// The line status of a serial port.
#[derive(Clone, Copy, PartialEq, Eq, Structural, Debug)]
pub struct LineStatus {
    pub bits: u8,
}

impl LineStatus {
    pub open spec fn has(self, flag: u8) -> bool {
        self.bits & flag == flag
    }

    /// Every bit of the status byte is a known flag.
    pub fn from_bits_truncate(bits: u8) -> (status: LineStatus)
        ensures
            status.bits == bits,
    {
        LineStatus { bits }
    }

    pub fn contains(&self, flag: u8) -> (result: bool)
        ensures
            result == self.has(flag),
    {
        self.bits & flag == flag
    }
}

/// A baud rate that no divisor of the maximum baud rate gives.
#[derive(Clone, Copy, PartialEq, Eq, Structural, Debug)]
pub struct InvalidBaudrate(pub u32);

/// A serial port at `base` and its registers above it.
#[derive(Clone, Copy, PartialEq, Eq, Structural, Debug)]
pub struct SerialPort {
    pub initialized: bool,
    pub base: u16,
}

/// The divisor for `baud`, when it gives `baud` exactly.
pub open spec fn exact_divisor(baud: u32) -> bool {
    MAX_BAUD / (MAX_BAUD / baud) == baud
}

impl SerialPort {
    /// An uninitialized port at `port_base`.
    pub fn new(port_base: u16) -> (port: SerialPort)
        requires
            port_base + 7 <= u16::MAX,
        ensures
            port == (SerialPort { initialized: false, base: port_base }),
    {
        SerialPort { initialized: false, base: port_base }
    }

    pub open spec fn spec_init_writes(self, divisor: u32, enable_irqs: bool) -> Seq<PortWrite> {
        seq![
            PortWrite { port: (self.base + 1) as u16, value: 0 },
            PortWrite { port: (self.base + 3) as u16, value: DLAB },
            PortWrite { port: self.base, value: (divisor % 256) as u8 },
            PortWrite { port: (self.base + 1) as u16, value: (divisor / 256) as u8 },
            PortWrite { port: (self.base + 3) as u16, value: LINE_8N1 },
            PortWrite { port: (self.base + 2) as u16, value: FIFO_FLAGS },
            PortWrite {
                port: (self.base + 4) as u16,
                value: if enable_irqs {
                    MODEM_READY | MODEM_IRQS
                } else {
                    MODEM_READY
                },
            },
        ]
    }

    /// Initializes the serial port at `baud` baud: returns the register writes that disable
    /// its interrupts, set the divisor, select 8N1, enable the FIFOs and set the modem
    /// control, or an error when `baud` is not the maximum baud rate divided by a whole
    /// number.
    pub fn init(&mut self, baud: u32, enable_irqs: bool) -> (result: Result<
        Vec<PortWrite>,
        InvalidBaudrate,
    >)
        requires
            0 < baud <= MAX_BAUD,
            old(self).base + 7 <= u16::MAX,
        ensures
            final(self).base == old(self).base,
            exact_divisor(baud) ==> final(self).initialized && result is Ok && result->Ok_0@
                == old(self).spec_init_writes(MAX_BAUD / baud, enable_irqs),
            !exact_divisor(baud) ==> result == Err::<Vec<PortWrite>, InvalidBaudrate>(
                InvalidBaudrate(baud),
            ) && *final(self) == *old(self),
    {
        let divisor = MAX_BAUD / baud;
        assert(divisor >= 1) by (nonlinear_arith)
            requires
                0 < baud <= 115200,
                divisor == 115200u32 / baud,
        ;
        if MAX_BAUD / divisor != baud {
            return Err(InvalidBaudrate(baud));
        }
        let base = self.base;
        let mut writes = Vec::new();
        writes.push(PortWrite { port: base + 1, value: 0 });
        writes.push(PortWrite { port: base + 3, value: DLAB });
        assert(divisor & 0xFF == divisor % 256) by (bit_vector);
        assert(divisor >> 8 == divisor / 256) by (bit_vector);
        writes.push(PortWrite { port: base, value: (divisor & 0xFF) as u8 });
        writes.push(PortWrite { port: base + 1, value: (divisor >> 8) as u8 });
        writes.push(PortWrite { port: base + 3, value: LINE_8N1 });
        writes.push(PortWrite { port: base + 2, value: FIFO_FLAGS });
        let mut modem_ctrl_flags = MODEM_READY;
        if enable_irqs {
            modem_ctrl_flags = modem_ctrl_flags | MODEM_IRQS;
        }
        writes.push(PortWrite { port: base + 4, value: modem_ctrl_flags });
        self.initialized = true;
        assert(writes@ =~= old(self).spec_init_writes(divisor, enable_irqs));
        Ok(writes)
    }

    /// The port that the status is read from (the line status register).
    pub fn status_port(&self) -> (port: u16)
        requires
            self.base + 5 <= u16::MAX,
        ensures
            port == self.base + 5,
    {
        self.base + 5
    }

    /// The line status, from the byte read from `status_port`. The port must be initialized.
    pub fn status(&self, byte: u8) -> (status: LineStatus)
        requires
            self.initialized,
        ensures
            status.bits == byte,
    {
        LineStatus::from_bits_truncate(byte)
    }

    /// Whether a byte is waiting to be read from the data port, given the status byte.
    pub fn try_read(&self, byte: u8) -> (ready: bool)
        requires
            self.initialized,
        ensures
            ready == (byte & DATA_READY == DATA_READY),
    {
        self.status(byte).contains(DATA_READY)
    }

    /// Whether a byte can be written to the data port now, given the status byte.
    pub fn try_write(&self, byte: u8) -> (ready: bool)
        requires
            self.initialized,
        ensures
            ready == (byte & TRANSMITTER_HOLDING_REGISTER_EMPTY
                == TRANSMITTER_HOLDING_REGISTER_EMPTY),
    {
        self.status(byte).contains(TRANSMITTER_HOLDING_REGISTER_EMPTY)
    }
}

} // verus!
