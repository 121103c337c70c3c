//! Port-level requests of the first PS/2 driver: which byte goes to which port for each
//! controller command, and when a polled status allows an access.

use vstd::prelude::*;

verus! {

/// The data port.
pub const DATA_PORT: u16 = 0x60;
/// The status port (read).
pub const STATUS_PORT: u16 = 0x64;
/// The command port (write).
pub const COMMAND_PORT: u16 = 0x64;

/// How many times the status is polled for a byte to read before giving up.
pub const WAIT_TIMEOUT: u16 = 1000;

/// Status bit: the output buffer holds a byte.
pub const OUTPUT_STATUS_BIT: u8 = 1;
/// Status bit: the input buffer is full.
pub const INPUT_STATUS_BIT: u8 = 2;

/// A PS/2 controller command without a return value.
#[derive(Clone, Copy, PartialEq, Eq, Structural, Debug)]
pub enum ControllerCommand {
    WriteConfig,
    DisablePort2,
    EnablePort2,
    DisablePort1,
    EnablePort1,
    WriteInputPort2,
}

impl ControllerCommand {
    pub open spec fn spec_value(self) -> u8 {
        match self {
            ControllerCommand::WriteConfig => 0x60,
            ControllerCommand::DisablePort2 => 0xA7,
            ControllerCommand::EnablePort2 => 0xA8,
            ControllerCommand::DisablePort1 => 0xAD,
            ControllerCommand::EnablePort1 => 0xAE,
            ControllerCommand::WriteInputPort2 => 0xD4,
        }
    }

    /// The command byte.
    pub fn value(self) -> (value: u8)
        ensures
            value == self.spec_value(),
    {
        match self {
            ControllerCommand::WriteConfig => 0x60,
            ControllerCommand::DisablePort2 => 0xA7,
            ControllerCommand::EnablePort2 => 0xA8,
            ControllerCommand::DisablePort1 => 0xAD,
            ControllerCommand::EnablePort1 => 0xAE,
            ControllerCommand::WriteInputPort2 => 0xD4,
        }
    }
}

/// A PS/2 controller command with a return value.
#[derive(Clone, Copy, PartialEq, Eq, Structural, Debug)]
pub enum ControllerReturnCommand {
    ReadConfig,
    TestController,
    TestPort1,
    TestPort2,
    IdentifyDevice,
}

impl ControllerReturnCommand {
    pub open spec fn spec_value(self) -> u8 {
        match self {
            ControllerReturnCommand::ReadConfig => 0x20,
            ControllerReturnCommand::TestController => 0xAA,
            ControllerReturnCommand::TestPort1 => 0xAB,
            ControllerReturnCommand::TestPort2 => 0xA9,
            ControllerReturnCommand::IdentifyDevice => 0xF2,
        }
    }

    /// The command byte.
    pub fn value(self) -> (value: u8)
        ensures
            value == self.spec_value(),
    {
        match self {
            ControllerReturnCommand::ReadConfig => 0x20,
            ControllerReturnCommand::TestController => 0xAA,
            ControllerReturnCommand::TestPort1 => 0xAB,
            ControllerReturnCommand::TestPort2 => 0xA9,
            ControllerReturnCommand::IdentifyDevice => 0xF2,
        }
    }
}

/// A PS/2 device command opcode.
#[derive(Clone, Copy, PartialEq, Eq, Structural, Debug)]
pub enum DeviceCommand {
    EnableScanning,
    DisableScanning,
    SetDefaults,
    SetScancode,
    Reset,
}

impl DeviceCommand {
    pub open spec fn spec_value(self) -> u8 {
        match self {
            DeviceCommand::EnableScanning => 0xF4,
            DeviceCommand::DisableScanning => 0xF5,
            DeviceCommand::SetDefaults => 0xF6,
            DeviceCommand::SetScancode => 0xF0,
            DeviceCommand::Reset => 0xFF,
        }
    }

    /// The command byte.
    pub fn value(self) -> (value: u8)
        ensures
            value == self.spec_value(),
    {
        match self {
            DeviceCommand::EnableScanning => 0xF4,
            DeviceCommand::DisableScanning => 0xF5,
            DeviceCommand::SetDefaults => 0xF6,
            DeviceCommand::SetScancode => 0xF0,
            DeviceCommand::Reset => 0xFF,
        }
    }
}

/// A byte to write to a port.
#[derive(Clone, Copy, PartialEq, Eq, Structural, Debug)]
pub struct PortWrite {
    pub port: u16,
    pub value: u8,
}

/// The write that sends a controller command without a return.
pub fn command(cmd: ControllerCommand) -> (write: PortWrite)
    ensures
        write == (PortWrite { port: COMMAND_PORT, value: cmd.spec_value() }),
{
    PortWrite { port: COMMAND_PORT, value: cmd.value() }
}

/// The writes that send a controller command and its data byte, in order.
pub fn command_data(cmd: ControllerCommand, data: u8) -> (writes: (PortWrite, PortWrite))
    ensures
        writes == (PortWrite { port: COMMAND_PORT, value: cmd.spec_value() }, PortWrite {
            port: DATA_PORT,
            value: data,
        }),
{
    (command(cmd), write_data(data))
}

/// The write that sends a controller command with a return; the return is then read from the
/// data port.
pub fn command_ret(cmd: ControllerReturnCommand) -> (write: PortWrite)
    ensures
        write == (PortWrite { port: COMMAND_PORT, value: cmd.spec_value() }),
{
    PortWrite { port: COMMAND_PORT, value: cmd.value() }
}

/// The write of `value` to the data port.
pub fn write_data(value: u8) -> (write: PortWrite)
    ensures
        write == (PortWrite { port: DATA_PORT, value }),
{
    PortWrite { port: DATA_PORT, value }
}

/// The port that data is read from.
pub fn read_data() -> (port: u16)
    ensures
        port == DATA_PORT,
{
    DATA_PORT
}

/// Whether a write may go ahead, given the status byte just polled: the input buffer must be
/// empty. A write waits for as long as it takes.
pub fn write(status: u8) -> (ready: bool)
    ensures
        ready == (status & INPUT_STATUS_BIT == 0),
{
    status & INPUT_STATUS_BIT == 0
}

/// What a read does after polling the status byte `status` for the `poll`-th time (counting
/// from zero): read when the output buffer is full, poll again while polls are left, and
/// otherwise give up with no byte.
pub fn read(poll: u16, status: u8) -> (next: Option<bool>)
    ensures
        next == (if status & OUTPUT_STATUS_BIT != 0 {
            Some(true)
        } else if poll + 1 < WAIT_TIMEOUT {
            Some(false)
        } else {
            None::<bool>
        }),
{
    if status & OUTPUT_STATUS_BIT != 0 {
        Some(true)
    } else if poll < WAIT_TIMEOUT - 1 {
        Some(false)
    } else {
        None
    }
}

/// Whether flushing goes on to discard a byte, given the status byte just polled.
pub fn flush_output(status: u8) -> (more: bool)
    ensures
        more == (status & OUTPUT_STATUS_BIT != 0),
{
    status & OUTPUT_STATUS_BIT != 0
}

} // verus!
