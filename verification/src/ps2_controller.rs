//! The first PS/2 driver: the controller's configuration, the state of its two devices, and the
//! order of requests that initializes it.

use vstd::prelude::*;
use crate::bits::lemma_u8_flag_update;
use crate::ps2_io::{ControllerCommand, ControllerReturnCommand, DeviceCommand};

verus! {

/// Device flag: the device is enabled.
pub const DEVICE_ENABLED_FLAG: u8 = 1;
/// Device flag: the device sits on the second port.
pub const DEVICE_SECOND_FLAG: u8 = 2;
/// Device flag: the device passed its port test.
pub const DEVICE_AVAILABLE_FLAG: u8 = 4;

/// The device asks for the last byte again.
pub const RESEND: u8 = 0xFE;
/// The device acknowledges a command.
pub const ACK: u8 = 0xFA;
/// The device passed its self test.
pub const SELF_TEST_PASSED: u8 = 0xAA;

/// How many times a device command is sent at most.
pub const COMMAND_ATTEMPTS: u8 = 4;

/// The result of setting (`value` true) or clearing the bits `bit` of `bits`.
pub open spec fn with_bits(bits: u8, bit: u8, value: bool) -> u8 {
    if value {
        bits | bit
    } else {
        bits & !bit
    }
}

proof fn lemma_with_bits(bits: u8, bit: u8, value: bool)
    requires
        bit != 0,
    ensures
        (with_bits(bits, bit, value) & bit != 0) == value,
        forall|other: u8|
            bit & other == 0 ==> #[trigger] (with_bits(bits, bit, value) & other) == bits & other,
{
    lemma_u8_flag_update(bits, bit, 0);
    assert forall|other: u8| bit & other == 0 implies #[trigger] (with_bits(bits, bit, value)
        & other) == bits & other by {
        lemma_u8_flag_update(bits, bit, other);
    }
}

/// Returns whether the given response code is OK.
pub fn is_ok(code: Option<u8>) -> (ok: bool)
    ensures
        ok == (code == Some(ACK) || code == Some(SELF_TEST_PASSED)),
{
    match code {
        Some(byte) => byte == ACK || byte == SELF_TEST_PASSED,
        None => false,
    }
}

/// A bit of the controller configuration byte.
#[derive(Clone, Copy, PartialEq, Eq, Structural, Debug)]
pub enum ControllerConfigBit {
    PortInterrupt1,
    PortInterrupt2,
    System,
    KeyboardLock,
    PortOutputFull2,
    PortTranslation1,
}

impl ControllerConfigBit {
    pub open spec fn spec_value(self) -> u8 {
        match self {
            ControllerConfigBit::PortInterrupt1 => 0x01,
            ControllerConfigBit::PortInterrupt2 => 0x02,
            ControllerConfigBit::System => 0x04,
            ControllerConfigBit::KeyboardLock => 0x10,
            ControllerConfigBit::PortOutputFull2 => 0x20,
            ControllerConfigBit::PortTranslation1 => 0x40,
        }
    }

    /// The bit's mask in the configuration byte.
    pub fn value(self) -> (value: u8)
        ensures
            value == self.spec_value(),
            value != 0,
    {
        match self {
            ControllerConfigBit::PortInterrupt1 => 0x01,
            ControllerConfigBit::PortInterrupt2 => 0x02,
            ControllerConfigBit::System => 0x04,
            ControllerConfigBit::KeyboardLock => 0x10,
            ControllerConfigBit::PortOutputFull2 => 0x20,
            ControllerConfigBit::PortTranslation1 => 0x40,
        }
    }
}

/// The PS/2 controller configuration byte.
#[derive(Clone, Copy, PartialEq, Eq, Structural, Debug)]
pub struct Ps2Config {
    pub data: u8,
}

impl Ps2Config {
    pub open spec fn has(self, bit: ControllerConfigBit) -> bool {
        self.data & bit.spec_value() != 0
    }

    /// Sets or clears the given config bit; the other bits keep their values.
    pub fn set(&mut self, bit: ControllerConfigBit, value: bool)
        ensures
            final(self).data == with_bits(old(self).data, bit.spec_value(), value),
            final(self).has(bit) == value,
    {
        let mask = bit.value();
        proof {
            lemma_with_bits(self.data, mask, value);
        }
        if value {
            self.data = self.data | mask;
        } else {
            self.data = self.data & !mask;
        }
    }

    /// Gets the requested config bit.
    pub fn get(&self, bit: ControllerConfigBit) -> (value: bool)
        ensures
            value == self.has(bit),
    {
        self.data & bit.value() != 0
    }
}

/// A PS/2 device: its enabled, second port and available flags.
#[derive(Clone, Copy, PartialEq, Eq, Structural, Debug)]
pub struct Ps2Device {
    pub flags: u8,
}

impl Ps2Device {
    pub open spec fn has(self, bit: u8) -> bool {
        self.flags & bit != 0
    }

    pub open spec fn spec_test_command(self) -> ControllerReturnCommand {
        if self.has(DEVICE_SECOND_FLAG) {
            ControllerReturnCommand::TestPort2
        } else {
            ControllerReturnCommand::TestPort1
        }
    }

    pub open spec fn spec_enable_command(self) -> ControllerCommand {
        if self.has(DEVICE_SECOND_FLAG) {
            ControllerCommand::EnablePort2
        } else {
            ControllerCommand::EnablePort1
        }
    }

    pub open spec fn spec_disable_command(self) -> ControllerCommand {
        if self.has(DEVICE_SECOND_FLAG) {
            ControllerCommand::DisablePort2
        } else {
            ControllerCommand::DisablePort1
        }
    }

    /// Sets or clears the given flag bit; the other bits keep their values.
    pub fn set_flag(&mut self, bit: u8, value: bool)
        ensures
            final(self).flags == with_bits(old(self).flags, bit, value),
    {
        if value {
            self.flags = self.flags | bit;
        } else {
            self.flags = self.flags & !bit;
        }
    }

    /// Gets the given flag bit.
    pub fn get_flag(&self, bit: u8) -> (value: bool)
        ensures
            value == self.has(bit),
    {
        (self.flags & bit) != 0
    }

    /// The controller command that tests this device's port.
    pub fn test_command(&self) -> (command: ControllerReturnCommand)
        ensures
            command == self.spec_test_command(),
    {
        if self.get_flag(DEVICE_SECOND_FLAG) {
            ControllerReturnCommand::TestPort2
        } else {
            ControllerReturnCommand::TestPort1
        }
    }

    /// Records the outcome of the port test from its response: the device is available when
    /// the port answered zero.
    pub fn test(&mut self, response: Option<u8>) -> (available: bool)
        ensures
            available == (response == Some(0u8)),
            final(self).flags == with_bits(old(self).flags, DEVICE_AVAILABLE_FLAG, available),
    {
        let available = match response {
            Some(byte) => byte == 0,
            None => false,
        };
        self.set_flag(DEVICE_AVAILABLE_FLAG, available);
        available
    }

    /// Enables this device if it is available: returns the controller command to send.
    pub fn enable(&mut self) -> (command: Option<ControllerCommand>)
        ensures
            old(self).has(DEVICE_AVAILABLE_FLAG) ==> command == Some(
                old(self).spec_enable_command(),
            ) && final(self).flags == with_bits(old(self).flags, DEVICE_ENABLED_FLAG, true),
            !old(self).has(DEVICE_AVAILABLE_FLAG) ==> command is None && *final(self) == *old(
                self,
            ),
    {
        if self.get_flag(DEVICE_AVAILABLE_FLAG) {
            let command = if self.get_flag(DEVICE_SECOND_FLAG) {
                ControllerCommand::EnablePort2
            } else {
                ControllerCommand::EnablePort1
            };
            self.set_flag(DEVICE_ENABLED_FLAG, true);
            Some(command)
        } else {
            None
        }
    }

    /// Disables this device: returns the controller command to send.
    pub fn disable(&mut self) -> (command: ControllerCommand)
        ensures
            command == old(self).spec_disable_command(),
            final(self).flags == with_bits(old(self).flags, DEVICE_ENABLED_FLAG, false),
    {
        let command = if self.get_flag(DEVICE_SECOND_FLAG) {
            ControllerCommand::DisablePort2
        } else {
            ControllerCommand::DisablePort1
        };
        self.set_flag(DEVICE_ENABLED_FLAG, false);
        command
    }

    /// The device command that resets this device.
    pub fn reset(&self) -> (command: DeviceCommand)
        ensures
            command == DeviceCommand::Reset,
    {
        DeviceCommand::Reset
    }

    /// The controller command that must precede every device command byte: a device on the
    /// second port is addressed through `WriteInputPort2`.
    pub fn command_prefix(&self) -> (prefix: Option<ControllerCommand>)
        ensures
            prefix == (if self.has(DEVICE_SECOND_FLAG) {
                Some(ControllerCommand::WriteInputPort2)
            } else {
                None
            }),
    {
        if self.get_flag(DEVICE_SECOND_FLAG) {
            Some(ControllerCommand::WriteInputPort2)
        } else {
            None
        }
    }

    /// Whether a device command is sent (again), after `attempts` attempts whose last response
    /// was `result` (a command starts as if the device had asked for a resend). It is sent at
    /// most `COMMAND_ATTEMPTS` times, and again only while the device asks for a resend or does
    /// not answer.
    pub fn command(&self, attempts: u8, result: Option<u8>) -> (send: bool)
        ensures
            send == (attempts < COMMAND_ATTEMPTS && (result == Some(RESEND) || result is None)),
    {
        attempts < COMMAND_ATTEMPTS && match result {
            Some(byte) => byte == RESEND,
            None => true,
        }
    }

    /// The outcome of a device command with data: `result` is the outcome of the command; the
    /// data byte is only sent, and `data_response` only read, when that was OK.
    pub fn command_data(&self, result: Option<u8>, data_response: Option<u8>) -> (outcome: Option<
        u8,
    >)
        ensures
            outcome == (if result == Some(ACK) || result == Some(SELF_TEST_PASSED) {
                data_response
            } else {
                result
            }),
    {
        if is_ok(result) {
            data_response
        } else {
            result
        }
    }
}

/// A request the controller's initialization makes.
#[derive(Clone, Copy, PartialEq, Eq, Structural, Debug)]
pub enum Ps2Action {
    /// Send a controller command.
    Command(ControllerCommand),
    /// Send a controller command and its data byte.
    CommandData(ControllerCommand, u8),
    /// Send a controller command and read its return (reply with the byte read).
    CommandRet(ControllerReturnCommand),
    /// Send a device command to the first (`false`) or second (`true`) device, with its
    /// retries (reply with the last response).
    DeviceCommand(bool, DeviceCommand),
    /// Flush the output buffer.
    Flush,
    /// Initialization is complete.
    Finished,
}

/// The stages of initialization, each named by the request it waits on.
#[derive(Clone, Copy, PartialEq, Eq, Structural, Debug)]
pub enum Ps2InitStage {
    DisableFirst,
    DisableSecond,
    FlushStart,
    ReadConfig,
    WriteConfig,
    TestController,
    TestFirst,
    SecondEnable,
    SecondReadConfig,
    SecondDisable,
    TestSecond,
    EnableDevice(bool),
    ResetDevice(bool),
    FlushEnd,
    Done,
}

/// Represents the PS2 master controller.
#[derive(Clone, Copy, Debug)]
pub struct Ps2Controller {
    pub initialized: bool,
    pub devices: [Ps2Device; 2],
    pub config: Ps2Config,
}

/// The device with index `second` (false: the first).
pub open spec fn device_of(c: Ps2Controller, second: bool) -> Ps2Device {
    if second {
        c.devices@[1]
    } else {
        c.devices@[0]
    }
}

/// The controller with the device `second` replaced.
pub open spec fn with_device(c: Ps2Controller, second: bool, d: Ps2Device) -> Ps2Controller {
    Ps2Controller {
        devices: if second {
            [c.devices@[0], d]
        } else {
            [d, c.devices@[1]]
        },
        ..c
    }
}

/// The device with a flag set or cleared.
pub open spec fn device_with(d: Ps2Device, bit: u8, value: bool) -> Ps2Device {
    Ps2Device { flags: with_bits(d.flags, bit, value) }
}

/// The first device to enable after testing: the first available one, or none.
pub open spec fn first_enable(c: Ps2Controller) -> Ps2InitStage {
    if device_of(c, false).has(DEVICE_AVAILABLE_FLAG) {
        Ps2InitStage::EnableDevice(false)
    } else if device_of(c, true).has(DEVICE_AVAILABLE_FLAG) {
        Ps2InitStage::EnableDevice(true)
    } else {
        Ps2InitStage::FlushEnd
    }
}

/// The controller after a configuration read answered `reply`: the old configuration is kept
/// when nothing was read.
pub open spec fn config_read(c: Ps2Controller, reply: Option<u8>) -> Ps2Controller {
    Ps2Controller {
        config: Ps2Config {
            data: match reply {
                Some(byte) => byte,
                None => c.config.data,
            },
        },
        ..c
    }
}

/// The controller after the reply `reply` to the request of `stage`, and the stage that comes
/// next.
pub open spec fn after_reply(c: Ps2Controller, stage: Ps2InitStage, reply: Option<u8>) -> (
    Ps2Controller,
    Ps2InitStage,
) {
    match stage {
        Ps2InitStage::DisableFirst => (c, Ps2InitStage::DisableSecond),
        Ps2InitStage::DisableSecond => (c, Ps2InitStage::FlushStart),
        Ps2InitStage::FlushStart => (c, Ps2InitStage::ReadConfig),
        Ps2InitStage::ReadConfig => {
            let r = config_read(c, reply);
            let data = with_bits(
                with_bits(with_bits(r.config.data, 0x01, false), 0x02, false),
                0x40,
                false,
            );
            (Ps2Controller { config: Ps2Config { data }, ..r }, Ps2InitStage::WriteConfig)
        },
        Ps2InitStage::WriteConfig => (c, Ps2InitStage::TestController),
        Ps2InitStage::TestController => (c, Ps2InitStage::TestFirst),
        Ps2InitStage::TestFirst => {
            let t = with_device(
                c,
                false,
                device_with(device_of(c, false), DEVICE_AVAILABLE_FLAG, reply == Some(0u8)),
            );
            (
                t,
                if !t.config.has(ControllerConfigBit::PortOutputFull2) {
                    if device_of(t, true).has(DEVICE_AVAILABLE_FLAG) {
                        Ps2InitStage::SecondEnable
                    } else {
                        Ps2InitStage::SecondReadConfig
                    }
                } else {
                    Ps2InitStage::TestSecond
                },
            )
        },
        Ps2InitStage::SecondEnable => (c, Ps2InitStage::SecondReadConfig),
        Ps2InitStage::SecondReadConfig => (config_read(c, reply), Ps2InitStage::SecondDisable),
        Ps2InitStage::SecondDisable => (
            c,
            if c.config.has(ControllerConfigBit::PortOutputFull2) {
                Ps2InitStage::TestSecond
            } else {
                first_enable(c)
            },
        ),
        Ps2InitStage::TestSecond => {
            let t = with_device(
                c,
                true,
                device_with(device_of(c, true), DEVICE_AVAILABLE_FLAG, reply == Some(0u8)),
            );
            (t, first_enable(t))
        },
        Ps2InitStage::EnableDevice(second) => (c, Ps2InitStage::ResetDevice(second)),
        Ps2InitStage::ResetDevice(second) => (
            c,
            if !second && device_of(c, true).has(DEVICE_AVAILABLE_FLAG) {
                Ps2InitStage::EnableDevice(true)
            } else {
                Ps2InitStage::FlushEnd
            },
        ),
        Ps2InitStage::FlushEnd => (c, Ps2InitStage::Done),
        Ps2InitStage::Done => (c, Ps2InitStage::Done),
    }
}

/// The controller once the request of `stage` is made, and that request.
pub open spec fn enter(c: Ps2Controller, stage: Ps2InitStage) -> (Ps2Controller, Ps2Action) {
    match stage {
        Ps2InitStage::DisableFirst => {
            let d = device_of(c, false);
            (
                with_device(
                    c,
                    false,
                    device_with(
                        device_with(d, DEVICE_ENABLED_FLAG, false),
                        DEVICE_AVAILABLE_FLAG,
                        false,
                    ),
                ),
                Ps2Action::Command(d.spec_disable_command()),
            )
        },
        Ps2InitStage::DisableSecond => {
            let d = device_of(c, true);
            (
                with_device(
                    c,
                    true,
                    device_with(
                        device_with(d, DEVICE_ENABLED_FLAG, false),
                        DEVICE_AVAILABLE_FLAG,
                        false,
                    ),
                ),
                Ps2Action::Command(d.spec_disable_command()),
            )
        },
        Ps2InitStage::FlushStart => (c, Ps2Action::Flush),
        Ps2InitStage::ReadConfig => (c, Ps2Action::CommandRet(ControllerReturnCommand::ReadConfig)),
        Ps2InitStage::WriteConfig => (
            c,
            Ps2Action::CommandData(ControllerCommand::WriteConfig, c.config.data),
        ),
        Ps2InitStage::TestController => (
            c,
            Ps2Action::CommandRet(ControllerReturnCommand::TestController),
        ),
        Ps2InitStage::TestFirst => (
            c,
            Ps2Action::CommandRet(device_of(c, false).spec_test_command()),
        ),
        Ps2InitStage::SecondEnable => {
            let d = device_of(c, true);
            (
                with_device(c, true, device_with(d, DEVICE_ENABLED_FLAG, true)),
                Ps2Action::Command(d.spec_enable_command()),
            )
        },
        Ps2InitStage::SecondReadConfig => (
            c,
            Ps2Action::CommandRet(ControllerReturnCommand::ReadConfig),
        ),
        Ps2InitStage::SecondDisable => {
            let d = device_of(c, true);
            (
                with_device(c, true, device_with(d, DEVICE_ENABLED_FLAG, false)),
                Ps2Action::Command(d.spec_disable_command()),
            )
        },
        Ps2InitStage::TestSecond => (
            c,
            Ps2Action::CommandRet(device_of(c, true).spec_test_command()),
        ),
        Ps2InitStage::EnableDevice(second) => {
            let d = device_of(c, second);
            (
                with_device(c, second, device_with(d, DEVICE_ENABLED_FLAG, true)),
                Ps2Action::Command(d.spec_enable_command()),
            )
        },
        Ps2InitStage::ResetDevice(second) => (
            c,
            Ps2Action::DeviceCommand(second, DeviceCommand::Reset),
        ),
        Ps2InitStage::FlushEnd => (c, Ps2Action::Flush),
        Ps2InitStage::Done => (Ps2Controller { initialized: true, ..c }, Ps2Action::Finished),
    }
}

impl Ps2Controller {
    /// A controller that is not initialized, with the first device on the first port and the
    /// second on the second port.
    pub fn new() -> (controller: Ps2Controller)
        ensures
            !controller.initialized,
            controller.devices@[0].flags == 0,
            controller.devices@[1].flags == DEVICE_SECOND_FLAG,
            controller.config.data == 0,
    {
        Ps2Controller {
            initialized: false,
            devices: [Ps2Device { flags: 0 }, Ps2Device { flags: DEVICE_SECOND_FLAG }],
            config: Ps2Config { data: 0 },
        }
    }

    /// Takes the configuration from the response to `ReadConfig`; keeps the old one when
    /// nothing was read.
    pub fn read_config(&mut self, response: Option<u8>)
        ensures
            *final(self) == config_read(*old(self), response),
    {
        self.config.data = match response {
            Some(byte) => byte,
            None => self.config.data,
        };
    }

    /// The command and data byte that write the current configuration to the controller.
    pub fn write_config(&self) -> (request: (ControllerCommand, u8))
        ensures
            request == (ControllerCommand::WriteConfig, self.config.data),
    {
        (ControllerCommand::WriteConfig, self.config.data)
    }

    fn update_device(&mut self, second: bool, flag: u8, value: bool)
        ensures
            *final(self) == with_device(
                *old(self),
                second,
                device_with(device_of(*old(self), second), flag, value),
            ),
    {
        if second {
            self.devices[1].set_flag(flag, value);
        } else {
            self.devices[0].set_flag(flag, value);
        }
        proof {
            let expected = with_device(
                *old(self),
                second,
                device_with(device_of(*old(self), second), flag, value),
            );
            assert(self.devices =~= expected.devices);
        }
    }

    fn device(&self, second: bool) -> (device: Ps2Device)
        ensures
            device == device_of(*self, second),
    {
        if second {
            self.devices[1]
        } else {
            self.devices[0]
        }
    }

    fn first_enable(&self) -> (stage: Ps2InitStage)
        ensures
            stage == first_enable(*self),
    {
        if self.devices[0].get_flag(DEVICE_AVAILABLE_FLAG) {
            Ps2InitStage::EnableDevice(false)
        } else if self.devices[1].get_flag(DEVICE_AVAILABLE_FLAG) {
            Ps2InitStage::EnableDevice(true)
        } else {
            Ps2InitStage::FlushEnd
        }
    }

    fn enter(&mut self, stage: Ps2InitStage) -> (action: Ps2Action)
        ensures
            (*final(self), action) == enter(*old(self), stage),
    {
        match stage {
            Ps2InitStage::DisableFirst => {
                let command = self.device(false).disable_command();
                self.update_device(false, DEVICE_ENABLED_FLAG, false);
                self.update_device(false, DEVICE_AVAILABLE_FLAG, false);
                Ps2Action::Command(command)
            },
            Ps2InitStage::DisableSecond => {
                let command = self.device(true).disable_command();
                self.update_device(true, DEVICE_ENABLED_FLAG, false);
                self.update_device(true, DEVICE_AVAILABLE_FLAG, false);
                Ps2Action::Command(command)
            },
            Ps2InitStage::FlushStart => Ps2Action::Flush,
            Ps2InitStage::ReadConfig => Ps2Action::CommandRet(ControllerReturnCommand::ReadConfig),
            Ps2InitStage::WriteConfig => {
                let (command, data) = self.write_config();
                Ps2Action::CommandData(command, data)
            },
            Ps2InitStage::TestController => Ps2Action::CommandRet(
                ControllerReturnCommand::TestController,
            ),
            Ps2InitStage::TestFirst => Ps2Action::CommandRet(self.devices[0].test_command()),
            Ps2InitStage::SecondEnable => {
                let command = self.device(true).enable_command();
                self.update_device(true, DEVICE_ENABLED_FLAG, true);
                Ps2Action::Command(command)
            },
            Ps2InitStage::SecondReadConfig => Ps2Action::CommandRet(
                ControllerReturnCommand::ReadConfig,
            ),
            Ps2InitStage::SecondDisable => {
                let command = self.device(true).disable_command();
                self.update_device(true, DEVICE_ENABLED_FLAG, false);
                Ps2Action::Command(command)
            },
            Ps2InitStage::TestSecond => Ps2Action::CommandRet(self.devices[1].test_command()),
            Ps2InitStage::EnableDevice(second) => {
                let command = self.device(second).enable_command();
                self.update_device(second, DEVICE_ENABLED_FLAG, true);
                Ps2Action::Command(command)
            },
            Ps2InitStage::ResetDevice(second) => Ps2Action::DeviceCommand(
                second,
                self.device(second).reset(),
            ),
            Ps2InitStage::FlushEnd => Ps2Action::Flush,
            Ps2InitStage::Done => {
                self.initialized = true;
                Ps2Action::Finished
            },
        }
    }

    /// Starts initializing the controller: returns the first stage and its request.
    pub fn begin_initialize(&mut self) -> (result: (Ps2InitStage, Ps2Action))
        ensures
            (*final(self), result.1) == enter(*old(self), Ps2InitStage::DisableFirst),
            result.0 == Ps2InitStage::DisableFirst,
    {
        let action = self.enter(Ps2InitStage::DisableFirst);
        (Ps2InitStage::DisableFirst, action)
    }

    /// Initializes this PS2 controller, one request at a time: takes the reply to the request
    /// of `stage` (the byte read, for requests that read one) and returns the next stage and
    /// its request. Both devices are disabled, the configuration read and written back without
    /// interrupts and translation, the controller and the ports tested (the second port only
    /// when the controller has one), and every available device enabled and reset; then the
    /// controller is initialized.
    pub fn initialize(&mut self, stage: Ps2InitStage, reply: Option<u8>) -> (result: (
        Ps2InitStage,
        Ps2Action,
    ))
        ensures
            ({
                let (c, next) = after_reply(*old(self), stage, reply);
                &&& result.0 == next
                &&& (*final(self), result.1) == enter(c, next)
            }),
    {
        let next = match stage {
            Ps2InitStage::DisableFirst => Ps2InitStage::DisableSecond,
            Ps2InitStage::DisableSecond => Ps2InitStage::FlushStart,
            Ps2InitStage::FlushStart => Ps2InitStage::ReadConfig,
            Ps2InitStage::ReadConfig => {
                self.read_config(reply);
                self.config.set(ControllerConfigBit::PortInterrupt1, false);
                self.config.set(ControllerConfigBit::PortInterrupt2, false);
                self.config.set(ControllerConfigBit::PortTranslation1, false);
                Ps2InitStage::WriteConfig
            },
            Ps2InitStage::WriteConfig => Ps2InitStage::TestController,
            Ps2InitStage::TestController => Ps2InitStage::TestFirst,
            Ps2InitStage::TestFirst => {
                let available = match reply {
                    Some(byte) => byte == 0,
                    None => false,
                };
                self.update_device(false, DEVICE_AVAILABLE_FLAG, available);
                if !self.config.get(ControllerConfigBit::PortOutputFull2) {
                    if self.devices[1].get_flag(DEVICE_AVAILABLE_FLAG) {
                        Ps2InitStage::SecondEnable
                    } else {
                        Ps2InitStage::SecondReadConfig
                    }
                } else {
                    Ps2InitStage::TestSecond
                }
            },
            Ps2InitStage::SecondEnable => Ps2InitStage::SecondReadConfig,
            Ps2InitStage::SecondReadConfig => {
                self.read_config(reply);
                Ps2InitStage::SecondDisable
            },
            Ps2InitStage::SecondDisable => if self.config.get(
                ControllerConfigBit::PortOutputFull2,
            ) {
                Ps2InitStage::TestSecond
            } else {
                self.first_enable()
            },
            Ps2InitStage::TestSecond => {
                let available = match reply {
                    Some(byte) => byte == 0,
                    None => false,
                };
                self.update_device(true, DEVICE_AVAILABLE_FLAG, available);
                self.first_enable()
            },
            Ps2InitStage::EnableDevice(second) => Ps2InitStage::ResetDevice(second),
            Ps2InitStage::ResetDevice(second) => if !second && self.devices[1].get_flag(
                DEVICE_AVAILABLE_FLAG,
            ) {
                Ps2InitStage::EnableDevice(true)
            } else {
                Ps2InitStage::FlushEnd
            },
            Ps2InitStage::FlushEnd => Ps2InitStage::Done,
            Ps2InitStage::Done => Ps2InitStage::Done,
        };
        let action = self.enter(next);
        (next, action)
    }
}

impl Ps2Device {
    fn enable_command(&self) -> (command: ControllerCommand)
        ensures
            command == self.spec_enable_command(),
    {
        if self.get_flag(DEVICE_SECOND_FLAG) {
            ControllerCommand::EnablePort2
        } else {
            ControllerCommand::EnablePort1
        }
    }

    fn disable_command(&self) -> (command: ControllerCommand)
        ensures
            command == self.spec_disable_command(),
    {
        if self.get_flag(DEVICE_SECOND_FLAG) {
            ControllerCommand::DisablePort2
        } else {
            ControllerCommand::DisablePort1
        }
    }
}

} // verus!
