//! The PS/2 controller: its configuration byte, the meaning of its responses, and the order of
//! requests that brings it up.
//!
//! Port access is done by the caller: each function here either names the bytes to send or
//! decides what a response means.

pub mod io;
pub mod device;
pub mod keyboard;
pub mod port;

use vstd::prelude::*;
use crate::bits::lemma_u8_flag_update;

verus! {

/// The response of the controller to a successful self test.
pub const CONTROLLER_TEST_SUCCESS: u8 = 0x55;

/// Controller command: read the configuration byte.
pub const READ_CONFIG: u8 = 0x20;
/// Controller command: write the configuration byte.
pub const WRITE_CONFIG: u8 = 0x60;
/// Controller command: disable the second (mouse) port.
pub const DISABLE_MOUSE: u8 = 0xA7;
/// Controller command: enable the second (mouse) port.
pub const ENABLE_MOUSE: u8 = 0xA8;
/// Controller command: test the second (mouse) port.
pub const TEST_MOUSE: u8 = 0xA9;
/// Controller command: self test.
pub const TEST_CONTROLLER: u8 = 0xAA;
/// Controller command: test the first (keyboard) port.
pub const TEST_KEYBOARD: u8 = 0xAB;
/// Controller command: disable the first (keyboard) port.
pub const DISABLE_KEYBOARD: u8 = 0xAD;
/// Controller command: enable the first (keyboard) port.
pub const ENABLE_KEYBOARD: u8 = 0xAE;
/// Controller command: send the next data byte to the second (mouse) port.
pub const WRITE_COMMAND_MOUSE: u8 = 0xD4;

/// Whether interrupts for Port 1 are enabled.
pub const KEYBOARD_INTERRUPT: u8 = 1;
/// Whether interrupts for Port 2 are enabled.
pub const MOUSE_INTERRUPT: u8 = 2;
/// Whether the clock for Port 1 is disabled.
pub const KEYBOARD_CLOCK_DISABLED: u8 = 0x10;
/// Whether the clock for Port 2 is disabled.
pub const MOUSE_CLOCK_DISABLED: u8 = 0x20;
/// Whether the controller will transform scan set 2 to scan set 1.
pub const KEYBOARD_TRANSLATION: u8 = 0x40;
/// Every known configuration flag.
pub const ALL_CONFIG_FLAGS: u8 = 0x73;

/// The controller configuration byte.
#[derive(Clone, Copy, PartialEq, Eq, Structural, Debug)]
pub struct ConfigFlags {
    pub bits: u8,
}

impl ConfigFlags {
    pub open spec fn has(self, flag: u8) -> bool {
        self.bits & flag == flag
    }

    /// The configuration flags of a byte; unknown bits are dropped.
    pub fn from_bits_truncate(bits: u8) -> (flags: ConfigFlags)
        ensures
            flags.bits == bits & ALL_CONFIG_FLAGS,
    {
        ConfigFlags { bits: bits & ALL_CONFIG_FLAGS }
    }

    pub fn bits(&self) -> (bits: u8)
        ensures
            bits == self.bits,
    {
        self.bits
    }

    pub fn contains(&self, flag: u8) -> (result: bool)
        ensures
            result == self.has(flag),
    {
        self.bits & flag == flag
    }

    /// Sets (`value` true) or clears the bits of `flag`, leaving every other bit as it was.
    pub fn set(&mut self, flag: u8, value: bool)
        ensures
            final(self).bits == (if value {
                old(self).bits | flag
            } else {
                old(self).bits & !flag
            }),
            value ==> final(self).has(flag),
            !value ==> final(self).bits & flag == 0,
            forall|other: u8|
                flag & other == 0 ==> #[trigger] (final(self).bits & other) == old(self).bits
                    & other,
    {
        let ghost old_bits = self.bits;
        if value {
            self.bits = self.bits | flag;
        } else {
            self.bits = self.bits & !flag;
        }
        proof {
            let new_bits = self.bits;
            assert forall|other: u8| flag & other == 0 implies #[trigger] (new_bits & other)
                == old_bits & other by {
                lemma_u8_flag_update(old_bits, flag, other);
            }
            lemma_u8_flag_update(old_bits, flag, 0);
        }
    }
}

/// An error in communicating with the controller or a device.
#[derive(Clone, Copy, PartialEq, Eq, Structural, Debug)]
pub enum Error {
    RetriesExceeded,
    UnexpectedResponse(u8),
    ExpectedResponse,
    ControllerTestFailed(u8),
}

/// The PS/2 controller.
pub struct Controller;

impl Controller {
    /// The command that disables the mouse port.
    pub fn disable_mouse() -> (command: u8)
        ensures
            command == DISABLE_MOUSE,
    {
        DISABLE_MOUSE
    }

    /// The command that enables the mouse port.
    pub fn enable_mouse() -> (command: u8)
        ensures
            command == ENABLE_MOUSE,
    {
        ENABLE_MOUSE
    }

    /// The command that disables the keyboard port.
    pub fn disable_keyboard() -> (command: u8)
        ensures
            command == DISABLE_KEYBOARD,
    {
        DISABLE_KEYBOARD
    }

    /// The command that enables the keyboard port.
    pub fn enable_keyboard() -> (command: u8)
        ensures
            command == ENABLE_KEYBOARD,
    {
        ENABLE_KEYBOARD
    }

    /// The command that routes the next data byte to the mouse port.
    pub fn write_command_mouse() -> (command: u8)
        ensures
            command == WRITE_COMMAND_MOUSE,
    {
        WRITE_COMMAND_MOUSE
    }

    /// The configuration, from the response to `READ_CONFIG`.
    pub fn read_config(response: Option<u8>) -> (config: Result<ConfigFlags, Error>)
        ensures
            config == (match response {
                Some(byte) => Ok(ConfigFlags { bits: byte & ALL_CONFIG_FLAGS }),
                None => Err(Error::ExpectedResponse),
            }),
    {
        match response {
            Some(byte) => Ok(ConfigFlags::from_bits_truncate(byte)),
            None => Err(Error::ExpectedResponse),
        }
    }

    /// The outcome of the controller self test, from the response to `TEST_CONTROLLER`.
    pub fn test_controller(response: Option<u8>) -> (result: Result<(), Error>)
        ensures
            result == (match response {
                Some(byte) => if byte == CONTROLLER_TEST_SUCCESS {
                    Ok(())
                } else {
                    Err(Error::ControllerTestFailed(byte))
                },
                None => Err(Error::ExpectedResponse),
            }),
    {
        match response {
            Some(byte) => if byte == CONTROLLER_TEST_SUCCESS {
                Ok(())
            } else {
                Err(Error::ControllerTestFailed(byte))
            },
            None => Err(Error::ExpectedResponse),
        }
    }

    /// Whether the keyboard port works, from the response to `TEST_KEYBOARD`.
    pub fn test_keyboard(response: Option<u8>) -> (result: Result<bool, Error>)
        ensures
            result == (match response {
                Some(byte) => Ok(byte == 0),
                None => Err(Error::ExpectedResponse),
            }),
    {
        match response {
            Some(byte) => Ok(byte == 0),
            None => Err(Error::ExpectedResponse),
        }
    }

    /// Whether the mouse port works, from the response to `TEST_MOUSE`.
    pub fn test_mouse(response: Option<u8>) -> (result: Result<bool, Error>)
        ensures
            result == (match response {
                Some(byte) => Ok(byte == 0),
                None => Err(Error::ExpectedResponse),
            }),
    {
        match response {
            Some(byte) => Ok(byte == 0),
            None => Err(Error::ExpectedResponse),
        }
    }

    /// The command and data byte that write `config` to the controller.
    pub fn write_config(config: ConfigFlags) -> (request: (u8, u8))
        ensures
            request == (WRITE_CONFIG, config.bits),
    {
        (WRITE_CONFIG, config.bits)
    }
}

/// The configuration used while the controller is brought up: no interrupts from either port
/// and no scan code translation; every other flag as the controller had it.
pub fn initialize_config(config: ConfigFlags) -> (new: ConfigFlags)
    ensures
        new.bits == ((config.bits & !KEYBOARD_INTERRUPT) & !MOUSE_INTERRUPT) & !KEYBOARD_TRANSLATION,
{
    let mut new = config;
    new.set(KEYBOARD_INTERRUPT, false);
    new.set(MOUSE_INTERRUPT, false);
    new.set(KEYBOARD_TRANSLATION, false);
    new
}

/// The configuration with interrupts enabled for both ports; every other flag unchanged.
pub fn enable_interrupts(config: ConfigFlags) -> (new: ConfigFlags)
    ensures
        new.bits == (config.bits | KEYBOARD_INTERRUPT) | MOUSE_INTERRUPT,
{
    let mut new = config;
    new.set(KEYBOARD_INTERRUPT, true);
    new.set(MOUSE_INTERRUPT, true);
    new
}

/// A request to the controller that bringing it up makes next.
#[derive(Clone, Copy, PartialEq, Eq, Debug)]
pub enum Request {
    /// Flush the output buffer and write a command byte to the controller.
    Command(u8),
    /// Flush the output buffer, write a command byte and then a data byte.
    CommandData(u8, u8),
    /// Flush the output buffer, write a command byte, and read the response (reply with
    /// `Reply::Byte`).
    Query(u8),
    /// Send a command to a device with retries; `true` for the mouse port (reply with
    /// `Reply::Device`).
    DeviceCommand(u8, bool),
    /// Discard whatever is in the output buffer.
    Flush,
    /// Install the keyboard and mouse interrupt handlers.
    ListenInterrupts,
    /// The controller is up, or bringing it up failed.
    Finished(Result<(), Error>),
}

/// What came of the last request.
#[derive(Clone, Copy, PartialEq, Eq, Debug)]
pub enum Reply {
    /// The request was carried out.
    Done,
    /// The response read after a query; `None` if the read timed out.
    Byte(Option<u8>),
    /// The outcome of a device command.
    Device(Result<(), Error>),
}

/// The stages of bringing up the controller, each named by the request it waits on.
#[derive(Clone, Copy, PartialEq, Eq, Debug)]
pub enum InitStage {
    DisableKeyboard,
    DisableMouse,
    FlushBefore,
    ReadConfig,
    WriteConfig(ConfigFlags),
    TestController,
    TestKeyboard,
    DualDisableMouse,
    DualReadConfig,
    DualEnableMouse,
    DualReadConfigAgain,
    DualDisableMouseAgain(bool),
    TestMouse,
    EnableKeyboard,
    EnableMouse,
    ResetKeyboard,
    ResetMouse,
    Listen,
    ReadInterruptConfig,
    WriteInterruptConfig(ConfigFlags),
    FlushAfter,
    FlushFinal,
    Done,
    Failed(Error),
}

/// The request a stage makes.
pub open spec fn stage_request(stage: InitStage) -> Request {
    match stage {
        InitStage::DisableKeyboard => Request::Command(DISABLE_KEYBOARD),
        InitStage::DisableMouse => Request::Command(DISABLE_MOUSE),
        InitStage::FlushBefore => Request::Flush,
        InitStage::ReadConfig => Request::Query(READ_CONFIG),
        InitStage::WriteConfig(config) => Request::CommandData(WRITE_CONFIG, config.bits),
        InitStage::TestController => Request::Query(TEST_CONTROLLER),
        InitStage::TestKeyboard => Request::Query(TEST_KEYBOARD),
        InitStage::DualDisableMouse => Request::Command(DISABLE_MOUSE),
        InitStage::DualReadConfig => Request::Query(READ_CONFIG),
        InitStage::DualEnableMouse => Request::Command(ENABLE_MOUSE),
        InitStage::DualReadConfigAgain => Request::Query(READ_CONFIG),
        InitStage::DualDisableMouseAgain(_) => Request::Command(DISABLE_MOUSE),
        InitStage::TestMouse => Request::Query(TEST_MOUSE),
        InitStage::EnableKeyboard => Request::Command(ENABLE_KEYBOARD),
        InitStage::EnableMouse => Request::Command(ENABLE_MOUSE),
        InitStage::ResetKeyboard => Request::DeviceCommand(device::RESET, false),
        InitStage::ResetMouse => Request::DeviceCommand(device::RESET, true),
        InitStage::Listen => Request::ListenInterrupts,
        InitStage::ReadInterruptConfig => Request::Query(READ_CONFIG),
        InitStage::WriteInterruptConfig(config) => Request::CommandData(WRITE_CONFIG, config.bits),
        InitStage::FlushAfter => Request::Flush,
        InitStage::FlushFinal => Request::Flush,
        InitStage::Done => Request::Finished(Ok(())),
        InitStage::Failed(e) => Request::Finished(Err(e)),
    }
}

/// The response byte of a reply; any reply but a byte counts as a read that timed out.
pub open spec fn reply_byte(reply: Reply) -> Option<u8> {
    match reply {
        Reply::Byte(byte) => byte,
        _ => None,
    }
}

/// The outcome of a device command in a reply; any other reply counts as a missing response.
pub open spec fn reply_device(reply: Reply) -> Result<(), Error> {
    match reply {
        Reply::Device(result) => result,
        _ => Err(Error::ExpectedResponse),
    }
}

/// The configuration in a response byte.
pub open spec fn response_config(response: Option<u8>) -> Result<ConfigFlags, Error> {
    match response {
        Some(byte) => Ok(ConfigFlags { bits: byte & ALL_CONFIG_FLAGS }),
        None => Err(Error::ExpectedResponse),
    }
}

/// The stage after `stage` got `reply`. Bringing up the controller disables both ports, clears
/// interrupts and translation in the configuration, tests the controller and the ports (the
/// mouse port only on a dual channel controller), enables and resets both devices, and then
/// enables interrupts. Any failing step ends it with that error.
pub open spec fn next_stage(stage: InitStage, reply: Reply) -> InitStage {
    match stage {
        InitStage::DisableKeyboard => InitStage::DisableMouse,
        InitStage::DisableMouse => InitStage::FlushBefore,
        InitStage::FlushBefore => InitStage::ReadConfig,
        InitStage::ReadConfig => match response_config(reply_byte(reply)) {
            Ok(config) => InitStage::WriteConfig(
                ConfigFlags {
                    bits: ((config.bits & !KEYBOARD_INTERRUPT) & !MOUSE_INTERRUPT)
                        & !KEYBOARD_TRANSLATION,
                },
            ),
            Err(e) => InitStage::Failed(e),
        },
        InitStage::WriteConfig(_) => InitStage::TestController,
        InitStage::TestController => match reply_byte(reply) {
            Some(byte) => if byte == CONTROLLER_TEST_SUCCESS {
                InitStage::TestKeyboard
            } else {
                InitStage::Failed(Error::ControllerTestFailed(byte))
            },
            None => InitStage::Failed(Error::ExpectedResponse),
        },
        InitStage::TestKeyboard => match reply_byte(reply) {
            Some(_) => InitStage::DualDisableMouse,
            None => InitStage::Failed(Error::ExpectedResponse),
        },
        InitStage::DualDisableMouse => InitStage::DualReadConfig,
        InitStage::DualReadConfig => match response_config(reply_byte(reply)) {
            Ok(config) => if config.has(MOUSE_CLOCK_DISABLED) {
                InitStage::DualEnableMouse
            } else {
                InitStage::EnableKeyboard
            },
            Err(e) => InitStage::Failed(e),
        },
        InitStage::DualEnableMouse => InitStage::DualReadConfigAgain,
        InitStage::DualReadConfigAgain => match response_config(reply_byte(reply)) {
            Ok(config) => InitStage::DualDisableMouseAgain(!config.has(MOUSE_CLOCK_DISABLED)),
            Err(e) => InitStage::Failed(e),
        },
        InitStage::DualDisableMouseAgain(dual) => if dual {
            InitStage::TestMouse
        } else {
            InitStage::EnableKeyboard
        },
        InitStage::TestMouse => match reply_byte(reply) {
            Some(_) => InitStage::EnableKeyboard,
            None => InitStage::Failed(Error::ExpectedResponse),
        },
        InitStage::EnableKeyboard => InitStage::EnableMouse,
        InitStage::EnableMouse => InitStage::ResetKeyboard,
        InitStage::ResetKeyboard => match reply_device(reply) {
            Ok(_) => InitStage::ResetMouse,
            Err(e) => InitStage::Failed(e),
        },
        InitStage::ResetMouse => match reply_device(reply) {
            Ok(_) => InitStage::Listen,
            Err(e) => InitStage::Failed(e),
        },
        InitStage::Listen => InitStage::ReadInterruptConfig,
        InitStage::ReadInterruptConfig => match response_config(reply_byte(reply)) {
            Ok(config) => InitStage::WriteInterruptConfig(
                ConfigFlags { bits: (config.bits | KEYBOARD_INTERRUPT) | MOUSE_INTERRUPT },
            ),
            Err(e) => InitStage::Failed(e),
        },
        InitStage::WriteInterruptConfig(_) => InitStage::FlushAfter,
        InitStage::FlushAfter => InitStage::FlushFinal,
        InitStage::FlushFinal => InitStage::Done,
        InitStage::Done => InitStage::Done,
        InitStage::Failed(e) => InitStage::Failed(e),
    }
}

/// Brings up the controller, one request at a time.
pub struct Initialization {
    pub stage: InitStage,
}

fn byte_of(reply: Reply) -> (byte: Option<u8>)
    ensures
        byte == reply_byte(reply),
{
    match reply {
        Reply::Byte(byte) => byte,
        _ => None,
    }
}

fn device_of(reply: Reply) -> (result: Result<(), Error>)
    ensures
        result == reply_device(reply),
{
    match reply {
        Reply::Device(result) => result,
        _ => Err(Error::ExpectedResponse),
    }
}

fn request_of(stage: InitStage) -> (request: Request)
    ensures
        request == stage_request(stage),
{
    match stage {
        InitStage::DisableKeyboard => Request::Command(Controller::disable_keyboard()),
        InitStage::DisableMouse => Request::Command(Controller::disable_mouse()),
        InitStage::FlushBefore => Request::Flush,
        InitStage::ReadConfig => Request::Query(READ_CONFIG),
        InitStage::WriteConfig(config) => {
            let (command, data) = Controller::write_config(config);
            Request::CommandData(command, data)
        },
        InitStage::TestController => Request::Query(TEST_CONTROLLER),
        InitStage::TestKeyboard => Request::Query(TEST_KEYBOARD),
        InitStage::DualDisableMouse => Request::Command(Controller::disable_mouse()),
        InitStage::DualReadConfig => Request::Query(READ_CONFIG),
        InitStage::DualEnableMouse => Request::Command(Controller::enable_mouse()),
        InitStage::DualReadConfigAgain => Request::Query(READ_CONFIG),
        InitStage::DualDisableMouseAgain(_) => Request::Command(Controller::disable_mouse()),
        InitStage::TestMouse => Request::Query(TEST_MOUSE),
        InitStage::EnableKeyboard => Request::Command(Controller::enable_keyboard()),
        InitStage::EnableMouse => Request::Command(Controller::enable_mouse()),
        InitStage::ResetKeyboard => Request::DeviceCommand(device::RESET, false),
        InitStage::ResetMouse => Request::DeviceCommand(device::RESET, true),
        InitStage::Listen => Request::ListenInterrupts,
        InitStage::ReadInterruptConfig => Request::Query(READ_CONFIG),
        InitStage::WriteInterruptConfig(config) => {
            let (command, data) = Controller::write_config(config);
            Request::CommandData(command, data)
        },
        InitStage::FlushAfter => Request::Flush,
        InitStage::FlushFinal => Request::Flush,
        InitStage::Done => Request::Finished(Ok(())),
        InitStage::Failed(e) => Request::Finished(Err(e)),
    }
}

impl Initialization {
    /// Starts bringing up the controller; returns the first request.
    pub fn start() -> (result: (Initialization, Request))
        ensures
            result.0.stage == InitStage::DisableKeyboard,
            result.1 == stage_request(InitStage::DisableKeyboard),
    {
        let stage = InitStage::DisableKeyboard;
        (Initialization { stage }, request_of(stage))
    }

    /// Takes the reply to the last request and returns the next request.
    pub fn step(&mut self, reply: Reply) -> (request: Request)
        ensures
            final(self).stage == next_stage(old(self).stage, reply),
            request == stage_request(final(self).stage),
    {
        let next = match self.stage {
            InitStage::DisableKeyboard => InitStage::DisableMouse,
            InitStage::DisableMouse => InitStage::FlushBefore,
            InitStage::FlushBefore => InitStage::ReadConfig,
            InitStage::ReadConfig => match Controller::read_config(byte_of(reply)) {
                Ok(config) => InitStage::WriteConfig(initialize_config(config)),
                Err(e) => InitStage::Failed(e),
            },
            InitStage::WriteConfig(_) => InitStage::TestController,
            InitStage::TestController => match Controller::test_controller(byte_of(reply)) {
                Ok(_) => InitStage::TestKeyboard,
                Err(e) => InitStage::Failed(e),
            },
            InitStage::TestKeyboard => match Controller::test_keyboard(byte_of(reply)) {
                Ok(_) => InitStage::DualDisableMouse,
                Err(e) => InitStage::Failed(e),
            },
            InitStage::DualDisableMouse => InitStage::DualReadConfig,
            InitStage::DualReadConfig => match Controller::read_config(byte_of(reply)) {
                Ok(config) => if config.contains(MOUSE_CLOCK_DISABLED) {
                    InitStage::DualEnableMouse
                } else {
                    InitStage::EnableKeyboard
                },
                Err(e) => InitStage::Failed(e),
            },
            InitStage::DualEnableMouse => InitStage::DualReadConfigAgain,
            InitStage::DualReadConfigAgain => match Controller::read_config(byte_of(reply)) {
                Ok(config) => InitStage::DualDisableMouseAgain(
                    !config.contains(MOUSE_CLOCK_DISABLED),
                ),
                Err(e) => InitStage::Failed(e),
            },
            InitStage::DualDisableMouseAgain(dual) => if dual {
                InitStage::TestMouse
            } else {
                InitStage::EnableKeyboard
            },
            InitStage::TestMouse => match Controller::test_mouse(byte_of(reply)) {
                Ok(_) => InitStage::EnableKeyboard,
                Err(e) => InitStage::Failed(e),
            },
            InitStage::EnableKeyboard => InitStage::EnableMouse,
            InitStage::EnableMouse => InitStage::ResetKeyboard,
            InitStage::ResetKeyboard => match device_of(reply) {
                Ok(_) => InitStage::ResetMouse,
                Err(e) => InitStage::Failed(e),
            },
            InitStage::ResetMouse => match device_of(reply) {
                Ok(_) => InitStage::Listen,
                Err(e) => InitStage::Failed(e),
            },
            InitStage::Listen => InitStage::ReadInterruptConfig,
            InitStage::ReadInterruptConfig => match Controller::read_config(byte_of(reply)) {
                Ok(config) => InitStage::WriteInterruptConfig(enable_interrupts(config)),
                Err(e) => InitStage::Failed(e),
            },
            InitStage::WriteInterruptConfig(_) => InitStage::FlushAfter,
            InitStage::FlushAfter => InitStage::FlushFinal,
            InitStage::FlushFinal => InitStage::Done,
            InitStage::Done => InitStage::Done,
            InitStage::Failed(e) => InitStage::Failed(e),
        };
        self.stage = next;
        request_of(next)
    }
}

/// Starts bringing up the PS/2 controller: the state to drive with `Initialization::step` and
/// the first request.
pub fn initialize() -> (result: (Initialization, Request))
    ensures
        result.0.stage == InitStage::DisableKeyboard,
        result.1 == Request::Command(DISABLE_KEYBOARD),
{
    Initialization::start()
}

/// How many requests are left at most before bringing up the controller ends.
pub open spec fn stages_left(stage: InitStage) -> nat {
    match stage {
        InitStage::DisableKeyboard => 22,
        InitStage::DisableMouse => 21,
        InitStage::FlushBefore => 20,
        InitStage::ReadConfig => 19,
        InitStage::WriteConfig(_) => 18,
        InitStage::TestController => 17,
        InitStage::TestKeyboard => 16,
        InitStage::DualDisableMouse => 15,
        InitStage::DualReadConfig => 14,
        InitStage::DualEnableMouse => 13,
        InitStage::DualReadConfigAgain => 12,
        InitStage::DualDisableMouseAgain(_) => 11,
        InitStage::TestMouse => 10,
        InitStage::EnableKeyboard => 9,
        InitStage::EnableMouse => 8,
        InitStage::ResetKeyboard => 7,
        InitStage::ResetMouse => 6,
        InitStage::Listen => 5,
        InitStage::ReadInterruptConfig => 4,
        InitStage::WriteInterruptConfig(_) => 3,
        InitStage::FlushAfter => 2,
        InitStage::FlushFinal => 1,
        InitStage::Done => 0,
        InitStage::Failed(_) => 0,
    }
}

/// Bringing up the controller always comes to an end: every reply moves it closer to its end,
/// and once it has finished, successfully or with an error, it stays finished with the same
/// outcome.
pub proof fn law_initialization_ends(stage: InitStage, reply: Reply)
    ensures
        stages_left(stage) > 0 ==> stages_left(next_stage(stage, reply)) < stages_left(stage),
        stage == InitStage::Done ==> next_stage(stage, reply) == stage,
        stage is Failed ==> next_stage(stage, reply) == stage,
        stages_left(next_stage(stage, reply)) == 0 ==> (next_stage(stage, reply) == InitStage::Done
            || next_stage(stage, reply) is Failed),
{
}

} // verus!
