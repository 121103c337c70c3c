//! PS/2 devices: what their identification bytes mean and how a device command is retried.

use vstd::prelude::*;
use crate::ps2::{Error, Controller};

verus! {

/// The device asks for the last byte again.
pub const RESEND: u8 = 0xFE;
/// The device acknowledges a command.
pub const ACK: u8 = 0xFA;
/// The device echoes.
pub const ECHO: u8 = 0xEE;

/// Device command: identify.
pub const IDENTIFY: u8 = 0xF2;
/// Device command: restore default settings.
pub const SET_DEFAULTS: u8 = 0xF6;
/// Device command: reset and self test.
pub const RESET: u8 = 0xFF;
/// Device command: echo.
pub const ECHO_COMMAND: u8 = 0xEE;
/// Device command: reset echo.
pub const RESET_ECHO: u8 = 0xEC;
/// The first identity byte of a keyboard; a second byte follows it.
pub const KEYBOARD_IDENTITY: u8 = 0xAB;

/// The amount of iterations to resend a device command before returning an error.
pub const COMMAND_RETRIES: usize = 8;

#[derive(Clone, Copy, PartialEq, Eq, Structural, Debug)]
pub enum KeyboardKind {
    Unknown,
    TranslatedAtKeyboard,
    Mf2Keyboard,
    Mf2TranslatedKeyboard,
}

#[derive(Clone, Copy, PartialEq, Eq, Structural, Debug)]
pub enum MouseKind {
    Mouse,
    MouseWithScrollWheel,
    FiveButtonMouse,
}

#[derive(Clone, Copy, PartialEq, Eq, Structural, Debug)]
pub enum DeviceKind {
    Unknown,
    Keyboard(KeyboardKind),
    Mouse(MouseKind),
}

impl DeviceKind {
    pub open spec fn spec_parse(identity: u8, keyboard: bool) -> DeviceKind {
        if keyboard {
            if identity == 0x41 || identity == 0xC1 {
                DeviceKind::Keyboard(KeyboardKind::Mf2TranslatedKeyboard)
            } else if identity == 0x83 {
                DeviceKind::Keyboard(KeyboardKind::Mf2Keyboard)
            } else {
                DeviceKind::Keyboard(KeyboardKind::Unknown)
            }
        } else if identity == 0x00 {
            DeviceKind::Mouse(MouseKind::Mouse)
        } else if identity == 0x03 {
            DeviceKind::Mouse(MouseKind::MouseWithScrollWheel)
        } else if identity == 0x04 {
            DeviceKind::Mouse(MouseKind::FiveButtonMouse)
        } else {
            DeviceKind::Unknown
        }
    }

    /// The kind of device with the identity byte `identity`; `keyboard` tells whether the device
    /// announced itself as a keyboard first.
    pub fn parse(identity: u8, keyboard: bool) -> (kind: DeviceKind)
        ensures
            kind == Self::spec_parse(identity, keyboard),
    {
        match identity {
            0x41 if keyboard => DeviceKind::Keyboard(KeyboardKind::Mf2TranslatedKeyboard),
            0xC1 if keyboard => DeviceKind::Keyboard(KeyboardKind::Mf2TranslatedKeyboard),
            0x83 if keyboard => DeviceKind::Keyboard(KeyboardKind::Mf2Keyboard),
            _ if keyboard => DeviceKind::Keyboard(KeyboardKind::Unknown),
            0x00 if !keyboard => DeviceKind::Mouse(MouseKind::Mouse),
            0x03 if !keyboard => DeviceKind::Mouse(MouseKind::MouseWithScrollWheel),
            0x04 if !keyboard => DeviceKind::Mouse(MouseKind::FiveButtonMouse),
            _ => DeviceKind::Unknown,
        }
    }

    pub fn is_keyboard(&self) -> (result: bool)
        ensures
            result == (*self is Keyboard),
    {
        match self {
            DeviceKind::Keyboard(_) => true,
            _ => false,
        }
    }

    pub fn is_mouse(&self) -> (result: bool)
        ensures
            result == (*self is Mouse),
    {
        match self {
            DeviceKind::Mouse(_) => true,
            _ => false,
        }
    }
}

/// Whether identification goes on to read a second byte, given the first response to
/// `IDENTIFY`.
pub fn identity_continues(first: Option<u8>) -> (more: bool)
    ensures
        more == (first == Some(KEYBOARD_IDENTITY)),
{
    match first {
        Some(byte) => byte == KEYBOARD_IDENTITY,
        None => false,
    }
}

/// The kind of a device, from its responses to `IDENTIFY`: `second` is only looked at when
/// the first byte announced a keyboard. A device that gives no identity is a translated AT
/// keyboard.
pub fn identify(first: Option<u8>, second: Option<u8>) -> (kind: DeviceKind)
    ensures
        kind == (if first == Some(KEYBOARD_IDENTITY) {
            match second {
                Some(identity) => DeviceKind::spec_parse(identity, true),
                None => DeviceKind::Keyboard(KeyboardKind::TranslatedAtKeyboard),
            }
        } else {
            match first {
                Some(identity) => DeviceKind::spec_parse(identity, false),
                None => DeviceKind::Keyboard(KeyboardKind::TranslatedAtKeyboard),
            }
        }),
{
    let keyboard = identity_continues(first);
    let identity = if keyboard {
        second
    } else {
        first
    };
    match identity {
        Some(identity) => DeviceKind::parse(identity, keyboard),
        None => DeviceKind::Keyboard(KeyboardKind::TranslatedAtKeyboard),
    }
}

/// What sending a device command does after a response.
#[derive(Clone, Copy, PartialEq, Eq, Debug)]
pub enum CommandStep {
    /// The device asked for the command again: send it once more.
    Resend,
    /// The command is finished with this outcome.
    Done(Result<(), Error>),
}

/// One attempt of sending a device command: `attempt` counts the attempts made before this one
/// and `response` is what the device answered to this one. The command is sent at most
/// `COMMAND_RETRIES` times.
pub fn send_raw_device_command(attempt: usize, response: Option<u8>) -> (step: CommandStep)
    requires
        attempt < COMMAND_RETRIES,
    ensures
        step == (match response {
            Some(byte) => if byte == ACK || byte == ECHO {
                CommandStep::Done(Ok(()))
            } else if byte == RESEND {
                if attempt + 1 < COMMAND_RETRIES {
                    CommandStep::Resend
                } else {
                    CommandStep::Done(Err(Error::RetriesExceeded))
                }
            } else {
                CommandStep::Done(Err(Error::UnexpectedResponse(byte)))
            },
            None => CommandStep::Done(Err(Error::ExpectedResponse)),
        }),
{
    match response {
        Some(ACK) | Some(ECHO) => CommandStep::Done(Ok(())),
        Some(RESEND) => if attempt + 1 < COMMAND_RETRIES {
            CommandStep::Resend
        } else {
            CommandStep::Done(Err(Error::RetriesExceeded))
        },
        Some(unknown) => CommandStep::Done(Err(Error::UnexpectedResponse(unknown))),
        None => CommandStep::Done(Err(Error::ExpectedResponse)),
    }
}

/// The outcome of a device command with a data byte: `command` is the outcome of sending the
/// command, and `response` the answer to the data byte, which is only sent after the command
/// succeeded.
pub fn send_raw_device_command_data(command: Result<(), Error>, response: Option<u8>) -> (result:
    Result<(), Error>)
    ensures
        result == (match command {
            Ok(_) => match response {
                Some(byte) => if byte == ACK {
                    Ok(())
                } else {
                    Err(Error::UnexpectedResponse(byte))
                },
                None => Err(Error::ExpectedResponse),
            },
            Err(e) => Err(e),
        }),
{
    match command {
        Ok(_) => match response {
            Some(ACK) => Ok(()),
            Some(unknown) => Err(Error::UnexpectedResponse(unknown)),
            None => Err(Error::ExpectedResponse),
        },
        Err(e) => Err(e),
    }
}

/// A device on one of the controller's ports.
pub trait Device {
    /// The controller command that enables the device's port.
    fn enable() -> u8;

    /// The controller command that disables the device's port.
    fn disable() -> u8;

    /// Whether the device's port works, from the response to its test command.
    fn test(response: Option<u8>) -> Result<bool, Error>;

    /// Whether the device sits on the second (mouse) port.
    fn mouse_port() -> bool;
}

/// Reading a response from a device or the controller.
pub trait CommandIo {
    /// The byte read, or `ExpectedResponse` when the read timed out.
    fn read(response: Option<u8>) -> Result<u8, Error>;
}

impl CommandIo for Controller {
    fn read(response: Option<u8>) -> (result: Result<u8, Error>)
        ensures
            result == (match response {
                Some(byte) => Ok(byte),
                None => Err(Error::ExpectedResponse),
            }),
    {
        match response {
            Some(byte) => Ok(byte),
            None => Err(Error::ExpectedResponse),
        }
    }
}

} // verus!
