//! The PS/2 keyboard: turning the bytes it sends into events, and its scan set and LED
//! commands.

use vstd::prelude::*;
use crate::keymap::Keycode;
use crate::keyboard::LedFlags;
use crate::scanset_2::{parse, spec_parse};
use crate::ps2::{Error, Controller, ENABLE_KEYBOARD, DISABLE_KEYBOARD};
use crate::ps2::device::{Device, CommandIo};
use crate::ps2::port::InputQueue;

verus! {

/// Device command: set the LEDs.
pub const SET_LEDS: u8 = 0xED;
/// Device command: get or set the scan code set.
pub const SCANSET: u8 = 0xF0;
/// The keyboard reports a passed self test.
pub const BAT_SUCCESS: u8 = 0xAA;
/// The keyboard reports a failed self test.
pub const BAT_ERROR: u8 = 0xFC;
/// The byte that announces a break (release) code.
pub const BREAK_PREFIX: u8 = 0xF0;

/// A scan code set of a PS/2 keyboard.
#[derive(Clone, Copy, PartialEq, Eq, Structural, Debug)]
pub enum Scanset {
    One,
    Two,
    Three,
}

impl Scanset {
    pub open spec fn spec_value(self) -> u8 {
        match self {
            Scanset::One => 1,
            Scanset::Two => 2,
            Scanset::Three => 3,
        }
    }

    /// The number of the scan set, as the keyboard names it.
    pub fn value(self) -> (value: u8)
        ensures
            value == self.spec_value(),
    {
        match self {
            Scanset::One => 1,
            Scanset::Two => 2,
            Scanset::Three => 3,
        }
    }
}

/// A complete scan code: its code byte, whether it was extended, and whether it is a make
/// (press) code.
#[derive(Clone, Copy, PartialEq, Eq, Structural, Debug)]
pub struct Scancode {
    pub code: u8,
    pub extended: bool,
    pub make: bool,
}

/// An event sent by the keyboard.
#[derive(Clone, Copy, PartialEq, Eq, Structural, Debug)]
pub enum Event {
    BatSuccess,
    BatError,
    Key { key: Keycode, make: bool },
    UnexpectedByte(u8),
}

/// Assembles scan codes from the bytes the keyboard sends: prefix bytes set the state, which the
/// next code byte consumes.
#[derive(Clone, Copy, PartialEq, Eq, Structural, Debug)]
pub struct EventParser {
    pub make_scancode: bool,
    pub extended_scancode: bool,
}

/// The parser state and scan code after the byte `byte`.
pub open spec fn spec_parse_scancode(parser: EventParser, byte: u8) -> (EventParser, Option<
    Scancode,
>) {
    if 0xE0 <= byte <= 0xE1 {
        (EventParser { extended_scancode: true, ..parser }, None)
    } else if byte == BREAK_PREFIX {
        (EventParser { make_scancode: false, ..parser }, None)
    } else {
        (
            EventParser { make_scancode: true, extended_scancode: false },
            Some(
                Scancode {
                    code: byte,
                    make: parser.make_scancode,
                    extended: parser.extended_scancode,
                },
            ),
        )
    }
}

/// The parser state and event after the byte `byte`.
pub open spec fn spec_parse_byte(parser: EventParser, byte: u8) -> (EventParser, Option<Event>) {
    if byte == BAT_SUCCESS {
        (parser, Some(Event::BatSuccess))
    } else if byte == BAT_ERROR {
        (parser, Some(Event::BatError))
    } else {
        let (next, scancode) = spec_parse_scancode(parser, byte);
        match scancode {
            Some(scancode) => match spec_parse(scancode) {
                Some(key) => (next, Some(Event::Key { key, make: scancode.make })),
                None => (next, Some(Event::UnexpectedByte(scancode.code))),
            },
            None => (next, None),
        }
    }
}

/// Reading `bytes` until the first event: the parser state afterwards, how many bytes were
/// consumed, and the event, if any byte gave one.
pub open spec fn spec_next_event(parser: EventParser, bytes: Seq<u8>) -> (EventParser, nat, Option<
    Event,
>)
    decreases bytes.len(),
{
    if bytes.len() == 0 {
        (parser, 0, None)
    } else {
        let (next, event) = spec_parse_byte(parser, bytes[0]);
        if event is Some {
            (next, 1, event)
        } else {
            let (last, consumed, event) = spec_next_event(next, bytes.drop_first());
            (last, consumed + 1, event)
        }
    }
}

impl EventParser {
    /// A parser expecting a new, non-extended make code.
    pub fn new() -> (parser: EventParser)
        ensures
            parser == (EventParser { make_scancode: true, extended_scancode: false }),
    {
        EventParser { make_scancode: true, extended_scancode: false }
    }

    /// Reads buffered bytes from `input` until one gives an event, or the buffer runs out.
    pub fn next_event(&mut self, input: &mut InputQueue) -> (event: Option<Event>)
        requires
            old(input).wf(),
        ensures
            final(input).wf(),
            ({
                let (last, consumed, expected) = spec_next_event(*old(self), old(input)@);
                &&& *final(self) == last
                &&& final(input)@ == old(input)@.skip(consumed as int)
                &&& event == expected
            }),
    {
        let ghost start = *self;
        let ghost bytes = input@;
        let ghost mut taken: nat = 0;
        loop
            invariant
                input.wf(),
                start == *old(self),
                bytes == old(input)@,
                taken <= bytes.len(),
                input@ == bytes.skip(taken as int),
                ({
                    let (last, consumed, expected) = spec_next_event(*self, input@);
                    spec_next_event(start, bytes) == (last, consumed + taken, expected)
                }),
            decreases input@.len(),
        {
            let ghost before = *self;
            let ghost rest = input@;
            match input.next() {
                Some(byte) => {
                    let event = self.parse_byte(byte);
                    proof {
                        assert(rest[0] == byte);
                        assert(bytes.skip(taken + 1int) =~= rest.drop_first());
                        let (l, c, e) = spec_next_event(*self, rest.drop_first());
                        assert(spec_next_event(before, rest) == (if event is Some {
                            (*self, 1nat, event)
                        } else {
                            (l, c + 1, e)
                        }));
                        taken = taken + 1;
                    }
                    if event.is_some() {
                        return event;
                    }
                },
                None => {
                    assert(spec_next_event(before, rest) == (before, 0nat, None::<Event>));
                    return None;
                },
            }
        }
    }

    /// Handles one byte: self test reports are events at once, other bytes go through scan
    /// code assembly and scan set 2.
    pub fn parse_byte(&mut self, byte: u8) -> (event: Option<Event>)
        ensures
            (*final(self), event) == spec_parse_byte(*old(self), byte),
    {
        if byte == BAT_SUCCESS {
            Some(Event::BatSuccess)
        } else if byte == BAT_ERROR {
            Some(Event::BatError)
        } else {
            match self.parse_scancode(byte) {
                Some(scancode) => match parse(scancode) {
                    Some(key) => Some(Event::Key { key, make: scancode.make }),
                    None => Some(Event::UnexpectedByte(scancode.code)),
                },
                None => None,
            }
        }
    }

    /// Handles one byte of a scan code: `0xE0` and `0xE1` mark the code extended, `0xF0` marks
    /// it a break code, and any other byte completes it.
    pub fn parse_scancode(&mut self, byte: u8) -> (scancode: Option<Scancode>)
        ensures
            (*final(self), scancode) == spec_parse_scancode(*old(self), byte),
    {
        if 0xE0 <= byte && byte <= 0xE1 {
            self.extended_scancode = true;
            None
        } else if byte == BREAK_PREFIX {
            self.make_scancode = false;
            None
        } else {
            let scancode = Scancode {
                code: byte,
                make: self.make_scancode,
                extended: self.extended_scancode,
            };
            self.make_scancode = true;
            self.extended_scancode = false;
            Some(scancode)
        }
    }
}

/// The keyboard on the first PS/2 port.
pub struct Keyboard;

impl Keyboard {
    /// The next keyboard event from the bytes received so far.
    pub fn next_event(parser: &mut EventParser, input: &mut InputQueue) -> (event: Option<Event>)
        requires
            old(input).wf(),
        ensures
            final(input).wf(),
            ({
                let (last, consumed, expected) = spec_next_event(*old(parser), old(input)@);
                &&& *final(parser) == last
                &&& final(input)@ == old(input)@.skip(consumed as int)
                &&& event == expected
            }),
    {
        parser.next_event(input)
    }

    /// The device command and data byte that light the LEDs in `flags`.
    pub fn set_leds(flags: LedFlags) -> (request: (u8, u8))
        ensures
            request == (SET_LEDS, flags.bits),
    {
        (SET_LEDS, flags.bits)
    }

    /// The device command and data byte that select scan set `scanset`.
    pub fn set_scanset(scanset: Scanset) -> (request: (u8, u8))
        ensures
            request == (SCANSET, scanset.spec_value()),
    {
        (SCANSET, scanset.value())
    }

    /// The device command and data byte that ask for the current scan set.
    pub fn scanset_query() -> (request: (u8, u8))
        ensures
            request == (SCANSET, 0u8),
    {
        (SCANSET, 0)
    }

    /// The current scan set, from the response to `scanset_query`.
    pub fn get_scanset(response: Option<u8>) -> (scanset: Result<Scanset, Error>)
        ensures
            scanset == (match response {
                Some(1) => Ok(Scanset::One),
                Some(2) => Ok(Scanset::Two),
                Some(3) => Ok(Scanset::Three),
                Some(v) => Err(Error::UnexpectedResponse(v)),
                None => Err(Error::ExpectedResponse),
            }),
    {
        match response {
            Some(1) => Ok(Scanset::One),
            Some(2) => Ok(Scanset::Two),
            Some(3) => Ok(Scanset::Three),
            Some(v) => Err(Error::UnexpectedResponse(v)),
            None => Err(Error::ExpectedResponse),
        }
    }
}

impl Device for Keyboard {
    fn enable() -> (command: u8)
        ensures
            command == ENABLE_KEYBOARD,
    {
        Controller::enable_keyboard()
    }

    fn disable() -> (command: u8)
        ensures
            command == DISABLE_KEYBOARD,
    {
        Controller::disable_keyboard()
    }

    fn test(response: Option<u8>) -> (result: Result<bool, Error>)
        ensures
            result == (match response {
                Some(byte) => Ok(byte == 0),
                None => Err(Error::ExpectedResponse),
            }),
    {
        Controller::test_keyboard(response)
    }

    fn mouse_port() -> (mouse: bool)
        ensures
            !mouse,
    {
        false
    }
}

impl CommandIo for Keyboard {
    fn read(response: Option<u8>) -> (result: Result<u8, Error>)
        ensures
            result == (match response {
                Some(byte) => Ok(byte),
                None => Err(Error::ExpectedResponse),
            }),
    {
        match response {
            Some(byte) => Ok(byte),
            None => Err(Error::ExpectedResponse),
        }
    }
}

/// The mouse on the second PS/2 port.
pub struct Mouse;

impl Device for Mouse {
    fn enable() -> (command: u8)
        ensures
            command == crate::ps2::ENABLE_MOUSE,
    {
        Controller::enable_mouse()
    }

    fn disable() -> (command: u8)
        ensures
            command == crate::ps2::DISABLE_MOUSE,
    {
        Controller::disable_mouse()
    }

    fn test(response: Option<u8>) -> (result: Result<bool, Error>)
        ensures
            result == (match response {
                Some(byte) => Ok(byte == 0),
                None => Err(Error::ExpectedResponse),
            }),
    {
        Controller::test_mouse(response)
    }

    fn mouse_port() -> (mouse: bool)
        ensures
            mouse,
    {
        true
    }
}

impl CommandIo for Mouse {
    fn read(response: Option<u8>) -> (result: Result<u8, Error>)
        ensures
            result == (match response {
                Some(byte) => Ok(byte),
                None => Err(Error::ExpectedResponse),
            }),
    {
        match response {
            Some(byte) => Ok(byte),
            None => Err(Error::ExpectedResponse),
        }
    }
}

} // verus!
