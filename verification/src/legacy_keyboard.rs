//! The first keyboard driver: reading raw scan codes from a PS/2 keyboard.

use vstd::prelude::*;
use crate::ps2_controller::is_ok;

verus! {

/// A scan code and whether it is a make (press) code.
#[derive(Clone, Copy, PartialEq, Eq, Structural, Debug)]
pub struct Scancode {
    pub code: u32,
    pub make: bool,
}

impl Scancode {
    pub fn new(scancode: u32, make: bool) -> (result: Scancode)
        ensures
            result == (Scancode { code: scancode, make }),
    {
        Scancode { code: scancode, make }
    }
}

/// What reading a scan code does after a read from the data port.
#[derive(Clone, Copy, PartialEq, Eq, Structural, Debug)]
pub enum ScancodeStep {
    /// Nothing usable was read: read again.
    Again,
    /// A break prefix was read: the code follows in the next read, as a break code.
    Break,
    /// A complete make code.
    Make(Scancode),
}

/// Reading a scan code: zero, the extension prefixes and missing bytes are skipped, `0xF0`
/// announces a break code, and any other byte is a make code.
pub fn read_scancode(byte: Option<u8>) -> (step: ScancodeStep)
    ensures
        step == (match byte {
            Some(b) => if b == 0 || b == 0xE0 || b == 0xE1 {
                ScancodeStep::Again
            } else if b == 0xF0 {
                ScancodeStep::Break
            } else {
                ScancodeStep::Make(Scancode { code: b as u32, make: true })
            },
            None => ScancodeStep::Again,
        }),
{
    match byte {
        Some(b) => if b == 0 || b == 0xE0 || b == 0xE1 {
            ScancodeStep::Again
        } else if b == 0xF0 {
            ScancodeStep::Break
        } else {
            ScancodeStep::Make(Scancode::new(b as u32, true))
        },
        None => ScancodeStep::Again,
    }
}

/// The break code after a break prefix, from the next read; a missing byte gives code zero.
pub fn read_break(byte: Option<u8>) -> (scancode: Scancode)
    ensures
        scancode == (Scancode {
            code: match byte {
                Some(b) => b as u32,
                None => 0,
            },
            make: false,
        }),
{
    let code: u32 = match byte {
        Some(b) => b as u32,
        None => 0,
    };
    Scancode::new(code, false)
}

/// Whether enabling the keyboard worked, from the outcomes of selecting scan set 2 and of
/// enabling scanning (which is only sent when the first worked).
pub fn enable(set_scancode: Option<u8>, enable_scanning: Option<u8>) -> (ok: bool)
    ensures
        ok == ((set_scancode == Some(0xFAu8) || set_scancode == Some(0xAAu8)) && (enable_scanning
            == Some(0xFAu8) || enable_scanning == Some(0xAAu8))),
{
    is_ok(set_scancode) && is_ok(enable_scanning)
}

} // verus!
