//! Low-level decisions of PS/2 port access: when the controller can be read or written, and when
//! a blocking access has waited too long.

use vstd::prelude::*;

verus! {

/// The amount of time in milliseconds to wait for IO access before terminating.
pub const BLOCK_TIME_MS: u64 = 10;

/// Port used to send data to the controller, and for the controller to return responses.
pub const DATA_PORT: u16 = 0x60;
/// Port used to check controller status and to send commands to the controller.
pub const CONTROLLER_PORT: u16 = 0x64;
/// Port used to pause through IO.
pub const IO_WAIT_PORT: u16 = 0x80;

/// If the output buffer from the controller is full (data can be read).
pub const OUTPUT_FULL: u8 = 1;
/// If the input buffer to the controller is full (data cannot be written).
pub const INPUT_FULL: u8 = 2;
/// If the current output from the controller is from the second port.
pub const PORT_2_FULL: u8 = 0x20;

/// Every known status flag.
pub const STATUS_FLAGS: u8 = 0x23;

/// The controller status register.
#[derive(Clone, Copy, PartialEq, Eq, Structural, Debug)]
pub struct StatusFlags {
    pub bits: u8,
}

impl StatusFlags {
    pub open spec fn has(self, flag: u8) -> bool {
        self.bits & flag == flag
    }

    /// The status flags of a byte read from the status port; unknown bits are dropped.
    pub fn from_bits_truncate(bits: u8) -> (flags: StatusFlags)
        ensures
            flags.bits == bits & STATUS_FLAGS,
    {
        StatusFlags { bits: bits & STATUS_FLAGS }
    }

    pub fn contains(&self, flag: u8) -> (result: bool)
        ensures
            result == self.has(flag),
    {
        self.bits & flag == flag
    }
}

/// Whether the controller accepts a write, given a byte read from the status port: the input
/// buffer must not be full.
pub fn can_write(status: u8) -> (result: bool)
    ensures
        result == (status & INPUT_FULL == 0),
{
    let flags = StatusFlags::from_bits_truncate(status);
    assert((status & 0x23u8) & 2 == 2 <==> status & 2 != 0) by (bit_vector);
    !flags.contains(INPUT_FULL)
}

/// Whether the controller has a byte to read, given a byte read from the status port: the output
/// buffer must be full.
pub fn can_read(status: u8) -> (result: bool)
    ensures
        result == (status & OUTPUT_FULL != 0),
{
    let flags = StatusFlags::from_bits_truncate(status);
    assert((status & 0x23u8) & 1 == 1 <==> status & 1 != 0) by (bit_vector);
    flags.contains(OUTPUT_FULL)
}

/// What a blocking port access does next.
#[derive(Clone, Copy, PartialEq, Eq, Structural, Debug)]
pub enum Poll {
    /// The port is ready: perform the access now.
    Ready,
    /// Not ready yet: pause through the IO wait port and look again.
    Wait,
    /// The access took longer than the block time.
    TimedOut,
}

/// The time at which a blocking access that starts at `now_ms` gives up.
pub fn cancel_time(now_ms: u64) -> (cancel: u64)
    requires
        now_ms + BLOCK_TIME_MS <= u64::MAX,
    ensures
        cancel == now_ms + BLOCK_TIME_MS,
{
    now_ms + BLOCK_TIME_MS
}

/// One round of a blocking write to a port: `status` is the status byte just read and `now_ms`
/// the current time. A write that times out is a fault of the controller.
pub fn write(status: u8, now_ms: u64, cancel_ms: u64) -> (poll: Poll)
    ensures
        poll == (if now_ms >= cancel_ms {
            Poll::TimedOut
        } else if status & INPUT_FULL == 0 {
            Poll::Ready
        } else {
            Poll::Wait
        }),
{
    if now_ms >= cancel_ms {
        Poll::TimedOut
    } else if can_write(status) {
        Poll::Ready
    } else {
        Poll::Wait
    }
}

/// One round of a blocking read from a port: `status` is the status byte just read and `now_ms`
/// the current time. A read that times out yields no byte.
pub fn read(status: u8, now_ms: u64, cancel_ms: u64) -> (poll: Poll)
    ensures
        poll == (if now_ms >= cancel_ms {
            Poll::TimedOut
        } else if status & OUTPUT_FULL != 0 {
            Poll::Ready
        } else {
            Poll::Wait
        }),
{
    if now_ms >= cancel_ms {
        Poll::TimedOut
    } else if can_read(status) {
        Poll::Ready
    } else {
        Poll::Wait
    }
}

/// One round of flushing the controller's output buffer: whether there is still a byte to
/// discard, given the status byte just read.
pub fn flush_output(status: u8) -> (more: bool)
    ensures
        more == (status & OUTPUT_FULL != 0),
{
    can_read(status)
}

} // verus!
