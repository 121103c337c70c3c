//! Input buffering between the PS/2 interrupt handlers and the drivers, and what the port
//! detection checks decide.

use vstd::prelude::*;
use crossbeam::queue::ArrayQueue;
use crate::ps2::{Error, ConfigFlags, MOUSE_CLOCK_DISABLED};

verus! {

#[verifier::external_type_specification]
#[verifier::external_body]
#[verifier::reject_recursive_types(Item)]
pub struct ExArrayQueue<Item>(ArrayQueue<Item>);

/// The bytes a queue holds, oldest first.
pub uninterp spec fn queue_contents(queue: ArrayQueue<u8>) -> Seq<u8>;

/// The capacity a queue was made with.
pub uninterp spec fn queue_capacity(queue: ArrayQueue<u8>) -> nat;

/// `ArrayQueue::new`: an empty queue with room for `cap` bytes. The crate panics on a zero
/// capacity and on one whose next power of two overflows, so those are left out.
#[verifier::external_body]
fn queue_new(cap: usize) -> (queue: ArrayQueue<u8>)
    requires
        0 < cap <= 0x4000_0000,
    ensures
        queue_contents(queue) == Seq::<u8>::empty(),
        queue_capacity(queue) == cap,
{
    ArrayQueue::new(cap)
}

/// `ArrayQueue::push_mut`: appends `value` at the back, unless the queue is full, in which case
/// it is handed back and the queue is unchanged.
#[verifier::external_body]
fn queue_push(queue: &mut ArrayQueue<u8>, value: u8) -> (result: Result<(), u8>)
    requires
        queue_contents(*old(queue)).len() <= queue_capacity(*old(queue)),
    ensures
        queue_capacity(*final(queue)) == queue_capacity(*old(queue)),
        queue_contents(*old(queue)).len() < queue_capacity(*old(queue)) ==> result is Ok
            && queue_contents(*final(queue)) == queue_contents(*old(queue)).push(value),
        queue_contents(*old(queue)).len() == queue_capacity(*old(queue)) ==> result is Err && result->Err_0 == value
            && queue_contents(*final(queue)) == queue_contents(*old(queue)),
{
    queue.push_mut(value)
}

/// `ArrayQueue::pop_mut`: removes and returns the oldest byte, or `None` when the queue is
/// empty.
#[verifier::external_body]
fn queue_pop(queue: &mut ArrayQueue<u8>) -> (result: Option<u8>)
    ensures
        queue_capacity(*final(queue)) == queue_capacity(*old(queue)),
        queue_contents(*old(queue)).len() == 0 ==> result is None && queue_contents(*final(queue))
            == queue_contents(*old(queue)),
        queue_contents(*old(queue)).len() > 0 ==> result == Some(queue_contents(*old(queue))[0])
            && queue_contents(*final(queue)) == queue_contents(*old(queue)).drop_first(),
{
    queue.pop_mut()
}

/// The number of bytes an input queue buffers.
pub const INPUT_CAPACITY: usize = 64;

/// Bytes received from a PS/2 port that the driver has not read yet.
pub struct InputQueue {
    buffer: ArrayQueue<u8>,
}

impl View for InputQueue {
    type V = Seq<u8>;

    closed spec fn view(&self) -> Seq<u8> {
        queue_contents(self.buffer)
    }
}

impl InputQueue {
    pub closed spec fn wf(&self) -> bool {
        &&& queue_capacity(self.buffer) == INPUT_CAPACITY
        &&& queue_contents(self.buffer).len() <= INPUT_CAPACITY
    }

    /// An empty queue.
    pub fn new() -> (queue: InputQueue)
        ensures
            queue.wf(),
            queue@ == Seq::<u8>::empty(),
    {
        InputQueue { buffer: queue_new(INPUT_CAPACITY) }
    }

    /// Buffers a received byte. When the queue is full the byte is dropped: old bytes are kept.
    pub fn push(&mut self, byte: u8)
        requires
            old(self).wf(),
        ensures
            final(self).wf(),
            final(self)@ == (if old(self)@.len() < INPUT_CAPACITY {
                old(self)@.push(byte)
            } else {
                old(self)@
            }),
    {
        let _ = queue_push(&mut self.buffer, byte);
    }

    /// Takes the oldest buffered byte.
    pub fn next(&mut self) -> (byte: Option<u8>)
        requires
            old(self).wf(),
        ensures
            final(self).wf(),
            old(self)@.len() == 0 ==> byte is None && final(self)@ == old(self)@,
            old(self)@.len() > 0 ==> byte == Some(old(self)@[0]) && final(self)@ == old(
                self,
            )@.drop_first(),
    {
        queue_pop(&mut self.buffer)
    }
}

/// The outcome of detecting the ports, from the outcome of its checks in order: the keyboard
/// port test, the dual channel test, and the mouse port test, which is only made on a dual
/// channel controller. A port that is not available is no error.
pub fn detect(keyboard: Result<bool, Error>, dual_channel: Result<bool, Error>, mouse: Result<
    bool,
    Error,
>) -> (result: Result<(), Error>)
    ensures
        result == (match keyboard {
            Err(e) => Err(e),
            Ok(_) => match dual_channel {
                Err(e) => Err(e),
                Ok(dual) => if dual {
                    match mouse {
                        Err(e) => Err(e),
                        Ok(_) => Ok(()),
                    }
                } else {
                    Ok(())
                },
            },
        }),
{
    match keyboard {
        Err(e) => Err(e),
        Ok(_) => match dual_channel {
            Err(e) => Err(e),
            Ok(dual) => if dual {
                match mouse {
                    Err(e) => Err(e),
                    Ok(_) => Ok(()),
                }
            } else {
                Ok(())
            },
        },
    }
}

/// Whether the controller has a second port, from the configuration read with the mouse port
/// disabled and, if that shows the mouse clock disabled, the one read with the port enabled.
pub fn test_dual_channel(disabled: Result<ConfigFlags, Error>, enabled: Result<ConfigFlags, Error>) -> (result: Result<bool, Error>)
    ensures
        result == (match disabled {
            Err(e) => Err(e),
            Ok(config) => if !config.has(MOUSE_CLOCK_DISABLED) {
                Ok(false)
            } else {
                match enabled {
                    Err(e) => Err(e),
                    Ok(config) => Ok(!config.has(MOUSE_CLOCK_DISABLED)),
                }
            },
        }),
{
    match disabled {
        Err(e) => Err(e),
        Ok(config) => if !config.contains(MOUSE_CLOCK_DISABLED) {
            Ok(false)
        } else {
            match enabled {
                Err(e) => Err(e),
                Ok(config) => Ok(!config.contains(MOUSE_CLOCK_DISABLED)),
            }
        },
    }
}

} // verus!
