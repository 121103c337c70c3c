//! The programmable interval timer: its configuration byte, reload value and tick count.

use vstd::prelude::*;
use crate::io::PortWrite;

verus! {

/// The frequency of the timer's input clock.
pub const BASE_FREQUENCY_HZ: usize = 1193182;
/// The frequency the timer is programmed to tick at.
pub const FREQUENCY_HZ: usize = 1000;
/// The configuration port.
pub const CONFIGURE_PORT: u16 = 0x43;
/// The data port of channel 0.
pub const CHANNEL_0_PORT: u16 = 0x40;

/// The reload value that makes the timer tick at `frequency` Hz, truncated to 16 bits.
pub fn compute_reload(frequency: usize) -> (reload: u16)
    requires
        frequency > 0,
    ensures
        reload == (BASE_FREQUENCY_HZ / frequency) as u16,
{
    (BASE_FREQUENCY_HZ / frequency) as u16
}

/// The tick count after one more tick; it wraps around.
pub fn tick(count: usize) -> (next: usize)
    ensures
        next == (if count == usize::MAX {
            0
        } else {
            count + 1
        }),
{
    count.wrapping_add(1)
}

/// The time in milliseconds after `ticks` ticks: one tick is one millisecond at the programmed
/// frequency.
pub fn time_ms(ticks: usize) -> (ms: usize)
    ensures
        ms == ticks,
{
    ticks
}

/// The tick count at which a sleep of `ms` milliseconds that starts at tick `now` ends; the
/// sleep lasts while the count is below it.
pub fn sleep(now: usize, ms: usize) -> (wake: usize)
    requires
        now + ms <= usize::MAX,
    ensures
        wake == now + ms,
{
    now + ms
}

/// From: OsDev Wiki, Programmable Interval Timer.
#[derive(Clone, Copy, PartialEq, Eq, Structural, Debug)]
pub enum OperatingMode {
    InterruptOnTerminalCount,
    HardwareReTriggerableOneShot,
    RateGenerator,
    SquareWaveGenerator,
    SoftwareTriggeredStrobe,
    HardwareTriggeredStrobe,
}

impl OperatingMode {
    pub open spec fn spec_value(self) -> u8 {
        match self {
            OperatingMode::InterruptOnTerminalCount => 0,
            OperatingMode::HardwareReTriggerableOneShot => 1,
            OperatingMode::RateGenerator => 2,
            OperatingMode::SquareWaveGenerator => 3,
            OperatingMode::SoftwareTriggeredStrobe => 4,
            OperatingMode::HardwareTriggeredStrobe => 5,
        }
    }

    pub fn value(self) -> (value: u8)
        ensures
            value == self.spec_value(),
    {
        match self {
            OperatingMode::InterruptOnTerminalCount => 0,
            OperatingMode::HardwareReTriggerableOneShot => 1,
            OperatingMode::RateGenerator => 2,
            OperatingMode::SquareWaveGenerator => 3,
            OperatingMode::SoftwareTriggeredStrobe => 4,
            OperatingMode::HardwareTriggeredStrobe => 5,
        }
    }
}

#[derive(Clone, Copy, PartialEq, Eq, Structural, Debug)]
pub enum AccessMode {
    LobyteOnly,
    HibyteOnly,
    LobyteHibyte,
}

impl AccessMode {
    pub open spec fn spec_value(self) -> u8 {
        match self {
            AccessMode::LobyteOnly => 1,
            AccessMode::HibyteOnly => 2,
            AccessMode::LobyteHibyte => 3,
        }
    }

    pub fn value(self) -> (value: u8)
        ensures
            value == self.spec_value(),
    {
        match self {
            AccessMode::LobyteOnly => 1,
            AccessMode::HibyteOnly => 2,
            AccessMode::LobyteHibyte => 3,
        }
    }
}

/// A channel of the timer.
#[derive(Clone, Copy, PartialEq, Eq, Structural, Debug)]
pub struct Channel {
    pub port: u16,
}

impl Channel {
    pub fn new(port: u16) -> (channel: Channel)
        ensures
            channel.port == port,
    {
        Channel { port }
    }

    /// The writes that set the reload value: the low byte, then the high byte.
    pub fn set_reload_value(&self, reload_value: u16) -> (writes: Vec<PortWrite>)
        ensures
            writes@ == seq![
                PortWrite { port: self.port, value: (reload_value % 256) as u8 },
                PortWrite { port: self.port, value: (reload_value / 256) as u8 },
            ],
    {
        let lower = (reload_value & 0xFF) as u8;
        let upper = ((reload_value >> 8) & 0xFF) as u8;
        assert(reload_value & 0xFF == reload_value % 256) by (bit_vector);
        assert((reload_value >> 8) & 0xFF == reload_value / 256) by (bit_vector);
        let mut writes = Vec::new();
        writes.push(PortWrite { port: self.port, value: lower });
        writes.push(PortWrite { port: self.port, value: upper });
        assert(writes@ =~= seq![
            PortWrite { port: self.port, value: (reload_value % 256) as u8 },
            PortWrite { port: self.port, value: (reload_value / 256) as u8 },
        ]);
        writes
    }
}

/// The timer: its configuration port and channel 0.
#[derive(Clone, Copy, PartialEq, Eq, Structural, Debug)]
pub struct Controller {
    pub configure_port: u16,
    pub channel_0: Channel,
}

impl Controller {
    pub fn new() -> (controller: Controller)
        ensures
            controller.configure_port == CONFIGURE_PORT,
            controller.channel_0.port == CHANNEL_0_PORT,
    {
        Controller { configure_port: CONFIGURE_PORT, channel_0: Channel::new(CHANNEL_0_PORT) }
    }

    /// The configuration byte that selects `channel` with the given modes.
    pub fn configure(&self, channel: u8, operating_mode: OperatingMode, access_mode: AccessMode) -> (write: PortWrite)
        ensures
            write == (PortWrite {
                port: self.configure_port,
                value: (channel << 6u8) | (access_mode.spec_value() << 4u8) | (
                operating_mode.spec_value() << 1u8),
            }),
    {
        let configuration = (channel << 6u8) | (access_mode.value() << 4u8) | (operating_mode.value()
            << 1u8);
        PortWrite { port: self.configure_port, value: configuration }
    }

    /// The writes that start the timer: channel 0 as a rate generator, low then high byte,
    /// with the reload value for `FREQUENCY_HZ`. The tick count starts at zero and the timer
    /// interrupt then counts ticks.
    pub fn initialize(&self) -> (writes: Vec<PortWrite>)
        ensures
            writes@ == seq![
                PortWrite { port: self.configure_port, value: 0x34 },
                PortWrite { port: self.channel_0.port, value: 0xA9 },
                PortWrite { port: self.channel_0.port, value: 0x04 },
            ],
    {
        let configuration = self.configure(0, OperatingMode::RateGenerator, AccessMode::LobyteHibyte);
        assert((0u8 << 6u8) | (3u8 << 4u8) | (2u8 << 1u8) == 0x34u8) by (bit_vector);
        let reload = compute_reload(FREQUENCY_HZ);
        assert(reload == 1193);
        let mut writes = Vec::new();
        writes.push(configuration);
        let mut reload_writes = self.channel_0.set_reload_value(reload);
        writes.append(&mut reload_writes);
        assert(writes@ =~= seq![
            PortWrite { port: self.configure_port, value: 0x34 },
            PortWrite { port: self.channel_0.port, value: 0xA9 },
            PortWrite { port: self.channel_0.port, value: 0x04 },
        ]);
        writes
    }
}

} // verus!
