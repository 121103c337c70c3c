//! The HPET (high precision event timer) table.

use vstd::prelude::*;
use crate::acpi::{le16, le32, read_u16, read_u32, SdtHeader, ValidationError, validate, byte_sum};

verus! {

/// The HPET signature, "HPET".
pub const HPET_HEADER: [u8; 4] = [0x48, 0x50, 0x45, 0x54];
/// The size of the HPET table.
pub const HPET_SIZE: usize = 56;

/// Size of the timer counter.
#[derive(Clone, Copy, PartialEq, Eq, Structural, Debug)]
pub enum CounterSize {
    Size32,
    Size64,
}

/// A parsed HPET table.
#[derive(Clone, Copy, PartialEq, Eq, Debug)]
pub struct Hpet {
    /// Header for the HPET table.
    pub header: SdtHeader,
    /// Hardware revision id.
    pub hardware_rev_id: u8,
    /// Amount of comparators registered to the first timer block.
    pub comparator_count: u8,
    /// Size in bits of the HPET counter.
    pub counter_size: CounterSize,
    /// Whether this is LegacyReplacement IRQ Routing Capable.
    pub legacy_irq_routing: bool,
    /// The PCI vendor ID of the first timer block.
    pub pci_vendor_id: u16,
    /// The minimum clock ticks that can be set without lost interrupts in periodic mode.
    pub clock_tick_unit: u16,
}

/// The HPET decoded from its table bytes (before validation).
pub open spec fn spec_hpet(table: Seq<u8>) -> Hpet {
    let id = le32(table, 36);
    Hpet {
        header: SdtHeader::parse_spec(table),
        hardware_rev_id: (id % 256) as u8,
        comparator_count: (id / 256 % 32) as u8,
        counter_size: if id / 8192 % 2 == 1 {
            CounterSize::Size64
        } else {
            CounterSize::Size32
        },
        legacy_irq_routing: id / 32768 % 2 == 1,
        pci_vendor_id: (id / 65536) as u16,
        clock_tick_unit: le16(table, 53) as u16,
    }
}

impl Hpet {
    /// Reads and validates the HPET table whose bytes are `table`: the event timer block id
    /// holds the revision (bits 0-7), the comparator count (bits 8-12), the counter size (bit
    /// 13), legacy routing (bit 15) and the PCI vendor (bits 16-31).
    pub fn from_bytes(table: &[u8]) -> (hpet: Result<Hpet, ValidationError>)
        requires
            table@.len() >= HPET_SIZE,
            le32(table@, 4) <= table@.len(),
        ensures
            ({
                let header = SdtHeader::parse_spec(table@);
                if header.signature@ != HPET_HEADER@ {
                    hpet == Err::<Hpet, ValidationError>(
                        ValidationError::UnexpectedSignature {
                            expected: HPET_HEADER,
                            read: header.signature,
                        },
                    )
                } else if byte_sum(table@.take(header.len as int)) % 256 != 0 {
                    hpet == Err::<Hpet, ValidationError>(
                        ValidationError::InvalidByteSum(
                            (byte_sum(table@.take(header.len as int)) % 256) as u8,
                        ),
                    )
                } else {
                    hpet == Ok::<Hpet, ValidationError>(spec_hpet(table@))
                }
            }),
    {
        let header = SdtHeader::parse(table);
        match validate(&header, table, &HPET_HEADER) {
            Ok(_) => {},
            Err(e) => {
                return Err(e);
            },
        }
        let id = read_u32(table, 36);
        let hardware_rev_id = (id % 256) as u8;
        let comparator_count = (id / 256 % 32) as u8;
        let counter_size = if id / 8192 % 2 == 1 {
            CounterSize::Size64
        } else {
            CounterSize::Size32
        };
        let legacy_irq_routing = id / 32768 % 2 == 1;
        let pci_vendor_id = (id / 65536) as u16;
        Ok(
            Hpet {
                header,
                hardware_rev_id,
                comparator_count,
                counter_size,
                legacy_irq_routing,
                pci_vendor_id,
                clock_tick_unit: read_u16(table, 53),
            },
        )
    }
}

} // verus!
