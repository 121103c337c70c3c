//! The MADT (multiple APIC description table): its fixed fields and its list of interrupt
//! controller entries.

use vstd::prelude::*;
use crate::acpi::{
    le16, le32, le64, read_u16, read_u32, read_u64, SdtHeader, ValidationError, validate, byte_sum,
    SDT_HEADER_SIZE,
};

verus! {

/// The MADT signature, "APIC".
pub const MADT_HEADER: [u8; 4] = [0x41, 0x50, 0x49, 0x43];
/// The size of the fixed part of the MADT, before its entries.
pub const MADT_BEGIN_SIZE: usize = 44;

/// The MADT entry type.
#[derive(Clone, Copy, PartialEq, Eq, Structural, Debug)]
pub enum MadtEntryType {
    LocalApic,
    IoApic,
    InterruptSourceOverride,
    NmiSource,
    LocalApicNmi,
    LocalApicAddressOverride,
    IoSapic,
    LocalSapic,
    PlatformInterruptSources,
    LocalX2Apic,
    LocalX2ApicNmi,
    Gic,
    Gicd,
}

impl MadtEntryType {
    pub open spec fn spec_from_byte(byte: u8) -> Option<MadtEntryType> {
        if byte == 0 {
            Some(MadtEntryType::LocalApic)
        } else if byte == 1 {
            Some(MadtEntryType::IoApic)
        } else if byte == 2 {
            Some(MadtEntryType::InterruptSourceOverride)
        } else if byte == 3 {
            Some(MadtEntryType::NmiSource)
        } else if byte == 4 {
            Some(MadtEntryType::LocalApicNmi)
        } else if byte == 5 {
            Some(MadtEntryType::LocalApicAddressOverride)
        } else if byte == 6 {
            Some(MadtEntryType::IoSapic)
        } else if byte == 7 {
            Some(MadtEntryType::LocalSapic)
        } else if byte == 8 {
            Some(MadtEntryType::PlatformInterruptSources)
        } else if byte == 9 {
            Some(MadtEntryType::LocalX2Apic)
        } else if byte == 10 {
            Some(MadtEntryType::LocalX2ApicNmi)
        } else if byte == 11 {
            Some(MadtEntryType::Gic)
        } else if byte == 12 {
            Some(MadtEntryType::Gicd)
        } else {
            None
        }
    }

    /// The entry type with number `byte`, if it is a known one.
    pub fn from_byte(byte: u8) -> (entry_type: Option<MadtEntryType>)
        ensures
            entry_type == Self::spec_from_byte(byte),
    {
        match byte {
            0 => Some(MadtEntryType::LocalApic),
            1 => Some(MadtEntryType::IoApic),
            2 => Some(MadtEntryType::InterruptSourceOverride),
            3 => Some(MadtEntryType::NmiSource),
            4 => Some(MadtEntryType::LocalApicNmi),
            5 => Some(MadtEntryType::LocalApicAddressOverride),
            6 => Some(MadtEntryType::IoSapic),
            7 => Some(MadtEntryType::LocalSapic),
            8 => Some(MadtEntryType::PlatformInterruptSources),
            9 => Some(MadtEntryType::LocalX2Apic),
            10 => Some(MadtEntryType::LocalX2ApicNmi),
            11 => Some(MadtEntryType::Gic),
            12 => Some(MadtEntryType::Gicd),
            _ => None,
        }
    }
}

/// A MADT entry header.
#[derive(Clone, Copy, PartialEq, Eq, Structural, Debug)]
pub struct MadtEntryHeader {
    pub entry_type: MadtEntryType,
    pub len: u8,
}

/// The MPS INTI flags (as described by the ACPI specification, revision 5).
#[derive(Clone, Copy, PartialEq, Eq, Structural, Debug)]
pub struct MpsIntiFlags(pub u16);

/// The polarity of the APIC I/O signals, found in the `MpsIntiFlags`.
#[derive(Clone, Copy, PartialEq, Eq, Structural, Debug)]
pub enum MpsIntiPolarity {
    /// Conforms to bus specification.
    Bus,
    ActiveHigh,
    ActiveLow,
    /// Reserved by the ACPI specification, revision 5.
    Reserved,
}

/// The trigger mode of the APIC I/O signals, found in the `MpsIntiFlags`.
#[derive(Clone, Copy, PartialEq, Eq, Structural, Debug)]
pub enum MpsIntiTriggerMode {
    /// Conforms to bus specification.
    Bus,
    EdgeTriggered,
    LevelTriggered,
    /// Reserved by the ACPI specification, revision 5.
    Reserved,
}

impl MpsIntiFlags {
    pub open spec fn spec_polarity(self) -> MpsIntiPolarity {
        let bits = self.0 % 4;
        if bits == 0 {
            MpsIntiPolarity::Bus
        } else if bits == 1 {
            MpsIntiPolarity::ActiveHigh
        } else if bits == 3 {
            MpsIntiPolarity::ActiveLow
        } else {
            MpsIntiPolarity::Reserved
        }
    }

    pub open spec fn spec_trigger_mode(self) -> MpsIntiTriggerMode {
        let bits = self.0 / 4 % 4;
        if bits == 0 {
            MpsIntiTriggerMode::Bus
        } else if bits == 1 {
            MpsIntiTriggerMode::EdgeTriggered
        } else if bits == 3 {
            MpsIntiTriggerMode::LevelTriggered
        } else {
            MpsIntiTriggerMode::Reserved
        }
    }

    /// The polarity of the APIC I/O signals: bits 0 and 1.
    pub fn polarity(self) -> (polarity: MpsIntiPolarity)
        ensures
            polarity == self.spec_polarity(),
    {
        let bits = self.0 % 4;
        if bits == 0 {
            MpsIntiPolarity::Bus
        } else if bits == 1 {
            MpsIntiPolarity::ActiveHigh
        } else if bits == 3 {
            MpsIntiPolarity::ActiveLow
        } else {
            MpsIntiPolarity::Reserved
        }
    }

    /// The trigger mode of the APIC I/O signals: bits 2 and 3.
    pub fn trigger_mode(self) -> (mode: MpsIntiTriggerMode)
        ensures
            mode == self.spec_trigger_mode(),
    {
        let bits = self.0 / 4 % 4;
        if bits == 0 {
            MpsIntiTriggerMode::Bus
        } else if bits == 1 {
            MpsIntiTriggerMode::EdgeTriggered
        } else if bits == 3 {
            MpsIntiTriggerMode::LevelTriggered
        } else {
            MpsIntiTriggerMode::Reserved
        }
    }
}

/// A local APIC entry.
#[derive(Clone, Copy, PartialEq, Eq, Structural, Debug)]
pub struct LocalApicEntry {
    pub header: MadtEntryHeader,
    /// The ID of the processor the local APIC is attached to.
    pub processor_id: u8,
    /// The ID of the APIC.
    pub apic_id: u8,
    pub flags: u32,
}

/// An IO APIC entry.
#[derive(Clone, Copy, PartialEq, Eq, Structural, Debug)]
pub struct IoApicEntry {
    pub header: MadtEntryHeader,
    /// The IO APIC ID.
    pub id: u8,
    pub reserved: u8,
    /// The address of the IO APIC MMIO area.
    pub address: u32,
    /// The interrupt number at which this IO APIC begins.
    pub global_system_interrupt_base: u32,
}

/// An interrupt source override entry, which maps an ISA IRQ to an IO APIC IRQ.
#[derive(Clone, Copy, PartialEq, Eq, Structural, Debug)]
pub struct InterruptSourceOverrideEntry {
    pub header: MadtEntryHeader,
    pub bus: u8,
    pub source: u8,
    pub global_system_interrupt: u32,
    pub flags: MpsIntiFlags,
}

/// A non-maskable interrupt source entry.
#[derive(Clone, Copy, PartialEq, Eq, Structural, Debug)]
pub struct NmiSourceEntry {
    pub header: MadtEntryHeader,
    pub flags: MpsIntiFlags,
    /// The global system interrupt of this non-maskable interrupt.
    pub global_system_interrupt: u32,
}

/// A local APIC NMI entry.
#[derive(Clone, Copy, PartialEq, Eq, Structural, Debug)]
pub struct LocalApicNmiEntry {
    pub header: MadtEntryHeader,
    /// The ACPI processor ID; `0xFF` means all processors.
    pub processor_id: u8,
    pub flags: MpsIntiFlags,
    /// The LINT number of this NMI.
    pub local_int_number: u8,
}

/// A local APIC address override entry: if present, its 64 bit address is used instead of the
/// 32 bit one in the MADT itself.
#[derive(Clone, Copy, PartialEq, Eq, Structural, Debug)]
pub struct LocalApicAddressOverrideEntry {
    pub header: MadtEntryHeader,
    pub reserved: u16,
    pub local_apic_address: u64,
}

/// An entry of the MADT.
#[derive(Clone, Copy, PartialEq, Eq, Structural, Debug)]
pub enum MadtEntry {
    LocalApic(LocalApicEntry),
    IoApic(IoApicEntry),
    InterruptSourceOverride(InterruptSourceOverrideEntry),
    NmiSource(NmiSourceEntry),
    LocalApicNmi(LocalApicNmiEntry),
    LocalApicAddressOverride(LocalApicAddressOverrideEntry),
    Unimplemented(MadtEntryHeader),
}

/// The number of bytes an entry of this type occupies.
pub open spec fn entry_size(entry_type: MadtEntryType) -> int {
    match entry_type {
        MadtEntryType::LocalApic => 8,
        MadtEntryType::IoApic => 12,
        MadtEntryType::InterruptSourceOverride => 10,
        MadtEntryType::NmiSource => 8,
        MadtEntryType::LocalApicNmi => 6,
        MadtEntryType::LocalApicAddressOverride => 12,
        _ => 2,
    }
}

/// The entry whose bytes start at `at`, if its type is known and its bytes lie in `bytes`.
pub open spec fn spec_entry_at(bytes: Seq<u8>, at: int) -> Option<MadtEntry> {
    if at + 2 > bytes.len() {
        None
    } else {
        match MadtEntryType::spec_from_byte(bytes[at]) {
            None => None,
            Some(entry_type) => {
                let header = MadtEntryHeader { entry_type, len: bytes[at + 1] };
                if at + entry_size(entry_type) > bytes.len() {
                    None
                } else {
                    Some(
                        match entry_type {
                            MadtEntryType::LocalApic => MadtEntry::LocalApic(
                                LocalApicEntry {
                                    header,
                                    processor_id: bytes[at + 2],
                                    apic_id: bytes[at + 3],
                                    flags: le32(bytes, at + 4) as u32,
                                },
                            ),
                            MadtEntryType::IoApic => MadtEntry::IoApic(
                                IoApicEntry {
                                    header,
                                    id: bytes[at + 2],
                                    reserved: bytes[at + 3],
                                    address: le32(bytes, at + 4) as u32,
                                    global_system_interrupt_base: le32(bytes, at + 8) as u32,
                                },
                            ),
                            MadtEntryType::InterruptSourceOverride => MadtEntry::InterruptSourceOverride(
                                InterruptSourceOverrideEntry {
                                    header,
                                    bus: bytes[at + 2],
                                    source: bytes[at + 3],
                                    global_system_interrupt: le32(bytes, at + 4) as u32,
                                    flags: MpsIntiFlags(le16(bytes, at + 8) as u16),
                                },
                            ),
                            MadtEntryType::NmiSource => MadtEntry::NmiSource(
                                NmiSourceEntry {
                                    header,
                                    flags: MpsIntiFlags(le16(bytes, at + 2) as u16),
                                    global_system_interrupt: le32(bytes, at + 4) as u32,
                                },
                            ),
                            MadtEntryType::LocalApicNmi => MadtEntry::LocalApicNmi(
                                LocalApicNmiEntry {
                                    header,
                                    processor_id: bytes[at + 2],
                                    flags: MpsIntiFlags(le16(bytes, at + 3) as u16),
                                    local_int_number: bytes[at + 5],
                                },
                            ),
                            MadtEntryType::LocalApicAddressOverride => MadtEntry::LocalApicAddressOverride(
                                LocalApicAddressOverrideEntry {
                                    header,
                                    reserved: le16(bytes, at + 2) as u16,
                                    local_apic_address: le64(bytes, at + 4) as u64,
                                },
                            ),
                            _ => MadtEntry::Unimplemented(header),
                        },
                    )
                }
            },
        }
    }
}

impl MadtEntry {
    pub open spec fn spec_header(self) -> MadtEntryHeader {
        match self {
            MadtEntry::LocalApic(e) => e.header,
            MadtEntry::IoApic(e) => e.header,
            MadtEntry::InterruptSourceOverride(e) => e.header,
            MadtEntry::NmiSource(e) => e.header,
            MadtEntry::LocalApicNmi(e) => e.header,
            MadtEntry::LocalApicAddressOverride(e) => e.header,
            MadtEntry::Unimplemented(h) => h,
        }
    }

    /// The type of this entry.
    pub fn entry_type(&self) -> (entry_type: MadtEntryType)
        ensures
            entry_type == (match *self {
                MadtEntry::LocalApic(_) => MadtEntryType::LocalApic,
                MadtEntry::IoApic(_) => MadtEntryType::IoApic,
                MadtEntry::InterruptSourceOverride(_) => MadtEntryType::InterruptSourceOverride,
                MadtEntry::NmiSource(_) => MadtEntryType::NmiSource,
                MadtEntry::LocalApicNmi(_) => MadtEntryType::LocalApicNmi,
                MadtEntry::LocalApicAddressOverride(_) => MadtEntryType::LocalApicAddressOverride,
                MadtEntry::Unimplemented(header) => header.entry_type,
            }),
    {
        match *self {
            MadtEntry::LocalApic(_) => MadtEntryType::LocalApic,
            MadtEntry::IoApic(_) => MadtEntryType::IoApic,
            MadtEntry::InterruptSourceOverride(_) => MadtEntryType::InterruptSourceOverride,
            MadtEntry::NmiSource(_) => MadtEntryType::NmiSource,
            MadtEntry::LocalApicNmi(_) => MadtEntryType::LocalApicNmi,
            MadtEntry::LocalApicAddressOverride(_) => MadtEntryType::LocalApicAddressOverride,
            MadtEntry::Unimplemented(header) => header.entry_type,
        }
    }

    /// The header of this entry.
    pub fn header(&self) -> (header: MadtEntryHeader)
        ensures
            header == self.spec_header(),
    {
        match *self {
            MadtEntry::LocalApic(e) => e.header,
            MadtEntry::IoApic(e) => e.header,
            MadtEntry::InterruptSourceOverride(e) => e.header,
            MadtEntry::NmiSource(e) => e.header,
            MadtEntry::LocalApicNmi(e) => e.header,
            MadtEntry::LocalApicAddressOverride(e) => e.header,
            MadtEntry::Unimplemented(h) => h,
        }
    }

    /// Reads the entry at `at` of the table `bytes`: `None` for an unknown type or an entry that
    /// does not fit.
    pub fn parse(bytes: &[u8], at: usize) -> (entry: Option<MadtEntry>)
        ensures
            entry == spec_entry_at(bytes@, at as int),
    {
        let len = bytes.len();
        if at > len || len - at < 2 {
            return None;
        }
        let entry_type = match MadtEntryType::from_byte(bytes[at]) {
            Some(t) => t,
            None => {
                return None;
            },
        };
        let header = MadtEntryHeader { entry_type, len: bytes[at + 1] };
        let size: usize = match entry_type {
            MadtEntryType::LocalApic => 8,
            MadtEntryType::IoApic => 12,
            MadtEntryType::InterruptSourceOverride => 10,
            MadtEntryType::NmiSource => 8,
            MadtEntryType::LocalApicNmi => 6,
            MadtEntryType::LocalApicAddressOverride => 12,
            _ => 2,
        };
        if len - at < size {
            return None;
        }
        let entry = match entry_type {
            MadtEntryType::LocalApic => MadtEntry::LocalApic(
                LocalApicEntry {
                    header,
                    processor_id: bytes[at + 2],
                    apic_id: bytes[at + 3],
                    flags: read_u32(bytes, at + 4),
                },
            ),
            MadtEntryType::IoApic => MadtEntry::IoApic(
                IoApicEntry {
                    header,
                    id: bytes[at + 2],
                    reserved: bytes[at + 3],
                    address: read_u32(bytes, at + 4),
                    global_system_interrupt_base: read_u32(bytes, at + 8),
                },
            ),
            MadtEntryType::InterruptSourceOverride => MadtEntry::InterruptSourceOverride(
                InterruptSourceOverrideEntry {
                    header,
                    bus: bytes[at + 2],
                    source: bytes[at + 3],
                    global_system_interrupt: read_u32(bytes, at + 4),
                    flags: MpsIntiFlags(read_u16(bytes, at + 8)),
                },
            ),
            MadtEntryType::NmiSource => MadtEntry::NmiSource(
                NmiSourceEntry {
                    header,
                    flags: MpsIntiFlags(read_u16(bytes, at + 2)),
                    global_system_interrupt: read_u32(bytes, at + 4),
                },
            ),
            MadtEntryType::LocalApicNmi => MadtEntry::LocalApicNmi(
                LocalApicNmiEntry {
                    header,
                    processor_id: bytes[at + 2],
                    flags: MpsIntiFlags(read_u16(bytes, at + 3)),
                    local_int_number: bytes[at + 5],
                },
            ),
            MadtEntryType::LocalApicAddressOverride => MadtEntry::LocalApicAddressOverride(
                LocalApicAddressOverrideEntry {
                    header,
                    reserved: read_u16(bytes, at + 2),
                    local_apic_address: read_u64(bytes, at + 4),
                },
            ),
            _ => MadtEntry::Unimplemented(header),
        };
        Some(entry)
    }
}

/// The entries of a MADT, walked one after the other by their lengths.
#[derive(Clone, Copy, PartialEq, Eq, Structural, Debug)]
pub struct MadtEntries {
    /// The length of the whole table.
    pub madt_len: u64,
    /// The offset of the next entry in the table.
    pub current: u64,
}

impl MadtEntries {
    /// The entries of a table of length `madt_len`: they start right after its fixed fields.
    pub fn from_madt_len(madt_len: u32) -> (entries: MadtEntries)
        ensures
            entries == (MadtEntries { madt_len: madt_len as u64, current: MADT_BEGIN_SIZE as u64 }),
    {
        MadtEntries { madt_len: madt_len as u64, current: MADT_BEGIN_SIZE as u64 }
    }

    /// The next entry of the table `table`, and the offset advances by its length. The walk
    /// goes on while the offset is at most the table's length, and stops early at an entry of
    /// unknown type or one that does not lie in `table`.
    pub fn next(&mut self, table: &[u8]) -> (entry: Option<MadtEntry>)
        requires
            old(self).madt_len <= u32::MAX,
        ensures
            final(self).madt_len == old(self).madt_len,
            ({
                let found = if old(self).current <= old(self).madt_len {
                    spec_entry_at(table@, old(self).current as int)
                } else {
                    None
                };
                &&& entry == found
                &&& final(self).current == (match found {
                    Some(e) => (old(self).current + e.spec_header().len) as u64,
                    None => old(self).current,
                })
            }),
    {
        if self.current > self.madt_len {
            return None;
        }
        let len = table.len();
        if self.current > len as u64 {
            assert(spec_entry_at(table@, self.current as int) is None);
            return None;
        }
        let entry = MadtEntry::parse(table, self.current as usize);
        match entry {
            Some(e) => {
                self.current = self.current + e.header().len as u64;
            },
            None => {},
        }
        entry
    }
}

/// The MADT: its header, the local APIC address, whether the system has the two legacy PICs,
/// and its entries.
#[derive(Clone, Copy, PartialEq, Eq, Debug)]
pub struct Madt {
    pub header: SdtHeader,
    pub local_apic_address: u32,
    pub legacy_pics: bool,
    pub entries: MadtEntries,
}

impl Madt {
    /// Reads and validates the MADT whose bytes are `table`.
    pub fn from_bytes(table: &[u8]) -> (madt: Result<Madt, ValidationError>)
        requires
            table@.len() >= MADT_BEGIN_SIZE,
            le32(table@, 4) <= table@.len(),
        ensures
            ({
                let header = SdtHeader::parse_spec(table@);
                if header.signature@ != MADT_HEADER@ {
                    madt == Err::<Madt, ValidationError>(
                        ValidationError::UnexpectedSignature {
                            expected: MADT_HEADER,
                            read: header.signature,
                        },
                    )
                } else if byte_sum(table@.take(header.len as int)) % 256 != 0 {
                    madt == Err::<Madt, ValidationError>(
                        ValidationError::InvalidByteSum(
                            (byte_sum(table@.take(header.len as int)) % 256) as u8,
                        ),
                    )
                } else {
                    madt == Ok::<Madt, ValidationError>(
                        Madt {
                            header,
                            local_apic_address: le32(table@, 36) as u32,
                            legacy_pics: le32(table@, 40) % 2 == 1,
                            entries: MadtEntries {
                                madt_len: header.len as u64,
                                current: MADT_BEGIN_SIZE as u64,
                            },
                        },
                    )
                }
            }),
    {
        let header = SdtHeader::parse(table);
        let local_apic_address = read_u32(table, 36);
        let flags = read_u32(table, 40);
        let madt = Madt {
            header,
            local_apic_address,
            legacy_pics: flags % 2 == 1,
            entries: MadtEntries::from_madt_len(header.len),
        };
        match validate(&header, table, &MADT_HEADER) {
            Ok(_) => Ok(madt),
            Err(e) => Err(e),
        }
    }
}

/// **Law: MADT entries follow the ACPI layout.** An entry read at `at` has the type named by
/// the byte at `at` and the length in the byte after it, and each field comes from its place in
/// the ACPI layout: a local APIC's processor ID at offset 2, APIC ID at 3 and flags at 4; an IO
/// APIC's ID at 2, address at 4 and interrupt base at 8; an interrupt source override's bus at
/// 2, source IRQ at 3, global system interrupt at 4 and flags at 8; an NMI source's flags at 2
/// and global system interrupt at 4; a local APIC NMI's processor at 2, flags at 3 and LINT
/// number at 5; an address override's address at 4 (multi-byte fields little-endian).
pub proof fn law_madt_entry_layout(bytes: Seq<u8>, at: int)
    requires
        0 <= at,
    ensures
        spec_entry_at(bytes, at) matches Some(entry) ==> {
            &&& at + 2 <= bytes.len()
            &&& entry.spec_header().len == bytes[at + 1]
            &&& MadtEntryType::spec_from_byte(bytes[at]) == Some(entry.spec_header().entry_type)
            &&& entry matches MadtEntry::LocalApic(e) ==> bytes[at] == 0 && e.processor_id == bytes[at
                + 2] && e.apic_id == bytes[at + 3] && e.flags == le32(bytes, at + 4)
            &&& entry matches MadtEntry::IoApic(e) ==> bytes[at] == 1 && e.id == bytes[at + 2]
                && e.address == le32(bytes, at + 4) && e.global_system_interrupt_base == le32(
                bytes,
                at + 8,
            )
            &&& entry matches MadtEntry::InterruptSourceOverride(e) ==> bytes[at] == 2 && e.bus
                == bytes[at + 2] && e.source == bytes[at + 3] && e.global_system_interrupt == le32(
                bytes,
                at + 4,
            ) && e.flags.0 == le16(bytes, at + 8)
            &&& entry matches MadtEntry::NmiSource(e) ==> bytes[at] == 3 && e.flags.0 == le16(
                bytes,
                at + 2,
            ) && e.global_system_interrupt == le32(bytes, at + 4)
            &&& entry matches MadtEntry::LocalApicNmi(e) ==> bytes[at] == 4 && e.processor_id
                == bytes[at + 2] && e.flags.0 == le16(bytes, at + 3) && e.local_int_number
                == bytes[at + 5]
            &&& entry matches MadtEntry::LocalApicAddressOverride(e) ==> bytes[at] == 5
                && e.local_apic_address == le64(bytes, at + 4)
        },
{
    if at + 2 <= bytes.len() {
        lemma_le_bounds(bytes, at);
    }
}

/// The little-endian numbers an entry holds fit their fields.
proof fn lemma_le_bounds(bytes: Seq<u8>, at: int)
    ensures
        forall|o: int| 0 <= #[trigger] le16(bytes, o) < 0x1_0000,
        forall|o: int| 0 <= #[trigger] le32(bytes, o) < 0x1_0000_0000,
        forall|o: int| 0 <= #[trigger] le64(bytes, o) < 0x1_0000_0000_0000_0000,
{
    assert forall|o: int| 0 <= #[trigger] le16(bytes, o) < 0x1_0000 by {
        let a = bytes[o];
        let b = bytes[o + 1];
        assert(0 <= a + b * 0x100 < 0x1_0000) by (nonlinear_arith)
            requires
                0 <= a < 256,
                0 <= b < 256,
        ;
    }
    assert forall|o: int| 0 <= #[trigger] le32(bytes, o) < 0x1_0000_0000 by {
        let a = le16(bytes, o);
        let b = le16(bytes, o + 2);
        assert(0 <= a + b * 0x10000 < 0x1_0000_0000) by (nonlinear_arith)
            requires
                0 <= a < 0x1_0000,
                0 <= b < 0x1_0000,
        ;
    }
    assert forall|o: int| 0 <= #[trigger] le64(bytes, o) < 0x1_0000_0000_0000_0000 by {
        let a = le32(bytes, o);
        let b = le32(bytes, o + 4);
        assert(0 <= a + b * 0x1_0000_0000 < 0x1_0000_0000_0000_0000) by (nonlinear_arith)
            requires
                0 <= a < 0x1_0000_0000,
                0 <= b < 0x1_0000_0000,
        ;
    }
}

/// The bytes of an interrupt source override entry as the ACPI specification lays it out:
/// type 2, length 10, bus, source IRQ, then the global system interrupt and the flags, little
/// endian.
pub open spec fn interrupt_source_override_bytes(bus: u8, source: u8, gsi: u32, flags: u16) -> Seq<u8> {
    seq![
        2u8,
        10u8,
        bus,
        source,
        (gsi % 0x100) as u8,
        (gsi / 0x100 % 0x100) as u8,
        (gsi / 0x1_0000 % 0x100) as u8,
        (gsi / 0x100_0000) as u8,
        (flags % 0x100) as u8,
        (flags / 0x100) as u8,
    ]
}

/// **Law: an interrupt source override reads back.** Reading the bytes of an interrupt source
/// override gives back its bus, source IRQ, global system interrupt and flags.
pub proof fn law_interrupt_source_override_round_trip(bus: u8, source: u8, gsi: u32, flags: u16)
    ensures
        spec_entry_at(interrupt_source_override_bytes(bus, source, gsi, flags), 0) == Some(
            MadtEntry::InterruptSourceOverride(
                InterruptSourceOverrideEntry {
                    header: MadtEntryHeader {
                        entry_type: MadtEntryType::InterruptSourceOverride,
                        len: 10,
                    },
                    bus,
                    source,
                    global_system_interrupt: gsi,
                    flags: MpsIntiFlags(flags),
                },
            ),
        ),
{
    let bytes = interrupt_source_override_bytes(bus, source, gsi, flags);
    assert(le16(bytes, 4) == gsi % 0x1_0000);
    assert(le16(bytes, 6) == gsi / 0x1_0000);
    assert(le32(bytes, 4) == gsi);
    assert(le16(bytes, 8) == flags);
}

} // verus!
