use flower::acpi::hpet::{CounterSize, Hpet};
use flower::acpi::madt::{
    IoApicEntry, LocalApicEntry, Madt, MadtEntry, MadtEntryHeader, MadtEntryType, MpsIntiFlags,
    MpsIntiPolarity, MpsIntiTriggerMode,
};
use flower::acpi::rsdp::{find_ebda_start, search_for_rsdp, Rsdp, RsdpV1, RsdpV2, SEARCHED_MEMORY};
use flower::acpi::rsdt::{table_addresses, TableAddresses};
use flower::acpi::{checksum, read_u16, read_u32, read_u64, validate, SdtHeader, ValidationError};

fn fix_checksum(bytes: &mut [u8], at: usize, len: usize) {
    let sum: u32 = bytes[..len].iter().map(|b| *b as u32).sum();
    bytes[at] = bytes[at].wrapping_sub((sum % 256) as u8);
}

fn rsdp_v1(revision: u8, rsdt: u32) -> Vec<u8> {
    let mut bytes = b"RSD PTR ".to_vec();
    bytes.push(0);
    bytes.extend_from_slice(b"BOCHS ");
    bytes.push(revision);
    bytes.extend_from_slice(&rsdt.to_le_bytes());
    fix_checksum(&mut bytes, 8, 20);
    bytes
}

fn rsdp_v2(xsdt: u64) -> Vec<u8> {
    let mut bytes = rsdp_v1(2, 0x1000);
    bytes.extend_from_slice(&36u32.to_le_bytes());
    bytes.extend_from_slice(&xsdt.to_le_bytes());
    bytes.push(0);
    bytes.extend_from_slice(&[0, 0, 0]);
    fix_checksum(&mut bytes, 32, 36);
    bytes
}

fn header(signature: &[u8; 4], len: u32) -> Vec<u8> {
    let mut bytes = signature.to_vec();
    bytes.extend_from_slice(&len.to_le_bytes());
    bytes.push(1);
    bytes.push(0);
    bytes.extend_from_slice(b"FLOWER");
    bytes.extend_from_slice(b"TABLEID ");
    bytes.extend_from_slice(&7u32.to_le_bytes());
    bytes.extend_from_slice(b"ASL ");
    bytes.extend_from_slice(&9u32.to_le_bytes());
    bytes
}

#[test]
fn little_endian_reads() {
    let bytes = [0x01, 0x02, 0x03, 0x04, 0x05, 0x06, 0x07, 0x08];
    assert_eq!(read_u16(&bytes, 0), 0x0201);
    assert_eq!(read_u32(&bytes, 1), 0x05040302);
    assert_eq!(read_u64(&bytes, 0), 0x0807060504030201);
    assert_eq!(checksum(&[200, 100, 3], 3), 47);
    assert_eq!(checksum(&[200, 100, 3], 1), 200);
}

#[test]
fn rsdp_checksums() {
    let bytes = rsdp_v1(0, 0x12345678);
    let rsdp = RsdpV1::parse(&bytes, 0);
    assert!(rsdp.validate());
    assert_eq!(rsdp.rsdt_address, 0x12345678);
    assert_eq!(rsdp.to_bytes(), bytes);
    let mut broken = bytes.clone();
    broken[10] ^= 1;
    assert!(!RsdpV1::parse(&broken, 0).validate());
    let v2 = RsdpV2::parse(&rsdp_v2(0xdead_beef_0000), 0);
    assert!(v2.validate());
    assert_eq!(v2.xsdt_address, 0xdead_beef_0000);
    assert_eq!(v2.to_bytes(), rsdp_v2(0xdead_beef_0000));
}

#[test]
fn ebda_start() {
    assert_eq!(find_ebda_start(0x9F00), 0x9F000);
    assert_eq!(find_ebda_start(0x1000), 0x80000);
    assert_eq!(find_ebda_start(0xA000), 0x80000);
}

fn low_memory(ebda_segment: u16) -> Vec<u8> {
    let mut memory = vec![0u8; SEARCHED_MEMORY];
    memory[0x40e..0x410].copy_from_slice(&ebda_segment.to_le_bytes());
    memory
}

#[test]
fn rsdp_is_found_in_the_bios_area() {
    let mut memory = low_memory(0x9F00);
    let invalid = {
        let mut bytes = rsdp_v1(0, 1);
        bytes[8] ^= 0xff;
        bytes
    };
    memory[0xE0100..0xE0114].copy_from_slice(&invalid);
    let valid = rsdp_v1(0, 0x7fe0000);
    memory[0xE0200..0xE0214].copy_from_slice(&valid);
    match search_for_rsdp(&memory) {
        Some((Rsdp::V1(rsdp), address)) => {
            assert_eq!(address, 0xE0200);
            assert_eq!(rsdp.rsdt_address, 0x7fe0000);
        },
        other => panic!("unexpected search result {:?}", other),
    }
}

#[test]
fn acpi2_rsdp_is_found() {
    let mut memory = low_memory(0x9F00);
    memory[0xF0000..0xF0024].copy_from_slice(&rsdp_v2(0x7fe1000));
    match search_for_rsdp(&memory) {
        Some((Rsdp::V2(rsdp), address)) => {
            assert_eq!(address, 0xF0000);
            assert_eq!(rsdp.xsdt_address, 0x7fe1000);
            assert_eq!(rsdp.v1.revision, 2);
        },
        other => panic!("unexpected search result {:?}", other),
    }
}

#[test]
fn ebda_is_searched_after_the_bios_area() {
    let mut memory = low_memory(0x9F00);
    // only the 16 byte boundaries of the EBDA are looked at
    memory[0x9F001..0x9F015].copy_from_slice(&rsdp_v1(0, 0x41));
    assert!(search_for_rsdp(&memory).is_none());
    memory[0x9F010..0x9F024].copy_from_slice(&rsdp_v1(0, 0x42));
    match search_for_rsdp(&memory) {
        Some((Rsdp::V1(rsdp), address)) => {
            assert_eq!(address, 0x9F010);
            assert_eq!(rsdp.rsdt_address, 0x42);
        },
        other => panic!("unexpected search result {:?}", other),
    }
    let empty = low_memory(0x9F00);
    assert!(search_for_rsdp(&empty).is_none());
}

#[test]
fn table_validation() {
    let mut table = header(b"APIC", 44);
    table.extend_from_slice(&0xFEE0_0000u32.to_le_bytes());
    table.extend_from_slice(&1u32.to_le_bytes());
    fix_checksum(&mut table, 9, 44);
    let parsed = SdtHeader::parse(&table);
    assert_eq!(parsed.len, 44);
    assert_eq!(&parsed.oem_id, b"FLOWER");
    assert_eq!(validate(&parsed, &table, b"APIC"), Ok(()));
    assert_eq!(
        validate(&parsed, &table, b"HPET"),
        Err(ValidationError::UnexpectedSignature { expected: *b"HPET", read: *b"APIC" })
    );
    table[20] = table[20].wrapping_add(3);
    assert_eq!(validate(&parsed, &table, b"APIC"), Err(ValidationError::InvalidByteSum(3)));
}

#[test]
fn madt_entries() {
    let mut table = header(b"APIC", 0);
    table.extend_from_slice(&0xFEE0_0000u32.to_le_bytes());
    table.extend_from_slice(&1u32.to_le_bytes());
    table.extend_from_slice(&[0, 8, 1, 2, 1, 0, 0, 0]);
    table.extend_from_slice(&[1, 12, 3, 0]);
    table.extend_from_slice(&0xFEC0_0000u32.to_le_bytes());
    table.extend_from_slice(&0u32.to_le_bytes());
    table.extend_from_slice(&[2, 10, 0, 0, 2, 0, 0, 0, 0x0f, 0x00]);
    let len = table.len() as u32;
    table[4..8].copy_from_slice(&len.to_le_bytes());
    let n = table.len();
    fix_checksum(&mut table, 9, n);
    let madt = Madt::from_bytes(&table).unwrap();
    assert_eq!(madt.local_apic_address, 0xFEE0_0000);
    assert!(madt.legacy_pics);
    let mut entries = madt.entries;
    let first = entries.next(&table).unwrap();
    assert_eq!(
        first,
        MadtEntry::LocalApic(LocalApicEntry {
            header: MadtEntryHeader { entry_type: MadtEntryType::LocalApic, len: 8 },
            processor_id: 1,
            apic_id: 2,
            flags: 1,
        })
    );
    assert_eq!(first.entry_type(), MadtEntryType::LocalApic);
    let second = entries.next(&table).unwrap();
    assert_eq!(
        second,
        MadtEntry::IoApic(IoApicEntry {
            header: MadtEntryHeader { entry_type: MadtEntryType::IoApic, len: 12 },
            id: 3,
            reserved: 0,
            address: 0xFEC0_0000,
            global_system_interrupt_base: 0,
        })
    );
    let third = entries.next(&table).unwrap();
    assert_eq!(third.header().len, 10);
    match third {
        MadtEntry::InterruptSourceOverride(entry) => {
            assert_eq!(entry.global_system_interrupt, 2);
            assert_eq!(entry.flags.polarity(), MpsIntiPolarity::ActiveLow);
            assert_eq!(entry.flags.trigger_mode(), MpsIntiTriggerMode::LevelTriggered);
        },
        other => panic!("unexpected entry {:?}", other),
    }
    assert_eq!(entries.next(&table), None);
    assert_eq!(MpsIntiFlags(0b0101).polarity(), MpsIntiPolarity::ActiveHigh);
    assert_eq!(MpsIntiFlags(0b0101).trigger_mode(), MpsIntiTriggerMode::EdgeTriggered);
    assert_eq!(MpsIntiFlags(0b1010).polarity(), MpsIntiPolarity::Reserved);
    assert_eq!(MpsIntiFlags(0).trigger_mode(), MpsIntiTriggerMode::Bus);
}

#[test]
fn madt_with_a_wrong_signature_is_rejected() {
    let mut table = header(b"APIX", 44);
    table.extend_from_slice(&[0; 8]);
    assert!(matches!(Madt::from_bytes(&table), Err(ValidationError::UnexpectedSignature { .. })));
}

#[test]
fn hpet_fields() {
    let mut table = header(b"HPET", 56);
    let id: u32 = 0x8086_a201;
    table.extend_from_slice(&id.to_le_bytes());
    table.extend_from_slice(&[0; 12]);
    table.push(0);
    table.extend_from_slice(&0x80u16.to_le_bytes());
    table.push(0);
    fix_checksum(&mut table, 9, 56);
    let hpet = Hpet::from_bytes(&table).unwrap();
    assert_eq!(hpet.hardware_rev_id, 1);
    assert_eq!(hpet.comparator_count, 2);
    assert_eq!(hpet.counter_size, CounterSize::Size64);
    assert!(hpet.legacy_irq_routing);
    assert_eq!(hpet.pci_vendor_id, 0x8086);
    assert_eq!(hpet.clock_tick_unit, 0x80);
    table[40] ^= 1;
    assert!(matches!(Hpet::from_bytes(&table), Err(ValidationError::InvalidByteSum(_))));
}

#[test]
fn system_description_table_addresses() {
    let mut table = header(b"XSDT", 36 + 16);
    table.extend_from_slice(&0x1000u64.to_le_bytes());
    table.extend_from_slice(&0x2000u64.to_le_bytes());
    let n = table.len();
    fix_checksum(&mut table, 9, n);
    let parsed = SdtHeader::parse(&table);
    let mut addresses = table_addresses(&parsed, &table, true).unwrap();
    assert_eq!(addresses, TableAddresses { entries: 2, cur: 0, extended: true });
    assert_eq!(addresses.size_hint(), 2);
    let entries = &table[36..];
    assert_eq!(addresses.next(entries), Some(0x1000));
    assert_eq!(addresses.next(entries), Some(0x2000));
    assert_eq!(addresses.next(entries), None);
    assert!(matches!(table_addresses(&parsed, &table, false), Err(ValidationError::UnexpectedSignature { .. })));
    let mut rsdt = header(b"RSDT", 40);
    rsdt.extend_from_slice(&0x3000u32.to_le_bytes());
    fix_checksum(&mut rsdt, 9, 40);
    let parsed = SdtHeader::parse(&rsdt);
    let mut addresses = table_addresses(&parsed, &rsdt, false).unwrap();
    assert_eq!(addresses.next(&rsdt[36..]), Some(0x3000));
    assert_eq!(addresses.next(&rsdt[36..]), None);
}
