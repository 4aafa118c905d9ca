use srat::EntryHeader;
use srat::MemoryAffinityEntry;
use srat::ProcessorLocalApicAffinityEntry;
use srat::ProcessorLocalX2ApicAffinityEntry;
use srat::Srat;
use srat::SratEntry;
use srat::SratError;

fn apic_record(
    prox_low: u8,
    apic_id: u8,
    flags: u32,
    sapic_eid: u8,
    prox_higher: [u8; 3],
    clock_domain: u32,
) -> Vec<u8> {
    let mut r = vec![0x00u8, 16, prox_low, apic_id];
    r.extend_from_slice(&flags.to_le_bytes());
    r.push(sapic_eid);
    r.extend_from_slice(&prox_higher);
    r.extend_from_slice(&clock_domain.to_le_bytes());
    assert_eq!(r.len(), 16);
    r
}

fn memory_record(
    domain: u32,
    base_low: u32,
    base_high: u32,
    length_low: u32,
    length_high: u32,
    flags: u32,
) -> Vec<u8> {
    let mut r = vec![0x01u8, 40];
    r.extend_from_slice(&domain.to_le_bytes());
    r.extend_from_slice(&[0u8; 2]);
    r.extend_from_slice(&base_low.to_le_bytes());
    r.extend_from_slice(&base_high.to_le_bytes());
    r.extend_from_slice(&length_low.to_le_bytes());
    r.extend_from_slice(&length_high.to_le_bytes());
    r.extend_from_slice(&[0u8; 4]);
    r.extend_from_slice(&flags.to_le_bytes());
    r.extend_from_slice(&[0u8; 8]);
    assert_eq!(r.len(), 40);
    r
}

fn x2apic_record(domain: u32, x2_apic_id: u32, flags: u32, clock_domain: u32) -> Vec<u8> {
    let mut r = vec![0x02u8, 24, 0, 0];
    r.extend_from_slice(&domain.to_le_bytes());
    r.extend_from_slice(&x2_apic_id.to_le_bytes());
    r.extend_from_slice(&flags.to_le_bytes());
    r.extend_from_slice(&clock_domain.to_le_bytes());
    r.extend_from_slice(&[0u8; 4]);
    assert_eq!(r.len(), 24);
    r
}

#[test]
fn round_trip_all_recognized() {
    let mut data = Vec::new();
    data.extend_from_slice(&apic_record(0xaa, 7, 0x0102_0304, 9, [0xbb, 0xcc, 0xdd], 0x1122_3344));
    data.extend_from_slice(&memory_record(3, 0x1000, 0x2, 0x4000, 0x1, 0x8000_0001));
    data.extend_from_slice(&x2apic_record(5, 0xdead_beef, 1, 2));
    let table = Srat::new(data);
    let entries = table.decode_all().unwrap();
    let expected = vec![
        SratEntry::ProcessorLocalApicAffinity(ProcessorLocalApicAffinityEntry {
            header: EntryHeader { entry_type: 0x00, length: 16 },
            proximity_domain_low: 0xaa,
            processor_apic_id: 7,
            flags: 0x0102_0304,
            sapic_eid: 9,
            proximity_domain_higher: [0xbb, 0xcc, 0xdd],
            clock_domain: 0x1122_3344,
        }),
        SratEntry::MemoryAffinity(MemoryAffinityEntry {
            header: EntryHeader { entry_type: 0x01, length: 40 },
            domain: 3,
            base_low: 0x1000,
            base_high: 0x2,
            length_low: 0x4000,
            length_high: 0x1,
            flags: 0x8000_0001,
        }),
        SratEntry::ProcessorLocalX2ApicAffinity(ProcessorLocalX2ApicAffinityEntry {
            header: EntryHeader { entry_type: 0x02, length: 24 },
            domain: 5,
            x2_apic_id: 0xdead_beef,
            flags: 1,
            clock_domain: 2,
        }),
    ];
    assert_eq!(entries, expected);
}

#[test]
fn interleaved_reserved_types_skipped() {
    // Record types 0x1, 0x5, 0x0, 0x90: only the recognized 0x1 and 0x0
    // appear, in the original order.
    let mut data = Vec::new();
    data.extend_from_slice(&memory_record(1, 2, 3, 4, 5, 6));
    data.extend_from_slice(&[0x05u8, 4, 0xff, 0xff]);
    data.extend_from_slice(&apic_record(1, 2, 3, 4, [5, 6, 7], 8));
    data.extend_from_slice(&[0x90u8, 3, 0x42]);
    let table = Srat::new(data);
    let entries = table.decode_all().unwrap();
    assert_eq!(entries.len(), 2);
    assert!(matches!(entries[0], SratEntry::MemoryAffinity(m) if m.domain == 1));
    assert!(
        matches!(entries[1], SratEntry::ProcessorLocalApicAffinity(a) if a.processor_apic_id == 2)
    );
}

#[test]
fn exhausted_iterator_yields_nothing() {
    let mut data = Vec::new();
    data.extend_from_slice(&x2apic_record(1, 2, 3, 4));
    data.extend_from_slice(&[0x7fu8, 2]);
    let table = Srat::new(data);
    let mut it = table.entries();
    assert!(matches!(it.next(), Ok(Some(SratEntry::ProcessorLocalX2ApicAffinity(_)))));
    assert!(matches!(it.next(), Ok(None)));
    assert!(matches!(it.next(), Ok(None)));
    assert!(matches!(it.next(), Ok(None)));
}

#[test]
fn proximity_domain_assembly() {
    // Low byte 0x11 and higher bytes [0x22, 0x33, 0x44] assemble with the
    // low byte least significant and the higher bytes in ascending
    // significance: 0x44332211.
    let data = apic_record(0x11, 0, 0, 0, [0x22, 0x33, 0x44], 0);
    let table = Srat::new(data);
    let entries = table.decode_all().unwrap();
    match entries[0] {
        SratEntry::ProcessorLocalApicAffinity(a) => {
            assert_eq!(a.proximity_domain(), 0x4433_2211);
        }
        _ => panic!("expected a processor local APIC affinity entry"),
    }
}

#[test]
fn base_and_length_assembly() {
    // Low half 0x00000010 and high half 0x00000001 reconstruct
    // 0x0000000100000010: the high half fills the upper 32 bits.
    let data = memory_record(0, 0x0000_0010, 0x0000_0001, 0x0000_0010, 0x0000_0001, 0);
    let table = Srat::new(data);
    let entries = table.decode_all().unwrap();
    match entries[0] {
        SratEntry::MemoryAffinity(m) => {
            assert_eq!(m.base(), 0x0000_0001_0000_0010);
            assert_eq!(m.length(), 0x0000_0001_0000_0010);
        }
        _ => panic!("expected a memory affinity entry"),
    }
}

#[test]
fn zero_length_record_rejected() {
    let data = vec![0x00u8, 0, 0, 0];
    let table = Srat::new(data);
    let mut it = table.entries();
    assert_eq!(it.next(), Err(SratError::MalformedEntry));
    assert_eq!(table.decode_all(), Err(SratError::MalformedEntry));
}

#[test]
fn header_only_length_rejected() {
    // A declared length of 1 cannot even cover the two-byte record header.
    let data = vec![0x05u8, 1, 0, 0];
    let table = Srat::new(data);
    assert_eq!(table.decode_all(), Err(SratError::MalformedEntry));
}

#[test]
fn overlong_record_rejected() {
    // The record declares 0x30 bytes but only 4 remain.
    let data = vec![0x01u8, 0x30, 0, 0];
    let table = Srat::new(data);
    let mut it = table.entries();
    assert_eq!(it.next(), Err(SratError::TruncatedTable));
    assert_eq!(table.decode_all(), Err(SratError::TruncatedTable));
}

#[test]
fn undersized_recognized_record_rejected() {
    // A processor local APIC affinity record must span 16 bytes; a declared
    // length of 4 cannot hold its fields.
    let data = vec![0x00u8, 4, 0xaa, 0xbb];
    let table = Srat::new(data);
    assert_eq!(table.decode_all(), Err(SratError::MalformedEntry));
}

#[test]
fn truncated_mid_header_rejected() {
    // One stray byte cannot hold a record header.
    let data = vec![0x00u8];
    let table = Srat::new(data);
    assert_eq!(table.decode_all(), Err(SratError::TruncatedTable));
}

#[test]
fn empty_table_decodes_to_nothing() {
    let table = Srat::new(Vec::new());
    assert_eq!(table.decode_all(), Ok(Vec::new()));
    let mut it = table.entries();
    assert!(matches!(it.next(), Ok(None)));
}

#[test]
fn reserved_only_table_decodes_to_nothing() {
    let data = vec![0x10u8, 3, 1, 0x80, 2, 0xff, 4, 0xab, 0xcd];
    let table = Srat::new(data);
    assert_eq!(table.decode_all(), Ok(Vec::new()));
}

#[test]
fn oversized_recognized_record_accepted() {
    // A recognized record may declare more than its defined size; the
    // trailing bytes are skipped.
    let mut data = x2apic_record(9, 8, 7, 6);
    data[1] = 30;
    data.extend_from_slice(&[0u8; 6]);
    data.extend_from_slice(&memory_record(1, 2, 3, 4, 5, 6));
    let table = Srat::new(data);
    let entries = table.decode_all().unwrap();
    assert_eq!(entries.len(), 2);
    assert!(matches!(entries[0], SratEntry::ProcessorLocalX2ApicAffinity(x) if x.domain == 9));
    assert!(matches!(entries[1], SratEntry::MemoryAffinity(_)));
}

#[test]
fn error_reported_after_leading_entries() {
    let mut data = Vec::new();
    data.extend_from_slice(&apic_record(1, 2, 3, 4, [5, 6, 7], 8));
    data.extend_from_slice(&[0x33u8, 0]);
    let table = Srat::new(data);
    let mut it = table.entries();
    assert!(matches!(it.next(), Ok(Some(SratEntry::ProcessorLocalApicAffinity(_)))));
    assert_eq!(it.next(), Err(SratError::MalformedEntry));
    assert_eq!(table.decode_all(), Err(SratError::MalformedEntry));
}

#[test]
fn header_fields_reported_as_read() {
    let mut data = x2apic_record(0, 0, 0, 0);
    data[1] = 26;
    data.extend_from_slice(&[0xee, 0xff]);
    let table = Srat::new(data);
    let entries = table.decode_all().unwrap();
    match entries[0] {
        SratEntry::ProcessorLocalX2ApicAffinity(x) => {
            assert_eq!(x.header.entry_type, 0x02);
            assert_eq!(x.header.length, 26);
        }
        _ => panic!("expected a processor local x2APIC affinity entry"),
    }
}
