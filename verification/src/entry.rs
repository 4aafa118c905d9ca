//! The record shapes of the SRAT entry stream.
//!
//! Every record starts with a two-byte [`EntryHeader`]; three record types
//! are recognized and decoded into the payload structs below. Multi-byte
//! fields that the table stores split or packed (the processor affinity
//! record's proximity domain, the memory record's 64-bit base and length)
//! are reassembled on access, not stored.

use vstd::prelude::*;

use crate::le::join64;
use crate::le::le32;
use crate::le::le64;
use crate::le::read_le32;

verus! {

/// Record type tag of [`ProcessorLocalApicAffinityEntry`].
pub const PROCESSOR_APIC_AFFINITY_TYPE: u8 = 0x0;

/// Record type tag of [`MemoryAffinityEntry`].
pub const MEMORY_AFFINITY_TYPE: u8 = 0x1;

/// Record type tag of [`ProcessorLocalX2ApicAffinityEntry`].
pub const PROCESSOR_X2APIC_AFFINITY_TYPE: u8 = 0x2;

/// Size in bytes of the record header shared by all record types.
pub const RECORD_HEADER_SIZE: u8 = 2;

/// Defined size in bytes of a processor local APIC affinity record.
pub const PROCESSOR_APIC_AFFINITY_SIZE: u8 = 16;

/// Defined size in bytes of a memory affinity record.
pub const MEMORY_AFFINITY_SIZE: u8 = 40;

/// Defined size in bytes of a processor local x2APIC affinity record.
pub const PROCESSOR_X2APIC_AFFINITY_SIZE: u8 = 24;

/// The two-byte header at the start of every record: a type tag and the
/// record's full length in bytes, the header itself included.
#[derive(Clone, Copy, Debug, PartialEq, Eq)]
pub struct EntryHeader {
    pub entry_type: u8,
    pub length: u8,
}

/// The record header read at byte position `pos` of the record stream.
pub open spec fn spec_header_at(data: Seq<u8>, pos: int) -> EntryHeader {
    EntryHeader { entry_type: data[pos], length: data[pos + 1] }
}

/// A processor-to-domain affinity record (local APIC form). Its 32-bit
/// proximity domain is stored split: one low byte and three higher bytes.
#[derive(Clone, Copy, Debug, PartialEq, Eq)]
pub struct ProcessorLocalApicAffinityEntry {
    pub header: EntryHeader,
    pub proximity_domain_low: u8,
    pub processor_apic_id: u8,
    pub flags: u32,
    pub sapic_eid: u8,
    pub proximity_domain_higher: [u8; 3],
    pub clock_domain: u32,
}

impl ProcessorLocalApicAffinityEntry {
    /// The 32-bit proximity domain: the low byte is least significant, and
    /// the three higher bytes fill the remaining lanes in ascending
    /// significance.
    pub open spec fn spec_proximity_domain(self) -> u32 {
        le32(
            self.proximity_domain_low,
            self.proximity_domain_higher[0],
            self.proximity_domain_higher[1],
            self.proximity_domain_higher[2],
        )
    }

    pub fn proximity_domain(&self) -> (r: u32)
        ensures
            r == self.spec_proximity_domain(),
    {
        read_le32(
            self.proximity_domain_low,
            self.proximity_domain_higher[0],
            self.proximity_domain_higher[1],
            self.proximity_domain_higher[2],
        )
    }
}

/// The processor local APIC affinity record whose bytes start at `pos`.
/// Byte layout: header; proximity domain low byte; APIC id; flags;
/// SAPIC EID; the three higher proximity domain bytes; clock domain.
pub open spec fn spec_apic_at(data: Seq<u8>, pos: int) -> ProcessorLocalApicAffinityEntry {
    ProcessorLocalApicAffinityEntry {
        header: spec_header_at(data, pos),
        proximity_domain_low: data[pos + 2],
        processor_apic_id: data[pos + 3],
        flags: le32(data[pos + 4], data[pos + 5], data[pos + 6], data[pos + 7]),
        sapic_eid: data[pos + 8],
        proximity_domain_higher: [data[pos + 9], data[pos + 10], data[pos + 11]],
        clock_domain: le32(data[pos + 12], data[pos + 13], data[pos + 14], data[pos + 15]),
    }
}

/// Decode a processor local APIC affinity record at `pos`.
pub fn decode_apic_at(data: &Vec<u8>, pos: usize) -> (e: ProcessorLocalApicAffinityEntry)
    requires
        pos + PROCESSOR_APIC_AFFINITY_SIZE <= data@.len(),
    ensures
        e == spec_apic_at(data@, pos as int),
{
    let n: usize = data.len();
    assert(pos + 15 < n);
    ProcessorLocalApicAffinityEntry {
        header: EntryHeader { entry_type: data[pos], length: data[pos + 1] },
        proximity_domain_low: data[pos + 2],
        processor_apic_id: data[pos + 3],
        flags: read_le32(data[pos + 4], data[pos + 5], data[pos + 6], data[pos + 7]),
        sapic_eid: data[pos + 8],
        proximity_domain_higher: [data[pos + 9], data[pos + 10], data[pos + 11]],
        clock_domain: read_le32(data[pos + 12], data[pos + 13], data[pos + 14], data[pos + 15]),
    }
}

/// A memory-range-to-domain affinity record. Its 64-bit base address and
/// range length are each stored as two 32-bit halves.
#[derive(Clone, Copy, Debug, PartialEq, Eq)]
pub struct MemoryAffinityEntry {
    pub header: EntryHeader,
    pub domain: u32,
    pub base_low: u32,
    pub base_high: u32,
    pub length_low: u32,
    pub length_high: u32,
    pub flags: u32,
}

impl MemoryAffinityEntry {
    /// The 64-bit base address: the high half occupies the upper 32 bits.
    pub open spec fn spec_base(self) -> u64 {
        le64(self.base_low, self.base_high)
    }

    /// The 64-bit range length: the high half occupies the upper 32 bits.
    pub open spec fn spec_length(self) -> u64 {
        le64(self.length_low, self.length_high)
    }

    pub fn base(&self) -> (r: u64)
        ensures
            r == self.spec_base(),
    {
        join64(self.base_low, self.base_high)
    }

    pub fn length(&self) -> (r: u64)
        ensures
            r == self.spec_length(),
    {
        join64(self.length_low, self.length_high)
    }
}

/// The memory affinity record whose bytes start at `pos`. Byte layout:
/// header; proximity domain; two reserved bytes; base low and high halves;
/// length low and high halves; four reserved bytes; flags; eight reserved
/// bytes. Reserved bytes are skipped, not stored.
pub open spec fn spec_memory_at(data: Seq<u8>, pos: int) -> MemoryAffinityEntry {
    MemoryAffinityEntry {
        header: spec_header_at(data, pos),
        domain: le32(data[pos + 2], data[pos + 3], data[pos + 4], data[pos + 5]),
        base_low: le32(data[pos + 8], data[pos + 9], data[pos + 10], data[pos + 11]),
        base_high: le32(data[pos + 12], data[pos + 13], data[pos + 14], data[pos + 15]),
        length_low: le32(data[pos + 16], data[pos + 17], data[pos + 18], data[pos + 19]),
        length_high: le32(data[pos + 20], data[pos + 21], data[pos + 22], data[pos + 23]),
        flags: le32(data[pos + 28], data[pos + 29], data[pos + 30], data[pos + 31]),
    }
}

/// Decode a memory affinity record at `pos`.
pub fn decode_memory_at(data: &Vec<u8>, pos: usize) -> (e: MemoryAffinityEntry)
    requires
        pos + MEMORY_AFFINITY_SIZE <= data@.len(),
    ensures
        e == spec_memory_at(data@, pos as int),
{
    let n: usize = data.len();
    assert(pos + 31 < n);
    MemoryAffinityEntry {
        header: EntryHeader { entry_type: data[pos], length: data[pos + 1] },
        domain: read_le32(data[pos + 2], data[pos + 3], data[pos + 4], data[pos + 5]),
        base_low: read_le32(data[pos + 8], data[pos + 9], data[pos + 10], data[pos + 11]),
        base_high: read_le32(data[pos + 12], data[pos + 13], data[pos + 14], data[pos + 15]),
        length_low: read_le32(data[pos + 16], data[pos + 17], data[pos + 18], data[pos + 19]),
        length_high: read_le32(data[pos + 20], data[pos + 21], data[pos + 22], data[pos + 23]),
        flags: read_le32(data[pos + 28], data[pos + 29], data[pos + 30], data[pos + 31]),
    }
}

/// A processor-to-domain affinity record (x2APIC form); all its fields are
/// stored whole.
#[derive(Clone, Copy, Debug, PartialEq, Eq)]
pub struct ProcessorLocalX2ApicAffinityEntry {
    pub header: EntryHeader,
    pub domain: u32,
    pub x2_apic_id: u32,
    pub flags: u32,
    pub clock_domain: u32,
}

/// The processor local x2APIC affinity record whose bytes start at `pos`.
/// Byte layout: header; two reserved bytes; proximity domain; x2APIC id;
/// flags; clock domain; four reserved bytes.
pub open spec fn spec_x2apic_at(data: Seq<u8>, pos: int) -> ProcessorLocalX2ApicAffinityEntry {
    ProcessorLocalX2ApicAffinityEntry {
        header: spec_header_at(data, pos),
        domain: le32(data[pos + 4], data[pos + 5], data[pos + 6], data[pos + 7]),
        x2_apic_id: le32(data[pos + 8], data[pos + 9], data[pos + 10], data[pos + 11]),
        flags: le32(data[pos + 12], data[pos + 13], data[pos + 14], data[pos + 15]),
        clock_domain: le32(data[pos + 16], data[pos + 17], data[pos + 18], data[pos + 19]),
    }
}

/// Decode a processor local x2APIC affinity record at `pos`.
pub fn decode_x2apic_at(data: &Vec<u8>, pos: usize) -> (e: ProcessorLocalX2ApicAffinityEntry)
    requires
        pos + PROCESSOR_X2APIC_AFFINITY_SIZE <= data@.len(),
    ensures
        e == spec_x2apic_at(data@, pos as int),
{
    let n: usize = data.len();
    assert(pos + 19 < n);
    ProcessorLocalX2ApicAffinityEntry {
        header: EntryHeader { entry_type: data[pos], length: data[pos + 1] },
        domain: read_le32(data[pos + 4], data[pos + 5], data[pos + 6], data[pos + 7]),
        x2_apic_id: read_le32(data[pos + 8], data[pos + 9], data[pos + 10], data[pos + 11]),
        flags: read_le32(data[pos + 12], data[pos + 13], data[pos + 14], data[pos + 15]),
        clock_domain: read_le32(data[pos + 16], data[pos + 17], data[pos + 18], data[pos + 19]),
    }
}

/// One decoded record of a recognized type.
#[derive(Clone, Copy, Debug, PartialEq, Eq)]
pub enum SratEntry {
    ProcessorLocalApicAffinity(ProcessorLocalApicAffinityEntry),
    ProcessorLocalX2ApicAffinity(ProcessorLocalX2ApicAffinityEntry),
    MemoryAffinity(MemoryAffinityEntry),
}

} // verus!
