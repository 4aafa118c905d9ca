//! Decoder for the System Resource Affinity Table (SRAT), the firmware table
//! that describes which processors and memory ranges belong to which NUMA
//! proximity domain.
//!
//! The table consists of a stream of variable-length, type-tagged records.
//! [`Srat`] holds the record stream; [`Srat::entries`] yields a cursor that
//! decodes the recognized record shapes one by one, skips reserved and
//! OEM-defined record types, and reports a decode error on records whose
//! declared length would make forward progress impossible.

pub mod entry;
pub mod le;
pub mod records;
pub mod table;

pub use entry::EntryHeader;
pub use entry::MemoryAffinityEntry;
pub use entry::ProcessorLocalApicAffinityEntry;
pub use entry::ProcessorLocalX2ApicAffinityEntry;
pub use entry::SratEntry;
pub use table::Srat;
pub use table::SratEntryIter;
pub use table::SratError;
