//! The SRAT table and the cursor that walks its record stream.

use vstd::prelude::*;

use crate::entry::MEMORY_AFFINITY_SIZE;
use crate::entry::MEMORY_AFFINITY_TYPE;
use crate::entry::PROCESSOR_APIC_AFFINITY_SIZE;
use crate::entry::PROCESSOR_APIC_AFFINITY_TYPE;
use crate::entry::PROCESSOR_X2APIC_AFFINITY_SIZE;
use crate::entry::PROCESSOR_X2APIC_AFFINITY_TYPE;
use crate::entry::RECORD_HEADER_SIZE;
use crate::entry::SratEntry;
use crate::entry::decode_apic_at;
use crate::entry::decode_memory_at;
use crate::entry::decode_x2apic_at;
use crate::entry::spec_apic_at;
use crate::entry::spec_memory_at;
use crate::entry::spec_x2apic_at;

verus! {

/// A decode error, tied to a record whose declared length makes correct
/// forward progress impossible.
#[derive(Clone, Copy, Debug, PartialEq, Eq)]
pub enum SratError {
    /// A record declares a length of zero, one that does not cover its own
    /// header, or one smaller than its recognized type's defined size.
    MalformedEntry,
    /// A record declares a length that exceeds the bytes remaining of the
    /// table, or the table ends in the middle of a record header.
    TruncatedTable,
}

/// True of the three record type tags this decoder recognizes. All other
/// tags are reserved by the standard or set aside for OEM use and are
/// skipped, so that streams from a later revision of the standard still
/// decode.
pub open spec fn recognized_type(ty: u8) -> bool {
    ||| ty == PROCESSOR_APIC_AFFINITY_TYPE
    ||| ty == MEMORY_AFFINITY_TYPE
    ||| ty == PROCESSOR_X2APIC_AFFINITY_TYPE
}

/// The defined size in bytes of a recognized record type.
pub open spec fn recognized_size(ty: u8) -> int
    recommends
        recognized_type(ty),
{
    if ty == PROCESSOR_APIC_AFFINITY_TYPE {
        PROCESSOR_APIC_AFFINITY_SIZE as int
    } else if ty == MEMORY_AFFINITY_TYPE {
        MEMORY_AFFINITY_SIZE as int
    } else {
        PROCESSOR_X2APIC_AFFINITY_SIZE as int
    }
}

/// The decoded entry of the recognized record starting at `pos`.
pub open spec fn spec_entry_at(data: Seq<u8>, pos: int) -> SratEntry
    recommends
        recognized_type(data[pos]),
{
    if data[pos] == PROCESSOR_APIC_AFFINITY_TYPE {
        SratEntry::ProcessorLocalApicAffinity(spec_apic_at(data, pos))
    } else if data[pos] == MEMORY_AFFINITY_TYPE {
        SratEntry::MemoryAffinity(spec_memory_at(data, pos))
    } else {
        SratEntry::ProcessorLocalX2ApicAffinity(spec_x2apic_at(data, pos))
    }
}

/// What decoding the record stream from byte position `pos` with
/// `remaining` bytes of budget produces: the recognized entries decoded
/// before any error, in stream order, and the error that cuts the stream
/// short, if one does. A record of unrecognized type contributes no entry;
/// a record whose declared length is under the header size, or under its
/// recognized type's defined size, is malformed; one whose length exceeds
/// the budget truncates the table, as does a budget too small for a header.
pub open spec fn decode_from(data: Seq<u8>, pos: int, remaining: int) -> (Seq<SratEntry>, Option<
    SratError,
>)
    decreases remaining,
{
    if remaining <= 0 {
        (Seq::<SratEntry>::empty(), Option::<SratError>::None)
    } else if remaining < RECORD_HEADER_SIZE as int {
        (Seq::<SratEntry>::empty(), Option::Some(SratError::TruncatedTable))
    } else {
        let ty = data[pos];
        let len = data[pos + 1] as int;
        if len < RECORD_HEADER_SIZE as int {
            (Seq::<SratEntry>::empty(), Option::Some(SratError::MalformedEntry))
        } else if len > remaining {
            (Seq::<SratEntry>::empty(), Option::Some(SratError::TruncatedTable))
        } else if recognized_type(ty) && len < recognized_size(ty) {
            (Seq::<SratEntry>::empty(), Option::Some(SratError::MalformedEntry))
        } else {
            let rest = decode_from(data, pos + len, remaining - len);
            if recognized_type(ty) {
                (seq![spec_entry_at(data, pos)] + rest.0, rest.1)
            } else {
                rest
            }
        }
    }
}

/// A record that declares a length of zero, or any length too small to
/// cover its own header, is rejected as malformed: decoding stops with an
/// error instead of failing to advance past the record.
pub proof fn lemma_zero_length_rejected(data: Seq<u8>, pos: int, remaining: int)
    requires
        RECORD_HEADER_SIZE <= remaining,
        data[pos + 1] < RECORD_HEADER_SIZE,
    ensures
        decode_from(data, pos, remaining) == (Seq::<SratEntry>::empty(), Option::Some(
            SratError::MalformedEntry,
        )),
{
}

/// A record that declares a length exceeding the remaining byte budget is
/// rejected: decoding stops with an error instead of reading past the
/// table's declared end.
pub proof fn lemma_overlong_record_rejected(data: Seq<u8>, pos: int, remaining: int)
    requires
        RECORD_HEADER_SIZE <= remaining,
        RECORD_HEADER_SIZE <= data[pos + 1],
        remaining < data[pos + 1],
    ensures
        decode_from(data, pos, remaining) == (Seq::<SratEntry>::empty(), Option::Some(
            SratError::TruncatedTable,
        )),
{
}

/// Once the byte budget is exhausted, decoding yields nothing further and
/// no error.
pub proof fn lemma_exhausted_yields_nothing(data: Seq<u8>, pos: int)
    ensures
        decode_from(data, pos, 0) == (Seq::<SratEntry>::empty(), Option::<SratError>::None),
{
}

/// The SRAT table: the stream of affinity records that follows the table
/// header. Validating the outer header and stripping it from the firmware
/// buffer is the platform layer's job; this type receives the trailing
/// record bytes, whose count is bounded by the header's 32-bit length field.
#[derive(Debug)]
pub struct Srat {
    pub data: Vec<u8>,
}

impl Srat {
    /// The record stream never exceeds what a 32-bit table length can
    /// declare.
    pub open spec fn wf(self) -> bool {
        self.data@.len() <= u32::MAX
    }

    /// What decoding the whole record stream produces.
    pub open spec fn decoded(self) -> (Seq<SratEntry>, Option<SratError>) {
        decode_from(self.data@, 0, self.data@.len() as int)
    }

    /// Wrap the record bytes that follow the table header.
    pub fn new(data: Vec<u8>) -> (s: Srat)
        requires
            data@.len() <= u32::MAX,
        ensures
            s.data == data,
            s.wf(),
    {
        Srat { data }
    }

    /// A cursor over the table's records, positioned at the first one.
    pub fn entries<'a>(&'a self) -> (it: SratEntryIter<'a>)
        requires
            self.wf(),
        ensures
            it.wf(),
            it.data == &self.data,
            it.cursor == 0,
            it.remaining == self.data@.len(),
            it.decoded() == self.decoded(),
    {
        let n: usize = self.data.len();
        SratEntryIter { data: &self.data, cursor: 0, remaining: n as u32 }
    }

    /// Decode the whole table at once: every recognized entry in stream
    /// order, or the error at the point of corruption.
    #[verifier::loop_isolation(false)]
    pub fn decode_all(&self) -> (r: Result<Vec<SratEntry>, SratError>)
        requires
            self.wf(),
        ensures
            match r {
                Ok(v) => {
                    &&& v@ == self.decoded().0
                    &&& self.decoded().1 is None
                },
                Err(e) => self.decoded().1 == Option::Some(e),
            },
    {
        let mut it = self.entries();
        let mut out: Vec<SratEntry> = Vec::new();
        loop
            invariant
                it.wf(),
                it.data == &self.data,
                self.decoded().0 == out@ + it.decoded().0,
                self.decoded().1 == it.decoded().1,
            decreases it.decoded().0.len(),
        {
            proof {
                assert(out@ + Seq::<SratEntry>::empty() =~= out@);
            }
            let ghost prev_out = out@;
            let ghost (entries, status) = it.decoded();
            match it.next() {
                Ok(Some(e)) => {
                    out.push(e);
                    proof {
                        assert(prev_out + entries =~= out@ + entries.drop_first());
                    }
                },
                Ok(None) => {
                    return Ok(out);
                },
                Err(e) => {
                    return Err(e);
                },
            }
        }
    }
}

/// A cursor over the record stream: a byte position and the count of bytes
/// that remain to be consumed.
#[derive(Debug)]
pub struct SratEntryIter<'a> {
    pub data: &'a Vec<u8>,
    pub cursor: usize,
    pub remaining: u32,
}

impl<'a> SratEntryIter<'a> {
    /// The bytes still to be consumed are exactly those from the cursor to
    /// the end of the stream.
    pub open spec fn wf(self) -> bool {
        self.cursor + self.remaining == self.data@.len()
    }

    /// What decoding the records still ahead of the cursor produces.
    pub open spec fn decoded(self) -> (Seq<SratEntry>, Option<SratError>) {
        decode_from(self.data@, self.cursor as int, self.remaining as int)
    }

    /// Decode the next recognized entry, consuming every record up to and
    /// including the one that yields it. `Ok(None)` means the stream is
    /// exhausted: the budget reached zero, with only skipped records left.
    /// An error is terminal: the record at the point of corruption is
    /// reported and the stream has no decodable continuation.
    #[verifier::loop_isolation(false)]
    pub fn next(&mut self) -> (r: Result<Option<SratEntry>, SratError>)
        requires
            old(self).wf(),
        ensures
            final(self).wf(),
            final(self).data == old(self).data,
            ({
                let (entries, status) = old(self).decoded();
                if entries.len() > 0 {
                    &&& r == Result::<Option<SratEntry>, SratError>::Ok(Some(entries[0]))
                    &&& final(self).decoded().0 == entries.drop_first()
                    &&& final(self).decoded().1 == status
                } else {
                    match status {
                        Option::Some(e) => r == Result::<Option<SratEntry>, SratError>::Err(e),
                        Option::None => {
                            &&& r == Result::<Option<SratEntry>, SratError>::Ok(None)
                            &&& final(self).remaining == 0
                        },
                    }
                }
            }),
            old(self).remaining == 0 ==> *final(self) == *old(self),
    {
        loop
            invariant
                self.wf(),
                self.data == old(self).data,
                self.decoded() == old(self).decoded(),
                old(self).remaining == 0 ==> *self == *old(self),
            decreases self.remaining,
        {
            if self.remaining < RECORD_HEADER_SIZE as u32 {
                if self.remaining == 0 {
                    return Ok(None);
                }
                return Err(SratError::TruncatedTable);
            }
            let n: usize = self.data.len();
            let pos = self.cursor;
            assert(pos + 1 < n);
            let ty = self.data[pos];
            let len_byte = self.data[pos + 1];
            if len_byte < RECORD_HEADER_SIZE {
                return Err(SratError::MalformedEntry);
            }
            let len = len_byte as u32;
            if len > self.remaining {
                return Err(SratError::TruncatedTable);
            }
            if ty == PROCESSOR_APIC_AFFINITY_TYPE && len_byte < PROCESSOR_APIC_AFFINITY_SIZE {
                return Err(SratError::MalformedEntry);
            }
            if ty == MEMORY_AFFINITY_TYPE && len_byte < MEMORY_AFFINITY_SIZE {
                return Err(SratError::MalformedEntry);
            }
            if ty == PROCESSOR_X2APIC_AFFINITY_TYPE && len_byte < PROCESSOR_X2APIC_AFFINITY_SIZE {
                return Err(SratError::MalformedEntry);
            }
            self.cursor = pos + len_byte as usize;
            self.remaining = self.remaining - len;
            proof {
                let tail = decode_from(self.data@, self.cursor as int, self.remaining as int);
                if recognized_type(ty) {
                    assert((seq![spec_entry_at(self.data@, pos as int)] + tail.0).drop_first()
                        =~= tail.0);
                }
            }
            if ty == PROCESSOR_APIC_AFFINITY_TYPE {
                let e = decode_apic_at(self.data, pos);
                return Ok(Some(SratEntry::ProcessorLocalApicAffinity(e)));
            }
            if ty == MEMORY_AFFINITY_TYPE {
                let e = decode_memory_at(self.data, pos);
                return Ok(Some(SratEntry::MemoryAffinity(e)));
            }
            if ty == PROCESSOR_X2APIC_AFFINITY_TYPE {
                let e = decode_x2apic_at(self.data, pos);
                return Ok(Some(SratEntry::ProcessorLocalX2ApicAffinity(e)));
            }
            // A reserved or OEM-defined record type: skip it and go on with
            // the next record.
        }
    }
}

} // verus!
