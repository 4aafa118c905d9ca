//! Whole-record views of the byte stream, and what decoding guarantees
//! over them.
//!
//! A table built by concatenating well-formed records — each declaring its
//! own length, reserved types included — decodes without error to exactly
//! the recognized records' entries, in stream order. Encoding a sequence
//! of entries and decoding the result gives the entries back. The proofs
//! here state both facts over the spec-level decoder, which
//! [`crate::table::SratEntryIter::next`] is verified against.

use vstd::prelude::*;

use crate::entry::MEMORY_AFFINITY_SIZE;
use crate::entry::MEMORY_AFFINITY_TYPE;
use crate::entry::PROCESSOR_APIC_AFFINITY_SIZE;
use crate::entry::PROCESSOR_APIC_AFFINITY_TYPE;
use crate::entry::PROCESSOR_X2APIC_AFFINITY_SIZE;
use crate::entry::PROCESSOR_X2APIC_AFFINITY_TYPE;
use crate::entry::RECORD_HEADER_SIZE;
use crate::entry::MemoryAffinityEntry;
use crate::entry::ProcessorLocalApicAffinityEntry;
use crate::entry::ProcessorLocalX2ApicAffinityEntry;
use crate::entry::SratEntry;
use crate::entry::spec_apic_at;
use crate::entry::spec_memory_at;
use crate::entry::spec_x2apic_at;
use crate::le::lemma_le32_of_bytes;
use crate::table::SratError;
use crate::table::decode_from;
use crate::table::recognized_size;
use crate::table::recognized_type;
use crate::table::spec_entry_at;

verus! {

broadcast use vstd::array::group_array_axioms;

/// A well-formed raw record: long enough for its header, no longer than
/// its one-byte length field can declare, declaring its own exact length,
/// and no shorter than its defined size if its type is recognized.
pub open spec fn wf_record(r: Seq<u8>) -> bool {
    &&& RECORD_HEADER_SIZE <= r.len() <= u8::MAX
    &&& r[1] == r.len()
    &&& recognized_type(r[0]) ==> recognized_size(r[0]) <= r.len()
}

/// The byte stream formed by laying the given records end to end.
pub open spec fn concat_all(rs: Seq<Seq<u8>>) -> Seq<u8>
    decreases rs.len(),
{
    if rs.len() == 0 {
        Seq::<u8>::empty()
    } else {
        rs[0] + concat_all(rs.drop_first())
    }
}

/// The entries of the recognized records among `rs`, in order.
pub open spec fn entries_of(rs: Seq<Seq<u8>>) -> Seq<SratEntry>
    decreases rs.len(),
{
    if rs.len() == 0 {
        Seq::<SratEntry>::empty()
    } else {
        let rest = entries_of(rs.drop_first());
        if recognized_type(rs[0][0]) {
            seq![spec_entry_at(rs[0], 0)] + rest
        } else {
            rest
        }
    }
}

proof fn lemma_apic_at_agrees(data: Seq<u8>, pos: int, r: Seq<u8>)
    requires
        PROCESSOR_APIC_AFFINITY_SIZE <= r.len(),
        forall|i: int| 0 <= i < r.len() ==> #[trigger] data[pos + i] == r[i],
    ensures
        spec_apic_at(data, pos) == spec_apic_at(r, 0),
{
    assert(data[pos + 0] == r[0]);
    assert(data[pos] == r[0]);
    assert([data[pos + 9], data[pos + 10], data[pos + 11]] =~= [r[9], r[10], r[11]]);
}

proof fn lemma_memory_at_agrees(data: Seq<u8>, pos: int, r: Seq<u8>)
    requires
        MEMORY_AFFINITY_SIZE <= r.len(),
        forall|i: int| 0 <= i < r.len() ==> #[trigger] data[pos + i] == r[i],
    ensures
        spec_memory_at(data, pos) == spec_memory_at(r, 0),
{
    assert(data[pos + 0] == r[0]);
    assert(data[pos] == r[0]);
}

proof fn lemma_x2apic_at_agrees(data: Seq<u8>, pos: int, r: Seq<u8>)
    requires
        PROCESSOR_X2APIC_AFFINITY_SIZE <= r.len(),
        forall|i: int| 0 <= i < r.len() ==> #[trigger] data[pos + i] == r[i],
    ensures
        spec_x2apic_at(data, pos) == spec_x2apic_at(r, 0),
{
    assert(data[pos + 0] == r[0]);
    assert(data[pos] == r[0]);
}

/// Decoding a stream of well-formed records, recognized or not, consumes
/// the whole budget without error and produces exactly the recognized
/// records' entries, in stream order.
pub proof fn lemma_decode_records(data: Seq<u8>, pos: int, rs: Seq<Seq<u8>>)
    requires
        forall|k: int| 0 <= k < rs.len() ==> wf_record(#[trigger] rs[k]),
        0 <= pos,
        pos + concat_all(rs).len() <= data.len(),
        data.subrange(pos, pos + concat_all(rs).len() as int) == concat_all(rs),
    ensures
        decode_from(data, pos, concat_all(rs).len() as int) == (entries_of(rs), Option::<
            SratError,
        >::None),
    decreases rs.len(),
{
    let total = concat_all(rs).len() as int;
    if rs.len() == 0 {
        assert(decode_from(data, pos, 0) == (Seq::<SratEntry>::empty(), Option::<
            SratError,
        >::None));
    } else {
        let r0 = rs[0];
        let rest = rs.drop_first();
        let crest = concat_all(rest);
        assert(wf_record(r0));
        assert(concat_all(rs) == r0 + crest);
        let len = r0.len() as int;
        assert forall|i: int| 0 <= i < total implies #[trigger] data[pos + i] == concat_all(
            rs,
        )[i] by {
            assert(data.subrange(pos, pos + total)[i] == data[pos + i]);
        };
        assert(data[pos + 0] == r0[0]);
        assert(data[pos + 1] == r0[1]);
        assert(data[pos] == r0[0]);
        let ty = r0[0];
        assert forall|k: int| 0 <= k < rest.len() implies wf_record(#[trigger] rest[k]) by {
            assert(rest[k] == rs[k + 1]);
        };
        assert forall|i: int| 0 <= i < crest.len() implies data.subrange(
            pos + len,
            pos + len + crest.len() as int,
        )[i] == crest[i] by {
            assert(data.subrange(pos + len, pos + len + crest.len() as int)[i] == data[(pos + len)
                + i]);
            assert(data[pos + (len + i)] == concat_all(rs)[len + i]);
            assert((r0 + crest)[len + i] == crest[i]);
        };
        assert(data.subrange(pos + len, pos + len + crest.len() as int) =~= crest);
        lemma_decode_records(data, pos + len, rest);
        if recognized_type(ty) {
            assert forall|i: int| 0 <= i < r0.len() implies #[trigger] data[pos + i] == r0[i] by {
                assert(concat_all(rs)[i] == (r0 + crest)[i]);
            };
            if ty == PROCESSOR_APIC_AFFINITY_TYPE {
                lemma_apic_at_agrees(data, pos, r0);
            } else if ty == MEMORY_AFFINITY_TYPE {
                lemma_memory_at_agrees(data, pos, r0);
            } else {
                lemma_x2apic_at_agrees(data, pos, r0);
            }
            assert(decode_from(data, pos, total).0 =~= entries_of(rs));
        } else {
            assert(decode_from(data, pos, total) == decode_from(data, pos + len, total - len));
        }
    }
}

/// The little-endian bytes of a 32-bit value, least significant first.
pub open spec fn le32_bytes(x: u32) -> Seq<u8> {
    seq![
        (x & 0xff) as u8,
        ((x >> 8) & 0xff) as u8,
        ((x >> 16) & 0xff) as u8,
        ((x >> 24) & 0xff) as u8,
    ]
}

/// A well-formed entry: its header carries its variant's type tag and
/// declares exactly the variant's defined size.
pub open spec fn wf_entry(e: SratEntry) -> bool {
    match e {
        SratEntry::ProcessorLocalApicAffinity(a) => {
            &&& a.header.entry_type == PROCESSOR_APIC_AFFINITY_TYPE
            &&& a.header.length == PROCESSOR_APIC_AFFINITY_SIZE
        },
        SratEntry::MemoryAffinity(m) => {
            &&& m.header.entry_type == MEMORY_AFFINITY_TYPE
            &&& m.header.length == MEMORY_AFFINITY_SIZE
        },
        SratEntry::ProcessorLocalX2ApicAffinity(x) => {
            &&& x.header.entry_type == PROCESSOR_X2APIC_AFFINITY_TYPE
            &&& x.header.length == PROCESSOR_X2APIC_AFFINITY_SIZE
        },
    }
}

/// The record bytes of a processor local APIC affinity entry.
pub open spec fn encode_apic(a: ProcessorLocalApicAffinityEntry) -> Seq<u8> {
    seq![a.header.entry_type, a.header.length, a.proximity_domain_low, a.processor_apic_id]
        + le32_bytes(a.flags)
        + seq![
        a.sapic_eid,
        a.proximity_domain_higher[0],
        a.proximity_domain_higher[1],
        a.proximity_domain_higher[2],
    ] + le32_bytes(a.clock_domain)
}

/// The record bytes of a memory affinity entry, reserved bytes zeroed.
pub open spec fn encode_memory(m: MemoryAffinityEntry) -> Seq<u8> {
    seq![m.header.entry_type, m.header.length] + le32_bytes(m.domain) + seq![0u8, 0u8]
        + le32_bytes(m.base_low) + le32_bytes(m.base_high) + le32_bytes(m.length_low)
        + le32_bytes(m.length_high) + seq![0u8, 0u8, 0u8, 0u8] + le32_bytes(m.flags) + seq![
        0u8,
        0u8,
        0u8,
        0u8,
        0u8,
        0u8,
        0u8,
        0u8,
    ]
}

/// The record bytes of a processor local x2APIC affinity entry, reserved
/// bytes zeroed.
pub open spec fn encode_x2apic(x: ProcessorLocalX2ApicAffinityEntry) -> Seq<u8> {
    seq![x.header.entry_type, x.header.length, 0u8, 0u8] + le32_bytes(x.domain) + le32_bytes(
        x.x2_apic_id,
    ) + le32_bytes(x.flags) + le32_bytes(x.clock_domain) + seq![0u8, 0u8, 0u8, 0u8]
}

/// The record bytes of an entry.
pub open spec fn encode_entry(e: SratEntry) -> Seq<u8> {
    match e {
        SratEntry::ProcessorLocalApicAffinity(a) => encode_apic(a),
        SratEntry::MemoryAffinity(m) => encode_memory(m),
        SratEntry::ProcessorLocalX2ApicAffinity(x) => encode_x2apic(x),
    }
}

/// The byte stream encoding the given entries, one record each.
pub open spec fn encode_entries(es: Seq<SratEntry>) -> Seq<Seq<u8>> {
    es.map_values(|e: SratEntry| encode_entry(e))
}

proof fn lemma_apic_round_trip(a: ProcessorLocalApicAffinityEntry)
    requires
        a.header.entry_type == PROCESSOR_APIC_AFFINITY_TYPE,
        a.header.length == PROCESSOR_APIC_AFFINITY_SIZE,
    ensures
        encode_apic(a).len() == PROCESSOR_APIC_AFFINITY_SIZE,
        wf_record(encode_apic(a)),
        spec_entry_at(encode_apic(a), 0) == SratEntry::ProcessorLocalApicAffinity(a),
{
    let b = encode_apic(a);
    lemma_le32_of_bytes(a.flags);
    lemma_le32_of_bytes(a.clock_domain);
    assert(spec_apic_at(b, 0).proximity_domain_higher =~= a.proximity_domain_higher);
    assert(spec_apic_at(b, 0) == a);
}

proof fn lemma_memory_round_trip(m: MemoryAffinityEntry)
    requires
        m.header.entry_type == MEMORY_AFFINITY_TYPE,
        m.header.length == MEMORY_AFFINITY_SIZE,
    ensures
        encode_memory(m).len() == MEMORY_AFFINITY_SIZE,
        wf_record(encode_memory(m)),
        spec_entry_at(encode_memory(m), 0) == SratEntry::MemoryAffinity(m),
{
    let b = encode_memory(m);
    lemma_le32_of_bytes(m.domain);
    lemma_le32_of_bytes(m.base_low);
    lemma_le32_of_bytes(m.base_high);
    lemma_le32_of_bytes(m.length_low);
    lemma_le32_of_bytes(m.length_high);
    lemma_le32_of_bytes(m.flags);
    assert(spec_memory_at(b, 0) == m);
}

proof fn lemma_x2apic_round_trip(x: ProcessorLocalX2ApicAffinityEntry)
    requires
        x.header.entry_type == PROCESSOR_X2APIC_AFFINITY_TYPE,
        x.header.length == PROCESSOR_X2APIC_AFFINITY_SIZE,
    ensures
        encode_x2apic(x).len() == PROCESSOR_X2APIC_AFFINITY_SIZE,
        wf_record(encode_x2apic(x)),
        spec_entry_at(encode_x2apic(x), 0) == SratEntry::ProcessorLocalX2ApicAffinity(x),
{
    let b = encode_x2apic(x);
    lemma_le32_of_bytes(x.domain);
    lemma_le32_of_bytes(x.x2_apic_id);
    lemma_le32_of_bytes(x.flags);
    lemma_le32_of_bytes(x.clock_domain);
    assert(spec_x2apic_at(b, 0) == x);
}

proof fn lemma_encode_entry_round_trip(e: SratEntry)
    requires
        wf_entry(e),
    ensures
        wf_record(encode_entry(e)),
        spec_entry_at(encode_entry(e), 0) == e,
{
    match e {
        SratEntry::ProcessorLocalApicAffinity(a) => lemma_apic_round_trip(a),
        SratEntry::MemoryAffinity(m) => lemma_memory_round_trip(m),
        SratEntry::ProcessorLocalX2ApicAffinity(x) => lemma_x2apic_round_trip(x),
    }
}

proof fn lemma_entries_of_encode(es: Seq<SratEntry>)
    requires
        forall|k: int| 0 <= k < es.len() ==> wf_entry(#[trigger] es[k]),
    ensures
        forall|k: int| 0 <= k < es.len() ==> wf_record(#[trigger] encode_entries(es)[k]),
        entries_of(encode_entries(es)) == es,
    decreases es.len(),
{
    let rs = encode_entries(es);
    assert forall|k: int| 0 <= k < es.len() implies wf_record(#[trigger] rs[k]) by {
        lemma_encode_entry_round_trip(es[k]);
    };
    if es.len() == 0 {
        assert(entries_of(rs) =~= es);
    } else {
        let tail = es.drop_first();
        assert forall|k: int| 0 <= k < tail.len() implies wf_entry(#[trigger] tail[k]) by {
            assert(tail[k] == es[k + 1]);
        };
        lemma_entries_of_encode(tail);
        assert(rs.drop_first() =~= encode_entries(tail));
        lemma_encode_entry_round_trip(es[0]);
        assert(entries_of(rs) =~= es);
    }
}

/// Round trip: a table built by encoding well-formed entries, one record
/// each, decodes without error to exactly those entries.
pub proof fn lemma_encode_decode_round_trip(es: Seq<SratEntry>)
    requires
        forall|k: int| 0 <= k < es.len() ==> wf_entry(#[trigger] es[k]),
    ensures
        ({
            let data = concat_all(encode_entries(es));
            decode_from(data, 0, data.len() as int) == (es, Option::<SratError>::None)
        }),
{
    let data = concat_all(encode_entries(es));
    lemma_entries_of_encode(es);
    assert(data.subrange(0, data.len() as int) =~= data);
    lemma_decode_records(data, 0, encode_entries(es));
}

} // verus!
