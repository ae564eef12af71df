//! The wire format seen from the writer's side, and the laws that tie it to
//! the walk: what was encoded is what comes out.

use crate::align::spec_align_up_to_8;
use crate::certificate::AttributeCertificateView;
use crate::error::AttributeCertificateError;
use crate::iterator::{spec_new, spec_table_bytes};
use crate::table::{
    spec_items, spec_leftover, spec_step, spec_total_size_valid, Step, HEADER_SIZE,
};
use crate::wire::{
    lemma_u16_le_round_trip, lemma_u32_le_round_trip, spec_u16_le_bytes, spec_u32_le_bytes,
};
use core::ops::Range;
use vstd::prelude::*;

verus! {

/// An entry as it is written: the certificate, and the bytes that pad it to
/// the next 8-byte boundary. The padding may hold anything.
pub ghost struct EncodedEntry {
    pub certificate: AttributeCertificateView,
    pub padding: Seq<u8>,
}

impl EncodedEntry {
    /// The value of the size field: header and payload, without padding.
    pub open spec fn size(self) -> int {
        HEADER_SIZE + self.certificate.data.len()
    }

    /// The size fits its 4-byte field, and the padding is exactly what
    /// brings the entry to the next 8-byte boundary.
    pub open spec fn well_formed(self) -> bool {
        &&& self.size() <= u32::MAX
        &&& self.padding.len() == spec_align_up_to_8(self.size()) - self.size()
    }

    /// The bytes of the entry: size, revision and certificate type in
    /// little-endian order, the payload, the padding.
    pub open spec fn encode(self) -> Seq<u8> {
        spec_u32_le_bytes(self.size() as u32) + spec_u16_le_bytes(self.certificate.revision)
            + spec_u16_le_bytes(self.certificate.certificate_type) + self.certificate.data
            + self.padding
    }
}

/// Whether every entry of `entries` is well-formed.
pub open spec fn spec_all_well_formed(entries: Seq<EncodedEntry>) -> bool {
    forall|i: int| 0 <= i < entries.len() ==> (#[trigger] entries[i]).well_formed()
}

/// The bytes of a table that holds `entries`, one after the other.
pub open spec fn spec_encode_table(entries: Seq<EncodedEntry>) -> Seq<u8>
    decreases entries.len(),
{
    if entries.len() == 0 {
        Seq::empty()
    } else {
        entries[0].encode() + spec_encode_table(entries.drop_first())
    }
}

/// The items that a walk over the encoding of `entries` is to produce: each
/// certificate, in order, and no error.
pub open spec fn spec_decoded(entries: Seq<EncodedEntry>) -> Seq<
    Result<AttributeCertificateView, AttributeCertificateError>,
> {
    Seq::new(entries.len(), |i: int| Ok(entries[i].certificate))
}

/// An encoded entry takes up its size rounded up to a multiple of 8.
pub proof fn lemma_encoded_entry_len(entry: EncodedEntry)
    requires
        entry.well_formed(),
    ensures
        entry.encode().len() == spec_align_up_to_8(entry.size()),
        entry.encode().len() % 8 == 0,
{
}

/// The sum of the sizes of `entries`, each rounded up to a multiple of 8.
pub open spec fn spec_aligned_size_sum(entries: Seq<EncodedEntry>) -> int
    decreases entries.len(),
{
    if entries.len() == 0 {
        0
    } else {
        spec_align_up_to_8(entries[0].size()) + spec_aligned_size_sum(entries.drop_first())
    }
}

/// The length of an encoded table is the sum of the aligned sizes of its
/// entries, and so a multiple of 8.
pub proof fn lemma_encoded_table_len(entries: Seq<EncodedEntry>)
    requires
        spec_all_well_formed(entries),
    ensures
        spec_encode_table(entries).len() == spec_aligned_size_sum(entries),
        spec_encode_table(entries).len() % 8 == 0,
    decreases entries.len(),
{
    if entries.len() > 0 {
        lemma_encoded_entry_len(entries[0]);
        lemma_encoded_table_len(entries.drop_first());
    }
}

/// A step on an encoded entry, whatever follows it, decodes that entry's
/// certificate and leaves exactly what follows.
pub proof fn lemma_step_decodes_entry(entry: EncodedEntry, tail: Seq<u8>)
    requires
        entry.well_formed(),
    ensures
        spec_step(entry.encode() + tail) == (Step::Entry {
            certificate: entry.certificate,
            rest: tail,
        }),
{
    let bytes = entry.encode() + tail;
    let size = entry.size();
    lemma_u32_le_round_trip(size as u32);
    lemma_u16_le_round_trip(entry.certificate.revision);
    lemma_u16_le_round_trip(entry.certificate.certificate_type);
    assert(bytes.subrange(HEADER_SIZE as int, size) =~= entry.certificate.data);
    assert(bytes.subrange(spec_align_up_to_8(size), bytes.len() as int) =~= tail);
}

/// A walk over an encoded table followed by other bytes produces the
/// table's certificates and then goes on as a walk over those bytes would.
pub proof fn lemma_walk_of_encoded_prefix(entries: Seq<EncodedEntry>, tail: Seq<u8>)
    requires
        spec_all_well_formed(entries),
    ensures
        spec_items(spec_encode_table(entries) + tail) == spec_decoded(entries) + spec_items(tail),
        spec_leftover(spec_encode_table(entries) + tail) == spec_leftover(tail),
    decreases entries.len(),
{
    if entries.len() == 0 {
        assert(spec_encode_table(entries) + tail =~= tail);
        assert(spec_decoded(entries) + spec_items(tail) =~= spec_items(tail));
    } else {
        let first = entries[0];
        let others = entries.drop_first();
        let after = spec_encode_table(others) + tail;
        assert(spec_encode_table(entries) + tail =~= first.encode() + after);
        lemma_step_decodes_entry(first, after);
        lemma_walk_of_encoded_prefix(others, tail);
        assert(spec_decoded(entries) =~= seq![Ok(first.certificate)] + spec_decoded(others));
        assert(spec_decoded(entries) + spec_items(tail) =~= seq![Ok(first.certificate)] + (
        spec_decoded(others) + spec_items(tail)));
    }
}

/// Round trip: a walk over the encoding of well-formed entries produces
/// exactly their certificates (revision, type and payload), in the order in
/// which they were written, and the table passes the check of its total
/// size.
pub proof fn lemma_round_trip(entries: Seq<EncodedEntry>)
    requires
        spec_all_well_formed(entries),
    ensures
        spec_items(spec_encode_table(entries)) == spec_decoded(entries),
        spec_items(spec_encode_table(entries)).len() == entries.len(),
        spec_total_size_valid(spec_encode_table(entries)),
{
    let empty = Seq::<u8>::empty();
    lemma_walk_of_encoded_prefix(entries, empty);
    assert(spec_encode_table(entries) + empty =~= spec_encode_table(entries));
    assert(spec_decoded(entries) + spec_items(empty) =~= spec_decoded(entries));
}

/// A table that is longer than its entries by fewer bytes than a header,
/// one extra byte for instance, does not pass the check of its total size.
pub proof fn lemma_excess_bytes_are_invalid(entries: Seq<EncodedEntry>, excess: Seq<u8>)
    requires
        spec_all_well_formed(entries),
        0 < excess.len() < HEADER_SIZE,
    ensures
        !spec_total_size_valid(spec_encode_table(entries) + excess),
{
    lemma_walk_of_encoded_prefix(entries, excess);
}

/// Construction accepts a table that is the encoding of well-formed
/// entries, and the cursor it returns stands at the first of them.
pub proof fn lemma_construction_accepts_encoded(
    data: Seq<u8>,
    range: Range<usize>,
    entries: Seq<EncodedEntry>,
)
    requires
        spec_all_well_formed(entries),
        spec_table_bytes(data, range) == Some(spec_encode_table(entries)),
    ensures
        spec_new(data, Ok(Some(range))) == Ok::<_, AttributeCertificateError>(
            Some(spec_encode_table(entries)),
        ),
{
    lemma_round_trip(entries);
}

/// Construction answers `InvalidSize` for a table that is longer than its
/// entries by fewer bytes than a header, one extra byte for instance.
pub proof fn lemma_construction_refuses_excess(
    data: Seq<u8>,
    range: Range<usize>,
    entries: Seq<EncodedEntry>,
    excess: Seq<u8>,
)
    requires
        spec_all_well_formed(entries),
        0 < excess.len() < HEADER_SIZE,
        spec_table_bytes(data, range) == Some(spec_encode_table(entries) + excess),
    ensures
        spec_new(data, Ok(Some(range))) == Err::<Option<Seq<u8>>, _>(
            AttributeCertificateError::InvalidSize,
        ),
{
    lemma_excess_bytes_are_invalid(entries, excess);
}

} // verus!
