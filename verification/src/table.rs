//! The mathematical model of the attribute certificate table: what one
//! decoding step makes of a run of bytes, and what a whole walk yields.

use crate::align::spec_align_up_to_8;
use crate::certificate::AttributeCertificateView;
use crate::error::AttributeCertificateError;
use crate::wire::{spec_u16_le, spec_u32_le};
use vstd::prelude::*;

verus! {

/// Size, in bytes, of the header of an entry: a 4-byte total size, a 2-byte
/// revision and a 2-byte certificate type.
pub const HEADER_SIZE: usize = 8;

/// What one decoding step finds at the front of the bytes that remain.
pub ghost enum Step {
    /// Fewer bytes than a header remain: the walk is over.
    Exhausted,
    /// The size field is below the header size or runs past the bytes that
    /// remain.
    Rejected { size: u32 },
    /// The entry fits, but its padding does not: the walk ends without an
    /// item and without an error.
    Truncated,
    /// A well-formed entry, and the bytes that follow its padding.
    Entry { certificate: AttributeCertificateView, rest: Seq<u8> },
}

/// Decodes the front of `bytes`.
pub open spec fn spec_step(bytes: Seq<u8>) -> Step {
    let size = spec_u32_le(bytes, 0);
    if bytes.len() < HEADER_SIZE {
        Step::Exhausted
    } else if size < HEADER_SIZE || size > bytes.len() {
        Step::Rejected { size: size as u32 }
    } else if spec_align_up_to_8(size) > bytes.len() {
        Step::Truncated
    } else {
        Step::Entry {
            certificate: AttributeCertificateView {
                revision: spec_u16_le(bytes, 4) as u16,
                certificate_type: spec_u16_le(bytes, 6) as u16,
                data: bytes.subrange(HEADER_SIZE as int, size),
            },
            rest: bytes.subrange(spec_align_up_to_8(size), bytes.len() as int),
        }
    }
}

/// The item that a step on `bytes` produces, if any.
pub open spec fn spec_next_item(bytes: Seq<u8>) -> Option<
    Result<AttributeCertificateView, AttributeCertificateError>,
> {
    match spec_step(bytes) {
        Step::Exhausted | Step::Truncated => None,
        Step::Rejected { size } => Some(
            Err(AttributeCertificateError::InvalidCertificateSize { size }),
        ),
        Step::Entry { certificate, .. } => Some(Ok(certificate)),
    }
}

/// The bytes that remain after a step on `bytes`: all of them where the step
/// produced nothing, none after an error, and what follows the entry and its
/// padding otherwise.
pub open spec fn spec_next_remaining(bytes: Seq<u8>) -> Seq<u8> {
    match spec_step(bytes) {
        Step::Exhausted | Step::Truncated => bytes,
        Step::Rejected { .. } => Seq::empty(),
        Step::Entry { rest, .. } => rest,
    }
}

/// Every step that produces an item consumes at least a header.
pub proof fn lemma_step_consumes(bytes: Seq<u8>)
    ensures
        spec_next_item(bytes) is Some ==> spec_next_remaining(bytes).len() + HEADER_SIZE
            <= bytes.len(),
        spec_next_item(bytes) is None ==> spec_next_remaining(bytes) == bytes,
{
}

/// All the items that a walk over `bytes` produces, in order.
pub open spec fn spec_items(bytes: Seq<u8>) -> Seq<
    Result<AttributeCertificateView, AttributeCertificateError>,
>
    decreases bytes.len(),
{
    match spec_next_item(bytes) {
        None => Seq::empty(),
        Some(item) => seq![item] + spec_items(spec_next_remaining(bytes)),
    }
}

/// The bytes that are left when a walk over `bytes` has produced its last
/// item.
pub open spec fn spec_leftover(bytes: Seq<u8>) -> Seq<u8>
    decreases bytes.len(),
{
    if spec_next_item(bytes) is Some {
        spec_leftover(spec_next_remaining(bytes))
    } else {
        bytes
    }
}

/// Whether the length of the table is exactly used up by its entries: a
/// walk over `bytes` leaves nothing behind.
pub open spec fn spec_total_size_valid(bytes: Seq<u8>) -> bool {
    spec_leftover(bytes).len() == 0
}

/// On a table that passes the check of its total size no step stops short:
/// the walk never meets an entry whose padding is missing, it ends only
/// where no byte is left, and what remains after a step passes the check
/// again.
pub proof fn lemma_valid_table_walk(bytes: Seq<u8>)
    requires
        spec_total_size_valid(bytes),
    ensures
        !(spec_step(bytes) is Truncated),
        spec_next_item(bytes) is None ==> bytes.len() == 0,
        spec_total_size_valid(spec_next_remaining(bytes)),
{
    if spec_next_item(bytes) is Some {
        assert(spec_leftover(bytes) == spec_leftover(spec_next_remaining(bytes)));
    } else {
        assert(spec_leftover(bytes) == bytes);
    }
}

/// A table without bytes is valid and holds no item.
pub proof fn lemma_empty_table()
    ensures
        spec_total_size_valid(Seq::empty()),
        spec_items(Seq::empty()) == Seq::<
            Result<AttributeCertificateView, AttributeCertificateError>,
        >::empty(),
        spec_next_item(Seq::empty()) is None,
{
}

/// An error is the last item: the step that reports one leaves no bytes, on
/// which every further step produces nothing. Such a table still passes
/// the check of its total size.
pub proof fn lemma_error_ends_walk(bytes: Seq<u8>)
    requires
        spec_next_item(bytes) matches Some(Err(_)),
    ensures
        spec_next_remaining(bytes).len() == 0,
        spec_next_item(spec_next_remaining(bytes)) is None,
        spec_next_remaining(spec_next_remaining(bytes)) == spec_next_remaining(bytes),
        spec_items(bytes).len() == 1,
        spec_total_size_valid(bytes),
{
    let rest = spec_next_remaining(bytes);
    assert(spec_items(rest).len() == 0);
    assert(spec_leftover(rest) == rest);
    assert(spec_leftover(bytes) == spec_leftover(rest));
}

} // verus!
