//! The cursor that walks the attribute certificate table, and the checks that
//! guard its construction.

use crate::align::align_up_to_8;
use crate::certificate::{AttributeCertificate, AttributeCertificateView};
use crate::error::AttributeCertificateError;
use crate::table::{
    lemma_step_consumes, lemma_valid_table_walk, spec_items, spec_leftover, spec_next_item,
    spec_next_remaining, spec_total_size_valid, HEADER_SIZE,
};
use crate::wire::{read_u16_le, read_u32_le};
use core::ops::Range;
use vstd::prelude::*;
use vstd::slice::slice_subrange;

verus! {

/// Error of a PE image that cannot say where one of its parts lies.
#[derive(Clone, Copy, Debug, PartialEq, Eq, Structural)]
pub struct PeOffsetError;

/// What the table parser needs to know of a PE image.
///
/// Nothing is assumed of an implementation: whatever the two methods
/// return is checked before it is used.
pub trait PeTrait {
    /// The raw bytes of the whole image.
    fn data(&self) -> &[u8];

    /// The range of the image's bytes that holds the attribute certificate
    /// table; `None` if the image has no such table; an error if the range
    /// cannot be computed.
    fn certificate_table_range(&self) -> Result<Option<Range<usize>>, PeOffsetError>;
}

/// Iterator over PE attribute certificates.
#[derive(Debug)]
pub struct AttributeCertificateIterator<'a> {
    remaining_data: &'a [u8],
}

impl<'a> View for AttributeCertificateIterator<'a> {
    type V = Seq<u8>;

    /// The bytes of the table that have not been consumed yet.
    closed spec fn view(&self) -> Seq<u8> {
        self.remaining_data@
    }
}

/// The model of an item that `next` hands out.
pub open spec fn spec_item_view(
    item: Option<Result<AttributeCertificate<'_>, AttributeCertificateError>>,
) -> Option<Result<AttributeCertificateView, AttributeCertificateError>> {
    match item {
        None => None,
        Some(Err(e)) => Some(Err(e)),
        Some(Ok(certificate)) => Some(Ok(certificate@)),
    }
}

/// The bytes of `data` that `range` selects, if it lies within them.
pub open spec fn spec_table_bytes(data: Seq<u8>, range: Range<usize>) -> Option<Seq<u8>> {
    if range.start <= range.end <= data.len() {
        Some(data.subrange(range.start as int, range.end as int))
    } else {
        None
    }
}

/// What construction makes of an image's bytes and of the range that the
/// image gives for its table: the bytes to walk, nothing for an image
/// without a table, or the reason for which the table is refused.
pub open spec fn spec_new(
    data: Seq<u8>,
    range: Result<Option<Range<usize>>, PeOffsetError>,
) -> Result<Option<Seq<u8>>, AttributeCertificateError> {
    match range {
        Err(_) => Err(AttributeCertificateError::OutOfBounds),
        Ok(None) => Ok(None),
        Ok(Some(range)) => match spec_table_bytes(data, range) {
            None => Err(AttributeCertificateError::OutOfBounds),
            Some(table) => if spec_total_size_valid(table) {
                Ok(Some(table))
            } else {
                Err(AttributeCertificateError::InvalidSize)
            },
        },
    }
}

/// The model of what construction returns.
pub open spec fn spec_new_view(
    result: Result<Option<AttributeCertificateIterator<'_>>, AttributeCertificateError>,
) -> Result<Option<Seq<u8>>, AttributeCertificateError> {
    match result {
        Err(e) => Err(e),
        Ok(None) => Ok(None),
        Ok(Some(iter)) => Ok(Some(iter@)),
    }
}

/// Walks the table to its end and says whether its length is exactly the
/// sum of the aligned sizes of its entries: whether the walk leaves no byte
/// behind.
///
/// A table whose walk ends on an entry of invalid size passes as well; that
/// entry is reported when the iteration reaches it.
pub fn check_total_size_valid(remaining_data: &[u8]) -> (valid: bool)
    ensures
        valid == spec_total_size_valid(remaining_data@),
{
    let mut iter = AttributeCertificateIterator { remaining_data };
    loop
        invariant
            spec_leftover(iter@) == spec_leftover(remaining_data@),
        ensures
            iter@ == spec_leftover(remaining_data@),
        decreases iter@.len(),
    {
        proof {
            lemma_step_consumes(iter@);
        }
        let item = iter.next();
        if item.is_none() {
            break ;
        }
    }
    iter.remaining_data.is_empty()
}

impl<'a> AttributeCertificateIterator<'a> {
    /// Create a new `AttributeCertificateIterator` for the image `pe`.
    ///
    /// If there is no attribute certificate table, this returns `Ok(None)`.
    ///
    /// # Errors
    ///
    /// Returns [`AttributeCertificateError::OutOfBounds`] if the table is
    /// not within the PE image bounds.
    ///
    /// Returns [`AttributeCertificateError::InvalidSize`] if the table size
    /// does not match the sum of the certificate entries' aligned sizes.
    pub fn new<P: PeTrait + ?Sized>(pe: &'a P) -> (result: Result<
        Option<Self>,
        AttributeCertificateError,
    >)
        ensures
            exists|data: &[u8], range: Result<Option<Range<usize>>, PeOffsetError>|
                call_ensures(P::data, (pe,), data) && call_ensures(
                    P::certificate_table_range,
                    (pe,),
                    range,
                ) && spec_new_view(result) == spec_new(data@, range),
    {
        let range = pe.certificate_table_range();
        let data = pe.data();
        Self::from_table_range(data, range)
    }

    /// Create a new `AttributeCertificateIterator` from the bytes of an
    /// image and the range that the image has given for its table.
    pub fn from_table_range(
        data: &'a [u8],
        range: Result<Option<Range<usize>>, PeOffsetError>,
    ) -> (result: Result<Option<Self>, AttributeCertificateError>)
        ensures
            spec_new_view(result) == spec_new(data@, range),
    {
        match range {
            Ok(Some(certificate_table_range)) => {
                let start: usize = certificate_table_range.start;
                let end: usize = certificate_table_range.end;
                if start > end || end > data.len() {
                    return Err(AttributeCertificateError::OutOfBounds);
                }
                let remaining_data = slice_subrange(data, start, end);
                if !check_total_size_valid(remaining_data) {
                    return Err(AttributeCertificateError::InvalidSize);
                }
                Ok(Some(Self { remaining_data }))
            },
            Ok(None) => Ok(None),
            Err(_) => Err(AttributeCertificateError::OutOfBounds),
        }
    }

    /// A cursor over `table` as it stands, with no check of its total size.
    pub fn unvalidated(table: &'a [u8]) -> (iter: Self)
        ensures
            iter@ == table@,
    {
        Self { remaining_data: table }
    }

    /// The bytes of the table that have not been consumed yet.
    pub fn remaining_data(&self) -> (remaining: &'a [u8])
        ensures
            remaining@ == self@,
    {
        self.remaining_data
    }

    /// Decodes the entry at the cursor and moves the cursor past the entry
    /// and its padding.
    ///
    /// Returns `None` once fewer bytes than a header remain, and also where
    /// the padding of an otherwise well-formed entry runs past the table;
    /// the cursor then stays where it is. An entry whose size field is
    /// below the header size or runs past the table gives
    /// `InvalidCertificateSize` and empties the cursor, so that every later
    /// call returns `None`.
    pub fn next(&mut self) -> (item: Option<
        Result<AttributeCertificate<'a>, AttributeCertificateError>,
    >)
        ensures
            spec_item_view(item) == spec_next_item(old(self)@),
            final(self)@ == spec_next_remaining(old(self)@),
            item matches Some(Err(_)) ==> final(self)@.len() == 0,
            spec_total_size_valid(old(self)@) ==> spec_total_size_valid(final(self)@) && (item
                is None ==> final(self)@.len() == 0),
            spec_items(old(self)@) == (match spec_item_view(item) {
                None => Seq::empty(),
                Some(produced) => seq![produced] + spec_items(final(self)@),
            }),
    {
        proof {
            if spec_total_size_valid(self@) {
                lemma_valid_table_walk(self@);
            }
            assert(spec_items(self@) == (match spec_next_item(self@) {
                None => Seq::empty(),
                Some(produced) => seq![produced] + spec_items(spec_next_remaining(self@)),
            }));
        }
        let header_size: usize = HEADER_SIZE;
        if self.remaining_data.len() < header_size {
            return None;
        }
        let cert_bytes = self.remaining_data;
        let cert_size: u32 = read_u32_le(cert_bytes, 0);
        let cert_size_err = AttributeCertificateError::InvalidCertificateSize { size: cert_size };
        let cert_size: usize = cert_size as usize;
        let revision: u16 = read_u16_le(cert_bytes, 4);
        let certificate_type: u16 = read_u16_le(cert_bytes, 6);

        // The payload excludes the header: a size below the header size is
        // an error, which ends the iteration.
        if cert_size < header_size || cert_size > cert_bytes.len() {
            self.remaining_data = slice_subrange(cert_bytes, 0, 0);
            return Some(Err(cert_size_err));
        }
        let cert_data = slice_subrange(cert_bytes, header_size, cert_size);

        // Entries are 8-byte aligned, so the next one starts at the size
        // rounded up.
        let size_rounded_up: usize = match align_up_to_8(cert_size) {
            Some(aligned) => aligned,
            None => { return None; },
        };
        if size_rounded_up > cert_bytes.len() {
            return None;
        }
        self.remaining_data = slice_subrange(cert_bytes, size_rounded_up, cert_bytes.len());

        Some(Ok(AttributeCertificate { revision, certificate_type, data: cert_data }))
    }
}

} // verus!
