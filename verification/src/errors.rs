//! Errors of the document services.

use vstd::prelude::*;

verus! {

/// Why a document could not be produced.
#[derive(Debug, PartialEq, Eq, Structural, Clone, Copy)]
pub enum DocumentServiceError {
    /// A length did not fit the integer that has to hold it.
    IntegerOverflow,
    /// A QR code segment is too long for any QR code version.
    SegmentTooLong,
    /// The data needs the first number of bits, the QR code holds the second.
    DataOverCapacity(usize, usize),
}

/// The result of a document service.
pub type DocumentServiceResult<T> = Result<T, DocumentServiceError>;

} // verus!
