use vstd::prelude::*;

verus! {

/// Errors of the binding layer.
///
/// Every fallible operation of this crate reports exactly one of these
/// variants; each public function's contract states on which inputs the
/// variant is returned.
#[derive(Clone, Copy, Debug, PartialEq, Eq, Structural)]
pub enum Error {
    /// The given identifier does not denote a live object (valid
    /// identifiers are strictly positive).
    InvalidHandleId(i64),
    /// A link or attribute name contains a NUL character and cannot be
    /// passed across the C string boundary.
    NulName,
    /// The element count of the requested extents does not fit in `usize`.
    ExtentsTooLarge,
    /// The gzip compression level is outside `0 ..= 9`.
    InvalidGzipLevel(u8),
    /// A stored fill value does not fit in the requested numeric type.
    FillValueConversion,
    /// The identifier space of the file is exhausted.
    IdSpaceExhausted,
}

} // verus!
