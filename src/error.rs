//! Why loading an image, or decoding part of it, failed.

use vstd::prelude::*;

verus! {

/// A failure to load an image or to decode one of its structures.
#[derive(Debug, Clone, Copy, PartialEq, Eq, Structural)]
pub enum Error {
    /// The PE container has no CLI (COM descriptor) directory.
    NotACliImage,
    /// A structural mismatch: a bad magic, a truncated record, a bad tag.
    Malformed,
    /// A compressed integer with an invalid first byte, or cut short.
    MalformedBlob,
    /// A required metadata stream is absent.
    MissingStream,
    /// A known table that this reader does not decode, by its tag.
    UnsupportedTable(u8),
    /// A table tag that the format does not define.
    UnknownTable(u8),
    /// The table stream asks for four-byte heap indices.
    WideIndexUnsupported,
    /// A signature element starts with a tag byte that the grammar lacks.
    UnknownElementTag(u8),
    /// A signature ends before its grammar does.
    TruncatedSignature,
}

} // verus!
