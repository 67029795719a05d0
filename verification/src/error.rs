//! Error taxonomy: decode-time failures and the chain-resolution failure.

use vstd::prelude::*;

verus! {

/// The kind of record a decoder was reading when it failed; part of the
/// description surfaced with every decode error.
#[derive(Clone, Copy, Debug, PartialEq, Eq, Structural)]
pub enum RecordKind {
    /// A 4-byte palette record: red, green, blue and one padding byte.
    PaletteRecord,
    /// A 64-byte block of palette indices (one 8x8 minitile image).
    PixelIndexBlock,
    /// A 32-byte block of 16 little-endian flag words.
    FlagBlock,
    /// A 32-byte block of 16 little-endian image references.
    ImageReferenceBlock,
    /// A 52-byte megatile group: 20 header bytes and 16 references.
    MegatileGroup,
    /// One element of a fixed-width column of the columnar stats table.
    StatsColumnElement,
}

/// A decode failure. Decoding is strict: the buffer must be consumed exactly
/// by whole records, and no partial table is ever returned. Each error
/// carries the byte offset at which the decoder stopped and the kind of
/// record it expected there.
#[derive(Clone, Copy, Debug, PartialEq, Eq, Structural)]
pub enum DecodeError {
    /// The buffer ended one byte short of completing the record that begins
    /// at `offset`.
    TruncatedInput { offset: usize, record: RecordKind },
    /// Bytes remain at `offset`, after the last complete record, that cannot
    /// form a further whole record.
    TrailingData { offset: usize, record: RecordKind },
}

/// A chain-resolution failure: a reference value read from one table is out
/// of bounds for the table it indexes into. The chain fails closed; it never
/// clamps or wraps an index.
#[derive(Clone, Copy, Debug, PartialEq, Eq, Structural)]
pub struct OutOfRange;

} // verus!
