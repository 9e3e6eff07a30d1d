//! Typed failures.
//!
//! Every operation reports failure through these types: a parse failure for
//! text that is not JSON, a schema failure naming the field (and, for array
//! elements, the index) that did not decode, an I/O failure carried for
//! callers that read files, and a bounds failure for indexed access.

use vstd::prelude::*;

verus! {

/// The fields of a raw dataset record that the decoder checks.
#[derive(PartialEq, Eq, Structural, Clone, Copy, Debug)]
pub enum FieldId {
    Id,
    Title,
    TrimmedTitle,
    Url,
    Permalink,
    Selftext,
    SelftextWithoutTldr,
    NumComments,
    Ups,
    Score,
    CreatedUtc,
    UpvoteRatio,
    TitleTokenized,
    TrimmedTitleTokenized,
    SelftextWithoutTldrTokenized,
    TldrTokenized,
}

/// A record did not match the schema: a field was absent or of the wrong JSON
/// type, or an element of a tokenized array was not a string.
#[derive(PartialEq, Eq, Structural, Clone, Copy, Debug)]
pub enum SchemaError {
    /// The named field is absent or of the wrong JSON type.
    Field(FieldId),
    /// The element at the given index of the named array field is not a
    /// string.
    Elem(FieldId, usize),
}

/// Any failure the library reports.
#[derive(PartialEq, Debug)]
pub enum Error {
    /// The input is not syntactically valid JSON (or not valid UTF-8 text);
    /// the message is the parser's own.
    Parse(String),
    /// The input is valid JSON but does not match the record schema.
    Schema(SchemaError),
    /// A file could not be opened or read; produced by callers that do the
    /// reading, never by this crate's own functions.
    Io(String),
    /// An index `.0` was used on a collection of length `.1 <= .0`.
    Bounds(usize, usize),
}

} // verus!
