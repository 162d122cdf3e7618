use vstd::prelude::*;

use crate::ids::EbmlId;
use crate::ElementSize;

verus! {

/// A possible error when reading or writing a Matroska stream.
#[derive(Debug, Clone, Copy, PartialEq, Eq, Structural)]
pub enum MatroskaError {
    /// The input ended before the requested bytes could be read.
    Io,
    /// A UTF-8 text payload held an invalid byte sequence.
    UTF8,
    /// An element ID was malformed or is not in the schema; carries the raw value.
    InvalidID(u64),
    /// An element size that the schema does not allow for this ID.
    InvalidSize(EbmlId, ElementSize),
    /// A value too large to encode as a variable-size integer.
    InvalidVarIntMoreThanVintMax(u64),
    /// A variable-size integer whose first byte is all zeros.
    InvalidVarInt,
    /// An unsigned or signed integer payload longer than eight bytes.
    InvalidUint,
    /// A float payload whose length is neither four nor eight bytes.
    InvalidFloat,
    /// A date payload whose length is not eight bytes.
    InvalidDate,
    /// A seek-head entry naming an element that cannot be indexed.
    InvalidSeekHead { id: u32 },
}

impl MatroskaError {
    /// A short description, for diagnostics in callers.
    pub fn message(&self) -> &'static str {
        match self {
            MatroskaError::Io => "input ended early",
            MatroskaError::UTF8 => "invalid UTF-8 string payload",
            MatroskaError::InvalidID(_) => "invalid element ID",
            MatroskaError::InvalidSize(_, _) => "invalid element size",
            MatroskaError::InvalidVarIntMoreThanVintMax(_) => "value exceeds the VINT maximum",
            MatroskaError::InvalidVarInt => "invalid variable-size integer",
            MatroskaError::InvalidUint => "invalid integer payload length",
            MatroskaError::InvalidFloat => "invalid float payload length",
            MatroskaError::InvalidDate => "invalid date payload length",
            MatroskaError::InvalidSeekHead { .. } => "invalid seek head entry",
        }
    }
}

} // verus!
