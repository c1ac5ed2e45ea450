//! The reasons for which a deploy fails before or at dispatch.

use vstd::prelude::*;

verus! {

/// Why a byte payload could not be decoded.
#[derive(Clone, Copy, Debug, PartialEq, Eq)]
pub enum DecodeError {
    /// The payload ended in the middle of a value.
    EarlyEndOfStream,
    /// A value is malformed, or its type tag is not a known one.
    Formatting,
    /// Bytes were left after the last value.
    LeftOverBytes,
    /// A buffer could not be allocated.
    OutOfMemory,
    /// A value has no encoded form.
    NotRepresentable,
    /// A type is nested more deeply than the codec allows.
    ExceededRecursionDepth,
    /// A failure of a kind that this library does not name.
    Other,
}

/// Why the code of a deploy could not be resolved.
#[derive(Clone, Debug, PartialEq, Eq)]
pub enum Error {
    /// The name is not in the account's named keys.
    NamedKeyNotFound(String),
    /// The key does not denote contract code.
    ConvertingKeyIntoHash,
}

/// The reason with which a contract reverts, as the submitter sees it.
#[derive(Clone, Copy, Debug, PartialEq, Eq)]
pub enum ApiError {
    /// An argument is present but does not decode as the type asked for.
    InvalidArgument,
    /// A reason of the contract's own, by its code.
    User(u16),
}

} // verus!
