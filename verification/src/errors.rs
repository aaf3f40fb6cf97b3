//! Error values surfaced by the library.
//!
//! Every error is terminal for the call in which it occurs: the library
//! retries nothing on its own.

use vstd::prelude::*;

verus! {

/// A string field did not hold the textual form a computation expected.
#[derive(Clone, Copy, Debug, PartialEq, Eq, Structural)]
pub enum ParseError {
    /// Not a decimal integer, or out of range for the target type.
    Number,
    /// Not a calendar date of the form YYYY-MM-DD.
    Date,
}

/// A response body did not match the expected envelope or record shape.
#[derive(Clone, Copy, Debug, PartialEq, Eq, Structural)]
pub enum DecodeError {
    /// A required field was absent from a record's wire representation.
    MissingField,
}

/// A network-level failure, independent of authentication.  The transport
/// lives outside the library, which only carries its description along.
#[derive(Clone, Debug)]
pub struct TransportError {
    pub message: String,
}

/// A login or refresh exchange failed.
#[derive(Clone, Debug)]
pub enum AuthError {
    /// The server-reported token lifetime was not a valid integer.
    Parse(ParseError),
    /// The exchange's response did not decode.
    Decode(DecodeError),
    /// The exchange did not complete at the network level.
    Transport(TransportError),
}

/// A failure encountered while listing a paginated resource.
#[derive(Clone, Debug)]
pub enum ListError {
    Auth(AuthError),
    Decode(DecodeError),
    Transport(TransportError),
}

} // verus!
