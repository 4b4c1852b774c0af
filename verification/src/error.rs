use vstd::prelude::*;

verus! {

/// The error taxonomy of the remote boundary.  Retry-budget exhaustion
/// is not here: giving up is a normal reported outcome, and a caller
/// must be able to tell "the system is broken" from "the payment simply
/// did not succeed".
#[derive(Debug)]
pub enum ApiError {
    /// The network call itself failed.
    Transport(String),
    /// The remote answered a non-success HTTP status; the raw response
    /// body is preserved verbatim for diagnostics, never parsed.
    Remote { status: u16, body: String },
    /// A success response whose body is not well-formed JSON.
    Parse(String),
    /// Missing or ill-typed configuration.
    Config(String),
}

} // verus!
