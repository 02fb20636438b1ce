//! The error taxonomy of the retrieval core. A provider-reported failure
//! status is deliberately not an error: the decoders return zero files and a
//! flag instead, so a batch can continue past it.

use vstd::prelude::*;

verus! {

/// A fatal decoding failure: the job it belongs to is aborted.
#[derive(Clone, Copy, Debug, PartialEq, Eq, Structural)]
pub enum DecodeError {
    /// A JSON text (the envelope itself, or an embedded multi-file source
    /// blob) failed to parse at some unwrapping stage.
    InvalidJson,
    /// The envelope's `result` field is absent or not an array.
    ResultNotArray,
    /// A single-file explorer's envelope lacks its mandatory `source_code`
    /// string.
    MissingSourceCode,
}

/// A fatal failure of one fetch job.
#[derive(Clone, Copy, Debug, PartialEq, Eq, Structural)]
pub enum FetchError {
    /// The requested chain symbol is not in the registry.
    UnknownChain,
    /// The network call itself failed; raised only by the unverified shell
    /// that performs the request.
    Transport,
    /// The response could not be decoded.
    Decode(DecodeError),
}

} // verus!
