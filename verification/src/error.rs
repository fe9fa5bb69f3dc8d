//! The failures a proving or verification call can end in.

use vstd::prelude::*;

verus! {

/// Why a pipeline stopped before it could deliver a result.
///
/// A rejected proof is not among these: rejection is a verdict, not a
/// failure.
#[derive(Clone, Copy, Debug, PartialEq, Eq, Structural)]
pub enum ErrorKind {
    /// The circuit resource is not a JSON document with a string member
    /// `bytecode`.
    MalformedCircuitResource,
    /// The engine's decoder refused one of the scalars.
    WitnessEncodingError,
    /// No reference string could be read from the cache nor produced.
    SrsProvisionError,
    /// The engine failed while proving.
    ProveError,
    /// The engine failed while deriving the key or verifying.
    VerifyError,
}

} // verus!
