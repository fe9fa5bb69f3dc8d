//! Witness assembly and proof-lifecycle orchestration for a zero-knowledge
//! membership circuit.
//!
//! The proving engine itself (curve arithmetic, commitments, reference
//! strings) is an outside collaborator. This library decides what is handed
//! to it and what each of its answers means for the call in progress.

pub mod circuit;
pub mod error;
pub mod prove;
pub mod srs;
pub mod verify;
pub mod witness;
