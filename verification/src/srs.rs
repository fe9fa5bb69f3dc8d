//! What the reference-string provisioner is asked for.
//!
//! Provisioning itself reads and writes the cache and belongs to the engine.
//! Both pipelines ask for it in the same way, before anything else.

use vstd::prelude::*;
use crate::circuit::CircuitDescriptor;

verus! {

/// A request for a reference string sized for one circuit, with the cache
/// file to read it from and keep it in, if there is one.
#[derive(Clone, Copy, Debug)]
pub struct SrsRequest<'a> {
    pub bytecode: &'a str,
    pub cache_path: Option<&'a str>,
}

/// A request as plain text.
pub struct SrsRequestView {
    pub bytecode: Seq<char>,
    pub cache_path: Option<Seq<char>>,
}

impl<'a> View for SrsRequest<'a> {
    type V = SrsRequestView;

    open spec fn view(&self) -> SrsRequestView {
        SrsRequestView {
            bytecode: self.bytecode@,
            cache_path: match self.cache_path {
                Some(path) => Some(path@),
                None => None,
            },
        }
    }
}

/// The text of a stored cache path, if there is one.
pub open spec fn path_text(srs_path: Option<String>) -> Option<Seq<char>> {
    match srs_path {
        Some(path) => Some(path@),
        None => None,
    }
}

/// The request for `circuit` with the cache at `srs_path`.
pub open spec fn srs_request_for(circuit: CircuitDescriptor, srs_path: Option<String>)
    -> SrsRequestView {
    SrsRequestView { bytecode: circuit@, cache_path: path_text(srs_path) }
}

/// Asks for the reference string of `circuit`, cached at `srs_path` where
/// one is given and ephemeral where none is.
pub fn srs_request<'a>(circuit: &'a CircuitDescriptor, srs_path: &'a Option<String>) -> (r:
    SrsRequest<'a>)
    ensures
        r@ == srs_request_for(*circuit, *srs_path),
{
    let cache_path = match srs_path {
        Some(path) => Some(path.as_str()),
        None => None,
    };
    SrsRequest { bytecode: circuit.bytecode(), cache_path }
}

} // verus!
