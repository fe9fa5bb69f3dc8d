//! The verification pipeline: reference string, verification key, verdict.
//!
//! A rejected proof ends the call in `Done(false)`. `Failed` is kept for a
//! call that could not be carried through.

use vstd::prelude::*;
use crate::circuit::CircuitDescriptor;
use crate::error::ErrorKind;
use crate::prove::{prove_run, ProveEvent, ProveState};
use crate::srs::{path_text, srs_request, srs_request_for, SrsRequest, SrsRequestView};

verus! {

/// Where a verification call stands.
#[derive(Debug, PartialEq, Eq)]
pub enum VerifyState {
    /// Nothing is provisioned yet.
    Idle,
    /// A reference string sized for the circuit is available.
    SrsReady,
    /// The engine has derived the verification key from the bytecode.
    VkDerived,
    /// The engine is verifying.
    Verifying,
    /// What the engine decided, `true` for an accepted proof and `false` for
    /// a rejected one.
    Done(bool),
    /// The call was given up.
    Failed(ErrorKind),
}

/// What the engine, or the caller on its behalf, reports back.
#[derive(Debug, PartialEq, Eq)]
pub enum VerifyEvent {
    SrsProvisioned,
    SrsUnavailable,
    KeyDerived,
    KeyUnavailable,
    VerifyingStarted,
    Verdict(bool),
    VerifierFailed,
}

/// The outside work that a state asks for, with what is handed to it.
#[derive(Debug)]
pub enum VerifyAction<'a> {
    /// Provision the reference string.
    ProvisionSrs(SrsRequest<'a>),
    /// Have the engine derive the verification key from this bytecode.
    DeriveKey { bytecode: &'a str },
    /// Verifying starts now: note the time.
    StartVerifying,
    /// Run the verifier on these proof bytes and the derived key.
    Verify { proof: &'a Vec<u8> },
    /// Nothing is left to do.
    Finish,
}

/// An action as plain values.
pub enum VerifyActionView {
    ProvisionSrs(SrsRequestView),
    DeriveKey { bytecode: Seq<char> },
    StartVerifying,
    Verify { proof: Seq<u8> },
    Finish,
}

impl<'a> View for VerifyAction<'a> {
    type V = VerifyActionView;

    open spec fn view(&self) -> VerifyActionView {
        match *self {
            VerifyAction::ProvisionSrs(request) => VerifyActionView::ProvisionSrs(request@),
            VerifyAction::DeriveKey { bytecode } => VerifyActionView::DeriveKey {
                bytecode: bytecode@,
            },
            VerifyAction::StartVerifying => VerifyActionView::StartVerifying,
            VerifyAction::Verify { proof } => VerifyActionView::Verify { proof: proof@ },
            VerifyAction::Finish => VerifyActionView::Finish,
        }
    }
}

impl VerifyState {
    /// No event changes a finished state.
    pub open spec fn finished(self) -> bool {
        self is Done || self is Failed
    }

    /// How far along the pipeline the state is.
    pub open spec fn rank(self) -> nat {
        match self {
            VerifyState::Idle => 0,
            VerifyState::SrsReady => 1,
            VerifyState::VkDerived => 2,
            VerifyState::Verifying => 3,
            VerifyState::Done(_) => 4,
            VerifyState::Failed(_) => 4,
        }
    }
}

/// The state after `event` arrives in `state`.
///
/// Each state awaits the outcome of one stage. Success moves one state on,
/// failure ends the call with that stage's error, and an event that the
/// state does not await leaves it as it is. A key that cannot be derived
/// counts as a failure of verification.
pub open spec fn verify_next(state: VerifyState, event: VerifyEvent) -> VerifyState {
    match state {
        VerifyState::Idle => match event {
            VerifyEvent::SrsProvisioned => VerifyState::SrsReady,
            VerifyEvent::SrsUnavailable => VerifyState::Failed(ErrorKind::SrsProvisionError),
            _ => state,
        },
        VerifyState::SrsReady => match event {
            VerifyEvent::KeyDerived => VerifyState::VkDerived,
            VerifyEvent::KeyUnavailable => VerifyState::Failed(ErrorKind::VerifyError),
            _ => state,
        },
        VerifyState::VkDerived => match event {
            VerifyEvent::VerifyingStarted => VerifyState::Verifying,
            _ => state,
        },
        VerifyState::Verifying => match event {
            VerifyEvent::Verdict(accepted) => VerifyState::Done(accepted),
            VerifyEvent::VerifierFailed => VerifyState::Failed(ErrorKind::VerifyError),
            _ => state,
        },
        VerifyState::Done(_) => state,
        VerifyState::Failed(_) => state,
    }
}

/// The state after a whole sequence of events, taken in order.
pub open spec fn verify_run(state: VerifyState, events: Seq<VerifyEvent>) -> VerifyState
    decreases events.len(),
{
    if events.len() == 0 {
        state
    } else {
        verify_run(verify_next(state, events[0]), events.skip(1))
    }
}

/// One verification call: the circuit, where the reference string is cached,
/// the proof bytes under test, and how far the call has come.
#[derive(Debug)]
pub struct VerifyPipeline {
    pub circuit: CircuitDescriptor,
    pub srs_path: Option<String>,
    pub proof: Vec<u8>,
    pub state: VerifyState,
}

impl VerifyPipeline {
    /// Starts a call in `Idle`. The proof bytes are kept as given; nothing in
    /// them is read here.
    pub fn new(circuit: CircuitDescriptor, srs_path: Option<String>, proof: Vec<u8>) -> (r:
        VerifyPipeline)
        ensures
            r.circuit == circuit,
            r.srs_path == srs_path,
            r.proof == proof,
            r.state == VerifyState::Idle,
    {
        VerifyPipeline { circuit, srs_path, proof, state: VerifyState::Idle }
    }

    /// The action that the state asks for.
    ///
    /// The reference string is provisioned for this circuit's bytecode at the
    /// stored path, the key is derived from the same bytecode, and the
    /// verifier gets the proof bytes that the call was started with.
    pub open spec fn pending(self) -> VerifyActionView {
        match self.state {
            VerifyState::Idle => VerifyActionView::ProvisionSrs(
                srs_request_for(self.circuit, self.srs_path),
            ),
            VerifyState::SrsReady => VerifyActionView::DeriveKey { bytecode: self.circuit@ },
            VerifyState::VkDerived => VerifyActionView::StartVerifying,
            VerifyState::Verifying => VerifyActionView::Verify { proof: self.proof@ },
            VerifyState::Done(_) => VerifyActionView::Finish,
            VerifyState::Failed(_) => VerifyActionView::Finish,
        }
    }

    /// What is to be done next, and with what.
    pub fn action(&self) -> (r: VerifyAction<'_>)
        ensures
            r@ == self.pending(),
    {
        match &self.state {
            VerifyState::Idle => VerifyAction::ProvisionSrs(
                srs_request(&self.circuit, &self.srs_path),
            ),
            VerifyState::SrsReady => VerifyAction::DeriveKey { bytecode: self.circuit.bytecode() },
            VerifyState::VkDerived => VerifyAction::StartVerifying,
            VerifyState::Verifying => VerifyAction::Verify { proof: &self.proof },
            VerifyState::Done(_) => VerifyAction::Finish,
            VerifyState::Failed(_) => VerifyAction::Finish,
        }
    }

    /// Takes one event. Only the state changes, as `verify_next` says.
    pub fn step(&mut self, event: VerifyEvent)
        ensures
            final(self).state == verify_next(old(self).state, event),
            final(self).circuit == old(self).circuit,
            final(self).srs_path == old(self).srs_path,
            final(self).proof == old(self).proof,
    {
        match &self.state {
            VerifyState::Idle => match event {
                VerifyEvent::SrsProvisioned => {
                    self.state = VerifyState::SrsReady;
                },
                VerifyEvent::SrsUnavailable => {
                    self.state = VerifyState::Failed(ErrorKind::SrsProvisionError);
                },
                _ => {},
            },
            VerifyState::SrsReady => match event {
                VerifyEvent::KeyDerived => {
                    self.state = VerifyState::VkDerived;
                },
                VerifyEvent::KeyUnavailable => {
                    self.state = VerifyState::Failed(ErrorKind::VerifyError);
                },
                _ => {},
            },
            VerifyState::VkDerived => match event {
                VerifyEvent::VerifyingStarted => {
                    self.state = VerifyState::Verifying;
                },
                _ => {},
            },
            VerifyState::Verifying => match event {
                VerifyEvent::Verdict(accepted) => {
                    self.state = VerifyState::Done(accepted);
                },
                VerifyEvent::VerifierFailed => {
                    self.state = VerifyState::Failed(ErrorKind::VerifyError);
                },
                _ => {},
            },
            VerifyState::Done(_) => {},
            VerifyState::Failed(_) => {},
        }
    }

    /// Whether the call has ended, with a verdict or with a failure.
    pub fn is_finished(&self) -> (r: bool)
        ensures
            r == self.state.finished(),
    {
        match &self.state {
            VerifyState::Done(_) => true,
            VerifyState::Failed(_) => true,
            _ => false,
        }
    }

    /// The result of a finished call: the verdict, where `Ok(false)` is a
    /// rejected proof, or the failure. `None` while the call is still under
    /// way.
    pub fn into_outcome(self) -> (r: Option<Result<bool, ErrorKind>>)
        ensures
            r == match self.state {
                VerifyState::Done(accepted) => Some(Ok::<bool, ErrorKind>(accepted)),
                VerifyState::Failed(kind) => Some(Err::<bool, ErrorKind>(kind)),
                _ => None::<Result<bool, ErrorKind>>,
            },
    {
        match self.state {
            VerifyState::Done(accepted) => Some(Ok(accepted)),
            VerifyState::Failed(kind) => Some(Err(kind)),
            _ => None,
        }
    }
}

/// A finished call stays as it is: no event revives a failed call or
/// overturns a verdict.
pub proof fn lemma_verify_finished_is_final(state: VerifyState, events: Seq<VerifyEvent>)
    requires
        state.finished(),
    ensures
        verify_run(state, events) == state,
    decreases events.len(),
{
    if events.len() > 0 {
        lemma_verify_finished_is_final(state, events.skip(1));
    }
}

/// The pipeline never steps back, and moves at most one state per event
/// unless the event ends the call.
pub proof fn lemma_verify_is_linear(state: VerifyState, event: VerifyEvent)
    ensures
        verify_next(state, event).rank() >= state.rank(),
        !verify_next(state, event).finished() ==> verify_next(state, event).rank() <= state.rank()
            + 1,
{
}

/// A rejected proof is a result, not a failure: the call ends in
/// `Done(false)` and stays there, whatever is reported afterwards.
pub proof fn lemma_rejection_is_not_failure(events: Seq<VerifyEvent>)
    ensures
        verify_next(VerifyState::Verifying, VerifyEvent::Verdict(false)) == VerifyState::Done(
            false,
        ),
        verify_run(
            verify_next(VerifyState::Verifying, VerifyEvent::Verdict(false)),
            events,
        ) == VerifyState::Done(false),
{
    lemma_verify_finished_is_final(VerifyState::Done(false), events);
}

/// A call ends in a verdict only on the engine's answer, which it holds
/// unchanged.
pub proof fn lemma_verdict_needs_verifier(state: VerifyState, event: VerifyEvent)
    requires
        !(state is Done),
        verify_next(state, event) is Done,
    ensures
        state is Verifying,
        event == VerifyEvent::Verdict(verify_next(state, event)->Done_0),
{
}

/// A stage that fails ends the call with that stage's error, never with a
/// verdict.
pub proof fn lemma_verify_failure_is_typed(state: VerifyState, event: VerifyEvent)
    requires
        !state.finished(),
        verify_next(state, event) is Failed,
    ensures
        verify_next(state, event)->Failed_0 == (match state {
            VerifyState::Idle => ErrorKind::SrsProvisionError,
            _ => ErrorKind::VerifyError,
        }),
        state is Idle ==> event is SrsUnavailable,
        state is SrsReady ==> event is KeyUnavailable,
        !(state is Idle) && !(state is SrsReady) ==> state is Verifying && event is VerifierFailed,
{
}

/// Two calls on the same circuit, cache path and proof bytes that have come
/// equally far ask for the same work with the same values, and the same
/// answers bring them to the same verdict.
pub proof fn lemma_verify_is_deterministic(
    a: VerifyPipeline,
    b: VerifyPipeline,
    events: Seq<VerifyEvent>,
)
    requires
        a.circuit@ == b.circuit@,
        path_text(a.srs_path) == path_text(b.srs_path),
        a.proof@ == b.proof@,
        a.state == b.state,
    ensures
        a.pending() == b.pending(),
        verify_run(a.state, events) == verify_run(b.state, events),
        (VerifyPipeline { state: verify_run(a.state, events), ..a }).pending() == (VerifyPipeline {
            state: verify_run(b.state, events),
            ..b
        }).pending(),
{
}

/// Proving and then verifying, with every stage succeeding: the proving call
/// delivers the engine's bytes; a verification call started with those bytes
/// hands exactly them to the verifier; and the call's verdict is whatever the
/// engine says of them. So the round trip yields `true` whenever the engine
/// accepts the proof it produced.
pub proof fn lemma_round_trip(verifier: VerifyPipeline, proof: Vec<u8>, accepted: bool)
    requires
        verifier.proof == proof,
    ensures
        prove_run(
            ProveState::Idle,
            seq![
                ProveEvent::SrsProvisioned,
                ProveEvent::WitnessEncoded,
                ProveEvent::ProvingStarted,
                ProveEvent::ProofProduced(proof),
            ],
        ) == ProveState::Done(proof),
        verifier.state == verify_run(
            VerifyState::Idle,
            seq![VerifyEvent::SrsProvisioned, VerifyEvent::KeyDerived, VerifyEvent::VerifyingStarted],
        ) ==> verifier.pending() == (VerifyActionView::Verify { proof: proof@ }),
        verify_run(
            VerifyState::Idle,
            seq![
                VerifyEvent::SrsProvisioned,
                VerifyEvent::KeyDerived,
                VerifyEvent::VerifyingStarted,
                VerifyEvent::Verdict(accepted),
            ],
        ) == VerifyState::Done(accepted),
{
    crate::prove::lemma_prove_succeeds(proof);
    let short = seq![
        VerifyEvent::SrsProvisioned,
        VerifyEvent::KeyDerived,
        VerifyEvent::VerifyingStarted,
    ];
    let whole = seq![
        VerifyEvent::SrsProvisioned,
        VerifyEvent::KeyDerived,
        VerifyEvent::VerifyingStarted,
        VerifyEvent::Verdict(accepted),
    ];
    reveal_with_fuel(verify_run, 5);
    assert(short.skip(1).skip(1).skip(1).len() == 0);
    assert(whole.skip(1).skip(1).skip(1).skip(1).len() == 0);
}

} // verus!
