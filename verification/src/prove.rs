//! The proving pipeline: reference string, witness, proof.
//!
//! The pipeline does none of the outside work itself. It says what is to be
//! handed to the engine next, and takes each outcome as an event.

use vstd::prelude::*;
use crate::circuit::CircuitDescriptor;
use crate::error::ErrorKind;
use crate::srs::{path_text, srs_request, srs_request_for, SrsRequest, SrsRequestView};
use crate::witness::{canonical_inputs, normalize_inputs, Scalar};

verus! {

/// Where a proving call stands.
#[derive(Debug, PartialEq, Eq)]
pub enum ProveState {
    /// Nothing is provisioned yet.
    Idle,
    /// A reference string sized for the circuit is available.
    SrsReady,
    /// The engine has encoded the witness.
    WitnessReady,
    /// The engine is proving.
    Proving,
    /// The engine's proof, as it produced it.
    Done(Vec<u8>),
    /// The call was given up.
    Failed(ErrorKind),
}

/// What the engine, or the caller on its behalf, reports back.
#[derive(Debug, PartialEq, Eq)]
pub enum ProveEvent {
    SrsProvisioned,
    SrsUnavailable,
    WitnessEncoded,
    WitnessRejected,
    ProvingStarted,
    ProofProduced(Vec<u8>),
    ProverFailed,
}

/// The outside work that a state asks for, with what is handed to it.
#[derive(Debug)]
pub enum ProveAction<'a> {
    /// Provision the reference string.
    ProvisionSrs(SrsRequest<'a>),
    /// Have the engine encode these scalars, in this order.
    EncodeWitness { scalars: &'a Vec<String> },
    /// Proving starts now: note the time.
    StartProving,
    /// Run the prover on this bytecode and the encoded witness.
    Prove { bytecode: &'a str },
    /// Nothing is left to do.
    Finish,
}

/// An action as plain values.
pub enum ProveActionView {
    ProvisionSrs(SrsRequestView),
    EncodeWitness { scalars: Seq<Seq<char>> },
    StartProving,
    Prove { bytecode: Seq<char> },
    Finish,
}

impl<'a> View for ProveAction<'a> {
    type V = ProveActionView;

    open spec fn view(&self) -> ProveActionView {
        match *self {
            ProveAction::ProvisionSrs(request) => ProveActionView::ProvisionSrs(request@),
            ProveAction::EncodeWitness { scalars } => ProveActionView::EncodeWitness {
                scalars: scalars.deep_view(),
            },
            ProveAction::StartProving => ProveActionView::StartProving,
            ProveAction::Prove { bytecode } => ProveActionView::Prove { bytecode: bytecode@ },
            ProveAction::Finish => ProveActionView::Finish,
        }
    }
}

impl ProveState {
    /// No event changes a finished state.
    pub open spec fn finished(self) -> bool {
        self is Done || self is Failed
    }

    /// How far along the pipeline the state is.
    pub open spec fn rank(self) -> nat {
        match self {
            ProveState::Idle => 0,
            ProveState::SrsReady => 1,
            ProveState::WitnessReady => 2,
            ProveState::Proving => 3,
            ProveState::Done(_) => 4,
            ProveState::Failed(_) => 4,
        }
    }
}

/// The state after `event` arrives in `state`.
///
/// Each state awaits the outcome of one stage. Success moves one state on,
/// failure ends the call with that stage's error, and an event that the
/// state does not await leaves it as it is.
pub open spec fn prove_next(state: ProveState, event: ProveEvent) -> ProveState {
    match state {
        ProveState::Idle => match event {
            ProveEvent::SrsProvisioned => ProveState::SrsReady,
            ProveEvent::SrsUnavailable => ProveState::Failed(ErrorKind::SrsProvisionError),
            _ => state,
        },
        ProveState::SrsReady => match event {
            ProveEvent::WitnessEncoded => ProveState::WitnessReady,
            ProveEvent::WitnessRejected => ProveState::Failed(ErrorKind::WitnessEncodingError),
            _ => state,
        },
        ProveState::WitnessReady => match event {
            ProveEvent::ProvingStarted => ProveState::Proving,
            _ => state,
        },
        ProveState::Proving => match event {
            ProveEvent::ProofProduced(proof) => ProveState::Done(proof),
            ProveEvent::ProverFailed => ProveState::Failed(ErrorKind::ProveError),
            _ => state,
        },
        ProveState::Done(_) => state,
        ProveState::Failed(_) => state,
    }
}

/// The state after a whole sequence of events, taken in order.
pub open spec fn prove_run(state: ProveState, events: Seq<ProveEvent>) -> ProveState
    decreases events.len(),
{
    if events.len() == 0 {
        state
    } else {
        prove_run(prove_next(state, events[0]), events.skip(1))
    }
}

/// One proving call: the circuit, where the reference string is cached, the
/// canonical scalars, and how far the call has come.
#[derive(Debug)]
pub struct ProvePipeline {
    pub circuit: CircuitDescriptor,
    pub srs_path: Option<String>,
    pub scalars: Vec<String>,
    pub state: ProveState,
}

impl ProvePipeline {
    /// Starts a call in `Idle`, with the inputs normalized in the order
    /// given.
    pub fn new(circuit: CircuitDescriptor, srs_path: Option<String>, inputs: &Vec<Scalar>) -> (r:
        ProvePipeline)
        ensures
            r.circuit == circuit,
            r.srs_path == srs_path,
            r.state == ProveState::Idle,
            r.scalars.deep_view() == canonical_inputs(inputs@),
    {
        ProvePipeline { circuit, srs_path, scalars: normalize_inputs(inputs), state: ProveState::Idle }
    }

    /// The action that the state asks for.
    ///
    /// The reference string is provisioned for this circuit's bytecode at the
    /// stored path, the encoder gets the canonical scalars, and the prover
    /// gets the same bytecode.
    pub open spec fn pending(self) -> ProveActionView {
        match self.state {
            ProveState::Idle => ProveActionView::ProvisionSrs(
                srs_request_for(self.circuit, self.srs_path),
            ),
            ProveState::SrsReady => ProveActionView::EncodeWitness {
                scalars: self.scalars.deep_view(),
            },
            ProveState::WitnessReady => ProveActionView::StartProving,
            ProveState::Proving => ProveActionView::Prove { bytecode: self.circuit@ },
            ProveState::Done(_) => ProveActionView::Finish,
            ProveState::Failed(_) => ProveActionView::Finish,
        }
    }

    /// What is to be done next, and with what.
    pub fn action(&self) -> (r: ProveAction<'_>)
        ensures
            r@ == self.pending(),
    {
        match &self.state {
            ProveState::Idle => ProveAction::ProvisionSrs(srs_request(&self.circuit, &self.srs_path)),
            ProveState::SrsReady => ProveAction::EncodeWitness { scalars: &self.scalars },
            ProveState::WitnessReady => ProveAction::StartProving,
            ProveState::Proving => ProveAction::Prove { bytecode: self.circuit.bytecode() },
            ProveState::Done(_) => ProveAction::Finish,
            ProveState::Failed(_) => ProveAction::Finish,
        }
    }

    /// Takes one event. Only the state changes, as `prove_next` says.
    pub fn step(&mut self, event: ProveEvent)
        ensures
            final(self).state == prove_next(old(self).state, event),
            final(self).circuit == old(self).circuit,
            final(self).srs_path == old(self).srs_path,
            final(self).scalars == old(self).scalars,
    {
        match &self.state {
            ProveState::Idle => match event {
                ProveEvent::SrsProvisioned => {
                    self.state = ProveState::SrsReady;
                },
                ProveEvent::SrsUnavailable => {
                    self.state = ProveState::Failed(ErrorKind::SrsProvisionError);
                },
                _ => {},
            },
            ProveState::SrsReady => match event {
                ProveEvent::WitnessEncoded => {
                    self.state = ProveState::WitnessReady;
                },
                ProveEvent::WitnessRejected => {
                    self.state = ProveState::Failed(ErrorKind::WitnessEncodingError);
                },
                _ => {},
            },
            ProveState::WitnessReady => match event {
                ProveEvent::ProvingStarted => {
                    self.state = ProveState::Proving;
                },
                _ => {},
            },
            ProveState::Proving => match event {
                ProveEvent::ProofProduced(proof) => {
                    self.state = ProveState::Done(proof);
                },
                ProveEvent::ProverFailed => {
                    self.state = ProveState::Failed(ErrorKind::ProveError);
                },
                _ => {},
            },
            ProveState::Done(_) => {},
            ProveState::Failed(_) => {},
        }
    }

    /// Whether the call has ended, with a proof or with a failure.
    pub fn is_finished(&self) -> (r: bool)
        ensures
            r == self.state.finished(),
    {
        match &self.state {
            ProveState::Done(_) => true,
            ProveState::Failed(_) => true,
            _ => false,
        }
    }

    /// The result of a finished call: the proof bytes as the engine produced
    /// them, or the failure. `None` while the call is still under way.
    pub fn into_outcome(self) -> (r: Option<Result<Vec<u8>, ErrorKind>>)
        ensures
            r == match self.state {
                ProveState::Done(proof) => Some(Ok::<Vec<u8>, ErrorKind>(proof)),
                ProveState::Failed(kind) => Some(Err::<Vec<u8>, ErrorKind>(kind)),
                _ => None::<Result<Vec<u8>, ErrorKind>>,
            },
    {
        match self.state {
            ProveState::Done(proof) => Some(Ok(proof)),
            ProveState::Failed(kind) => Some(Err(kind)),
            _ => None,
        }
    }
}

/// A finished call stays as it is: no event revives a failed call or
/// replaces a delivered proof.
pub proof fn lemma_prove_finished_is_final(state: ProveState, events: Seq<ProveEvent>)
    requires
        state.finished(),
    ensures
        prove_run(state, events) == state,
    decreases events.len(),
{
    if events.len() > 0 {
        lemma_prove_finished_is_final(state, events.skip(1));
    }
}

/// The pipeline never steps back, and moves at most one state per event
/// unless the event ends the call.
pub proof fn lemma_prove_is_linear(state: ProveState, event: ProveEvent)
    ensures
        prove_next(state, event).rank() >= state.rank(),
        !prove_next(state, event).finished() ==> prove_next(state, event).rank() <= state.rank()
            + 1,
{
}

/// A proof is delivered only from `Proving`, on the engine's own answer, and
/// holds the engine's bytes unchanged.
pub proof fn lemma_proof_is_engine_bytes(state: ProveState, event: ProveEvent)
    requires
        !(state is Done),
        prove_next(state, event) is Done,
    ensures
        state is Proving,
        event == ProveEvent::ProofProduced(prove_next(state, event)->Done_0),
{
}

/// A stage that fails ends the call with that stage's error, never with a
/// proof: a reference string that cannot be had, a scalar that the decoder
/// refuses, and any failure of the prover, such as a witness of the wrong
/// arity.
pub proof fn lemma_prove_failure_is_typed(state: ProveState, event: ProveEvent)
    requires
        !state.finished(),
        prove_next(state, event) is Failed,
    ensures
        prove_next(state, event)->Failed_0 == (match state {
            ProveState::Idle => ErrorKind::SrsProvisionError,
            ProveState::SrsReady => ErrorKind::WitnessEncodingError,
            _ => ErrorKind::ProveError,
        }),
        state is Idle ==> event is SrsUnavailable,
        state is SrsReady ==> event is WitnessRejected,
        !(state is Idle) && !(state is SrsReady) ==> state is Proving && event is ProverFailed,
{
}

/// Two calls on the same circuit, cache path and scalars that have come
/// equally far ask for the same work with the same values, now and after
/// any further events that both receive.
pub proof fn lemma_prove_is_deterministic(
    a: ProvePipeline,
    b: ProvePipeline,
    events: Seq<ProveEvent>,
)
    requires
        a.circuit@ == b.circuit@,
        path_text(a.srs_path) == path_text(b.srs_path),
        a.scalars.deep_view() == b.scalars.deep_view(),
        a.state == b.state,
    ensures
        a.pending() == b.pending(),
        (ProvePipeline { state: prove_run(a.state, events), ..a }).pending() == (ProvePipeline {
            state: prove_run(b.state, events),
            ..b
        }).pending(),
{
}

/// When every stage succeeds, the call ends with the engine's proof.
pub proof fn lemma_prove_succeeds(proof: Vec<u8>)
    ensures
        prove_run(
            ProveState::Idle,
            seq![
                ProveEvent::SrsProvisioned,
                ProveEvent::WitnessEncoded,
                ProveEvent::ProvingStarted,
                ProveEvent::ProofProduced(proof),
            ],
        ) == ProveState::Done(proof),
{
    let events = seq![
        ProveEvent::SrsProvisioned,
        ProveEvent::WitnessEncoded,
        ProveEvent::ProvingStarted,
        ProveEvent::ProofProduced(proof),
    ];
    reveal_with_fuel(prove_run, 5);
    assert(events.skip(1).skip(1).skip(1).skip(1).len() == 0);
}

} // verus!
