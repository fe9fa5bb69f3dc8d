use semaphore_noir::circuit::{load_circuit, CircuitDescriptor};
use semaphore_noir::error::ErrorKind;
use semaphore_noir::prove::{ProveEvent, ProvePipeline};
use semaphore_noir::verify::{VerifyAction, VerifyEvent, VerifyPipeline, VerifyState};
use semaphore_noir::witness::Scalar;

fn circuit() -> CircuitDescriptor {
    load_circuit("{\"bytecode\":\"H4sIAAAA\"}").unwrap()
}

fn pipeline(proof: Vec<u8>) -> VerifyPipeline {
    VerifyPipeline::new(circuit(), Some("cache/semaphore.srs".to_string()), proof)
}

fn at(state: VerifyState) -> VerifyPipeline {
    let mut v = pipeline(vec![5, 6]);
    v.state = state;
    v
}

#[test]
fn verify_starts_idle_with_the_proof_as_given() {
    let v = pipeline(vec![0, 1, 2]);
    assert_eq!(v.state, VerifyState::Idle);
    assert_eq!(v.proof, vec![0, 1, 2]);
    assert_eq!(v.circuit.bytecode(), "H4sIAAAA");
    assert_eq!(v.srs_path, Some("cache/semaphore.srs".to_string()));
    assert!(!v.is_finished());
}

#[test]
fn verify_runs_through_to_acceptance() {
    let mut v = pipeline(vec![7, 7, 1]);
    match v.action() {
        VerifyAction::ProvisionSrs(request) => {
            assert_eq!(request.bytecode, "H4sIAAAA");
            assert_eq!(request.cache_path, Some("cache/semaphore.srs"));
        }
        other => panic!("unexpected action {:?}", other),
    }
    v.step(VerifyEvent::SrsProvisioned);
    assert_eq!(v.state, VerifyState::SrsReady);
    match v.action() {
        VerifyAction::DeriveKey { bytecode } => assert_eq!(bytecode, "H4sIAAAA"),
        other => panic!("unexpected action {:?}", other),
    }
    v.step(VerifyEvent::KeyDerived);
    assert_eq!(v.state, VerifyState::VkDerived);
    assert!(matches!(v.action(), VerifyAction::StartVerifying));
    v.step(VerifyEvent::VerifyingStarted);
    assert_eq!(v.state, VerifyState::Verifying);
    match v.action() {
        VerifyAction::Verify { proof } => assert_eq!(proof, &vec![7, 7, 1]),
        other => panic!("unexpected action {:?}", other),
    }
    v.step(VerifyEvent::Verdict(true));
    assert_eq!(v.state, VerifyState::Done(true));
    assert!(matches!(v.action(), VerifyAction::Finish));
    assert!(v.is_finished());
    assert_eq!(v.into_outcome(), Some(Ok(true)));
}

#[test]
fn verify_rejection_is_a_verdict_not_a_failure() {
    let mut v = pipeline(vec![7, 7, 0]);
    v.step(VerifyEvent::SrsProvisioned);
    v.step(VerifyEvent::KeyDerived);
    v.step(VerifyEvent::VerifyingStarted);
    v.step(VerifyEvent::Verdict(false));
    assert_eq!(v.state, VerifyState::Done(false));
    assert!(v.is_finished());
    assert_eq!(v.into_outcome(), Some(Ok(false)));
}

#[test]
fn verify_without_cache_path_asks_for_an_ephemeral_srs() {
    let v = VerifyPipeline::new(circuit(), None, Vec::new());
    match v.action() {
        VerifyAction::ProvisionSrs(request) => assert_eq!(request.cache_path, None),
        other => panic!("unexpected action {:?}", other),
    }
}

#[test]
fn verify_fails_when_srs_is_unavailable() {
    let mut v = pipeline(vec![1]);
    v.step(VerifyEvent::SrsUnavailable);
    assert_eq!(v.state, VerifyState::Failed(ErrorKind::SrsProvisionError));
    assert_eq!(v.into_outcome(), Some(Err(ErrorKind::SrsProvisionError)));
}

#[test]
fn verify_fails_when_no_key_can_be_derived() {
    let mut v = pipeline(vec![1]);
    v.step(VerifyEvent::SrsProvisioned);
    v.step(VerifyEvent::KeyUnavailable);
    assert_eq!(v.state, VerifyState::Failed(ErrorKind::VerifyError));
    assert_eq!(v.into_outcome(), Some(Err(ErrorKind::VerifyError)));
}

#[test]
fn verify_fails_when_the_verifier_fails() {
    let mut v = pipeline(vec![1]);
    v.step(VerifyEvent::SrsProvisioned);
    v.step(VerifyEvent::KeyDerived);
    v.step(VerifyEvent::VerifyingStarted);
    v.step(VerifyEvent::VerifierFailed);
    assert_eq!(v.state, VerifyState::Failed(ErrorKind::VerifyError));
    assert!(matches!(v.action(), VerifyAction::Finish));
    assert_eq!(v.into_outcome(), Some(Err(ErrorKind::VerifyError)));
}

#[test]
fn verify_failure_is_final() {
    let mut v = pipeline(vec![1]);
    v.step(VerifyEvent::SrsUnavailable);
    v.step(VerifyEvent::SrsProvisioned);
    v.step(VerifyEvent::KeyDerived);
    v.step(VerifyEvent::VerifyingStarted);
    v.step(VerifyEvent::Verdict(true));
    assert_eq!(v.state, VerifyState::Failed(ErrorKind::SrsProvisionError));
}

#[test]
fn verify_verdict_is_final() {
    let mut v = at(VerifyState::Done(false));
    v.step(VerifyEvent::Verdict(true));
    v.step(VerifyEvent::VerifierFailed);
    v.step(VerifyEvent::SrsUnavailable);
    assert_eq!(v.state, VerifyState::Done(false));
}

#[test]
fn verify_ignores_events_out_of_turn() {
    let mut v = pipeline(vec![1]);
    v.step(VerifyEvent::KeyDerived);
    v.step(VerifyEvent::KeyUnavailable);
    v.step(VerifyEvent::VerifyingStarted);
    v.step(VerifyEvent::Verdict(true));
    v.step(VerifyEvent::VerifierFailed);
    assert_eq!(v.state, VerifyState::Idle);

    let mut v = at(VerifyState::SrsReady);
    v.step(VerifyEvent::SrsProvisioned);
    v.step(VerifyEvent::SrsUnavailable);
    v.step(VerifyEvent::VerifyingStarted);
    v.step(VerifyEvent::Verdict(true));
    v.step(VerifyEvent::VerifierFailed);
    assert_eq!(v.state, VerifyState::SrsReady);

    let mut v = at(VerifyState::VkDerived);
    v.step(VerifyEvent::SrsUnavailable);
    v.step(VerifyEvent::KeyUnavailable);
    v.step(VerifyEvent::Verdict(true));
    v.step(VerifyEvent::VerifierFailed);
    assert_eq!(v.state, VerifyState::VkDerived);

    let mut v = at(VerifyState::Verifying);
    v.step(VerifyEvent::SrsUnavailable);
    v.step(VerifyEvent::KeyUnavailable);
    v.step(VerifyEvent::VerifyingStarted);
    assert_eq!(v.state, VerifyState::Verifying);
}

#[test]
fn verify_step_leaves_the_proof_alone() {
    let mut v = pipeline(vec![4, 3, 2, 1]);
    v.step(VerifyEvent::SrsProvisioned);
    v.step(VerifyEvent::KeyDerived);
    v.step(VerifyEvent::VerifyingStarted);
    v.step(VerifyEvent::Verdict(false));
    assert_eq!(v.proof, vec![4, 3, 2, 1]);
    assert_eq!(v.circuit.bytecode(), "H4sIAAAA");
    assert_eq!(v.srs_path, Some("cache/semaphore.srs".to_string()));
}

#[test]
fn verify_outcome_is_none_while_under_way() {
    assert_eq!(at(VerifyState::Idle).into_outcome(), None);
    assert_eq!(at(VerifyState::SrsReady).into_outcome(), None);
    assert_eq!(at(VerifyState::VkDerived).into_outcome(), None);
    assert_eq!(at(VerifyState::Verifying).into_outcome(), None);
}

/// Stands in for the engine: it "proves" by handing out fixed bytes and
/// accepts exactly those bytes.
fn drive_round_trip(tamper: bool) -> Option<Result<bool, ErrorKind>> {
    let engine_proof: Vec<u8> = vec![0xde, 0xad, 0xbe, 0xef];
    let inputs = vec![Scalar::Decimal("1".to_string()), Scalar::Byte(2)];
    let mut p = ProvePipeline::new(circuit(), None, &inputs);
    p.step(ProveEvent::SrsProvisioned);
    p.step(ProveEvent::WitnessEncoded);
    p.step(ProveEvent::ProvingStarted);
    p.step(ProveEvent::ProofProduced(engine_proof.clone()));
    let mut delivered = p.into_outcome().unwrap().unwrap();
    if tamper {
        delivered[2] ^= 0x01;
    }
    let mut v = VerifyPipeline::new(circuit(), None, delivered);
    v.step(VerifyEvent::SrsProvisioned);
    v.step(VerifyEvent::KeyDerived);
    v.step(VerifyEvent::VerifyingStarted);
    let accepted = match v.action() {
        VerifyAction::Verify { proof } => *proof == engine_proof,
        other => panic!("unexpected action {:?}", other),
    };
    v.step(VerifyEvent::Verdict(accepted));
    v.into_outcome()
}

#[test]
fn round_trip_hands_the_proof_over_unchanged() {
    assert_eq!(drive_round_trip(false), Some(Ok(true)));
}

#[test]
fn tampered_proof_is_rejected_not_failed() {
    assert_eq!(drive_round_trip(true), Some(Ok(false)));
}

#[test]
fn two_runs_on_the_same_inputs_agree() {
    assert_eq!(drive_round_trip(false), drive_round_trip(false));
}
