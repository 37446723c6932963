use erc20_host::action::{action_blobs, encode_action, Erc20Action};
use erc20_host::error::{PipelineError, SubmitPhase};
use erc20_host::model::{build_input, copy_blobs, Blob};
use erc20_host::outcome::{validate_outcome, ExecutionOutcome};
use erc20_host::pipeline::{Command, Event, Pipeline, PipelineConfig, Stage};

fn transfer(to: &str, amount: u128) -> Erc20Action {
    Erc20Action::Transfer { recipient: to.to_string(), amount }
}

fn pipeline(reproducible: bool, from: &str, blobs: Vec<Blob>) -> Pipeline {
    let config = PipelineConfig { contract_name: "simple_token".to_string(), reproducible };
    Pipeline::new(config, from.to_string(), blobs)
}

/// A stand-in ledger that records what it was sent.
struct MockLedger {
    blob_calls: Vec<(String, usize)>,
    proof_calls: Vec<(String, Vec<u8>, String)>,
    accept_blob: bool,
}

impl MockLedger {
    fn new(accept_blob: bool) -> MockLedger {
        MockLedger { blob_calls: vec![], proof_calls: vec![], accept_blob }
    }
}

/// Drives a pipeline to its end: the engine answers with `artifact` and
/// `outcome`, the ledger with the mock's answers. Returns the final command.
fn drive(
    p: &mut Pipeline,
    ledger: &mut MockLedger,
    binary_present: bool,
    artifact: Vec<u8>,
    outcome: Option<ExecutionOutcome>,
) -> Command {
    let mut outcome = Some(outcome);
    let mut artifact = Some(artifact);
    let mut cmd = p.step(Event::Start);
    loop {
        let event = match cmd {
            Command::ReadBinary => {
                if binary_present {
                    Event::BinaryLoaded
                } else {
                    Event::BinaryMissing
                }
            }
            Command::Prove => Event::Proved(artifact.take().unwrap()),
            Command::DecodeOutcome => Event::Decoded(outcome.take().unwrap()),
            Command::SubmitBlob(tx) => {
                ledger.blob_calls.push((tx.identity.clone(), tx.blobs.len()));
                if ledger.accept_blob {
                    Event::BlobAccepted("H".to_string())
                } else {
                    Event::BlobRejected
                }
            }
            Command::SubmitProof(tx) => {
                ledger.proof_calls.push((tx.blob_tx_hash, tx.proof, tx.contract_name));
                Event::ProofAccepted("P".to_string())
            }
            other => return other,
        };
        cmd = p.step(event);
    }
}

fn ok_outcome() -> Option<ExecutionOutcome> {
    Some(ExecutionOutcome { success: true, program_outputs: b"ok".to_vec() })
}

#[test]
fn transfer_50_submits_blob_then_proof_with_its_hash() {
    let blobs = action_blobs(&transfer("bob.token", 50), &"simple_token".to_string());
    let input = build_input(vec![7, 7], "alice.token".to_string(), copy_blobs(&blobs), 0);
    assert_eq!(input.tx_hash, "");
    assert!(input.private_blob.is_empty());
    assert_eq!(input.blobs.len(), 1);
    assert_eq!(input.index, 0);
    let mut p = pipeline(false, "alice.token", blobs);
    let mut ledger = MockLedger::new(true);
    let last = drive(&mut p, &mut ledger, true, vec![1, 2, 3], ok_outcome());
    assert!(matches!(last, Command::Finish(ref h) if h == "P"));
    assert_eq!(p.stage(), Stage::Done);
    assert_eq!(ledger.blob_calls, vec![("alice.token".to_string(), 1)]);
    assert_eq!(
        ledger.proof_calls,
        vec![("H".to_string(), vec![1, 2, 3], "simple_token".to_string())]
    );
}

#[test]
fn transfer_500_is_rejected_with_program_text_and_no_calls() {
    let blobs = action_blobs(&transfer("bob.token", 500), &"simple_token".to_string());
    let mut p = pipeline(false, "alice.token", blobs);
    let mut ledger = MockLedger::new(true);
    let outcome = ExecutionOutcome {
        success: false,
        program_outputs: b"insufficient balance".to_vec(),
    };
    let last = drive(&mut p, &mut ledger, true, vec![9], Some(outcome));
    match last {
        Command::Abort(e) => {
            assert!(e.is_semantic_rejection());
            assert!(matches!(e, PipelineError::SemanticRejection(ref t) if t == "insufficient balance"));
        }
        _ => panic!("expected a semantic rejection"),
    }
    assert_eq!(p.stage(), Stage::Failed);
    assert!(ledger.blob_calls.is_empty());
    assert!(ledger.proof_calls.is_empty());
}

#[test]
fn missing_reproducible_binary_is_a_configuration_error_before_proving() {
    let blobs = action_blobs(&transfer("bob.token", 50), &"simple_token".to_string());
    let mut p = pipeline(true, "alice.token", blobs);
    assert!(matches!(p.step(Event::Start), Command::ReadBinary));
    let cmd = p.step(Event::BinaryMissing);
    assert!(matches!(cmd, Command::Abort(PipelineError::Configuration)));
    assert_eq!(p.stage(), Stage::Failed);
    assert!(matches!(p.step(Event::BinaryLoaded), Command::Wait));
    assert!(matches!(p.step(Event::Start), Command::Wait));
}

#[test]
fn reproducible_binary_present_leads_to_proving() {
    let blobs = action_blobs(&transfer("bob.token", 50), &"simple_token".to_string());
    let mut p = pipeline(true, "alice.token", blobs);
    let mut ledger = MockLedger::new(true);
    let last = drive(&mut p, &mut ledger, true, vec![4, 5], ok_outcome());
    assert!(matches!(last, Command::Finish(_)));
    assert_eq!(ledger.proof_calls.len(), 1);
}

#[test]
fn undecodable_artifact_is_an_encoding_error_with_no_calls() {
    let blobs = action_blobs(&transfer("bob.token", 50), &"simple_token".to_string());
    let mut p = pipeline(false, "alice.token", blobs);
    let mut ledger = MockLedger::new(true);
    let last = drive(&mut p, &mut ledger, true, vec![1], None);
    assert!(matches!(last, Command::Abort(PipelineError::Encoding)));
    assert!(ledger.blob_calls.is_empty());
    assert!(ledger.proof_calls.is_empty());
}

#[test]
fn non_utf8_diagnostic_is_an_encoding_error() {
    let outcome = Some(ExecutionOutcome { success: false, program_outputs: vec![0xff, 0xfe] });
    assert!(matches!(validate_outcome(&outcome), Err(PipelineError::Encoding)));
}

#[test]
fn validator_passes_success_and_rejects_failure() {
    assert!(validate_outcome(&ok_outcome()).is_ok());
    let failed = Some(ExecutionOutcome { success: false, program_outputs: b"no".to_vec() });
    assert!(matches!(validate_outcome(&failed), Err(PipelineError::SemanticRejection(ref t)) if t == "no"));
    assert!(matches!(validate_outcome(&None), Err(PipelineError::Encoding)));
}

#[test]
fn blob_failure_stops_before_any_proof_submission() {
    let blobs = action_blobs(&transfer("bob.token", 50), &"simple_token".to_string());
    let mut p = pipeline(false, "alice.token", blobs);
    let mut ledger = MockLedger::new(false);
    let last = drive(&mut p, &mut ledger, true, vec![1], ok_outcome());
    assert!(matches!(last, Command::Abort(PipelineError::Network(SubmitPhase::Blob))));
    assert_eq!(ledger.blob_calls.len(), 1);
    assert!(ledger.proof_calls.is_empty());
    assert!(matches!(p.step(Event::BlobAccepted("late".to_string())), Command::Wait));
}

#[test]
fn proof_is_not_sent_before_blob_result() {
    let blobs = action_blobs(&transfer("bob.token", 50), &"simple_token".to_string());
    let mut p = pipeline(false, "alice.token", blobs);
    assert!(matches!(p.step(Event::Start), Command::Prove));
    assert!(matches!(p.step(Event::BlobAccepted("early".to_string())), Command::Wait));
    assert!(matches!(p.step(Event::Proved(vec![3])), Command::DecodeOutcome));
    assert_eq!(p.artifact(), &vec![3u8]);
    assert!(matches!(p.step(Event::BlobAccepted("early".to_string())), Command::Wait));
    assert!(matches!(p.step(Event::Decoded(ok_outcome())), Command::SubmitBlob(_)));
    assert_eq!(p.stage(), Stage::SubmittingBlob);
    match p.step(Event::BlobAccepted("H1".to_string())) {
        Command::SubmitProof(tx) => {
            assert_eq!(tx.blob_tx_hash, "H1");
            assert_eq!(tx.proof, vec![3]);
        }
        _ => panic!("expected the proof submission"),
    }
}

#[test]
fn proof_submission_failure_is_a_network_error() {
    let blobs = action_blobs(&transfer("bob.token", 50), &"simple_token".to_string());
    let mut p = pipeline(false, "alice.token", blobs);
    p.step(Event::Start);
    p.step(Event::Proved(vec![1]));
    p.step(Event::Decoded(ok_outcome()));
    p.step(Event::BlobAccepted("H".to_string()));
    let cmd = p.step(Event::ProofRejected);
    assert!(matches!(cmd, Command::Abort(PipelineError::Network(SubmitPhase::Proof))));
    assert_eq!(p.stage(), Stage::Failed);
}

#[test]
fn engine_failure_is_a_proving_engine_error() {
    let blobs = action_blobs(&transfer("bob.token", 50), &"simple_token".to_string());
    let mut p = pipeline(false, "alice.token", blobs);
    p.step(Event::Start);
    assert!(matches!(p.step(Event::EngineFailed), Command::Abort(PipelineError::ProvingEngine)));
    assert!(!PipelineError::ProvingEngine.is_semantic_rejection());
}

#[test]
fn encoding_is_identical_twice() {
    let name = "simple_token".to_string();
    let a = encode_action(&transfer("bob.token", 50), &name);
    let b = encode_action(&transfer("bob.token", 50), &name);
    assert_eq!(a.data, b.data);
    assert_eq!(a.contract_name, b.contract_name);
}

#[test]
fn transfer_encoding_bytes() {
    let blob = encode_action(&transfer("bob.token", 50), &"simple_token".to_string());
    let mut expected = vec![0u8, 9];
    expected.extend_from_slice(b"bob.token");
    expected.push(50);
    assert_eq!(blob.data, expected);
    assert_eq!(blob.contract_name, "simple_token");
    let big = encode_action(&transfer("b", 1000), &"t".to_string());
    assert_eq!(big.data, vec![0, 1, b'b', 251, 0xe8, 0x03]);
}
