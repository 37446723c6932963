use vstd::prelude::*;

use crate::error::ErrorView;
use crate::outcome::{utf8_text, verdict, OutcomeView};
use crate::pipeline::{transition, CommandView, EventView, PipelineModel, Stage};

verus! {

/// The model after a sequence of events, and the command each event brought
/// about, in order.
pub open spec fn run(m: PipelineModel, events: Seq<EventView>) -> (PipelineModel, Seq<CommandView>)
    decreases events.len(),
{
    if events.len() == 0 {
        (m, Seq::empty())
    } else {
        let prev = run(m, events.drop_last());
        let next = transition(prev.0, events.last());
        (next.0, prev.1.push(next.1))
    }
}

/// The model just before the event at position `i` is taken.
pub open spec fn state_before(m: PipelineModel, events: Seq<EventView>, i: int) -> PipelineModel {
    run(m, events.take(i)).0
}

/// Stages in the order a run passes through them; a failure comes last.
pub open spec fn rank(s: Stage) -> nat {
    match s {
        Stage::Building => 0,
        Stage::Proving => 1,
        Stage::Validating => 2,
        Stage::SubmittingBlob => 3,
        Stage::SubmittingProof => 4,
        Stage::Done => 5,
        Stage::Failed => 6,
    }
}

/// Whether a command sends something to the ledger.
pub open spec fn is_submission(c: CommandView) -> bool {
    c is SubmitBlob || c is SubmitProof
}

proof fn lemma_run_len(m: PipelineModel, events: Seq<EventView>)
    ensures
        run(m, events).1.len() == events.len(),
    decreases events.len(),
{
    if events.len() > 0 {
        lemma_run_len(m, events.drop_last());
    }
}

proof fn lemma_start(m: PipelineModel, events: Seq<EventView>)
    ensures
        state_before(m, events, 0) == m,
{
    assert(events.take(0) =~= Seq::<EventView>::empty());
}

proof fn lemma_state_step(m: PipelineModel, events: Seq<EventView>, i: int)
    requires
        0 <= i < events.len(),
    ensures
        state_before(m, events, i + 1) == transition(state_before(m, events, i), events[i]).0,
{
    assert(events.take(i + 1).drop_last() =~= events.take(i));
}

proof fn lemma_command_at(m: PipelineModel, events: Seq<EventView>, i: int)
    requires
        0 <= i < events.len(),
    ensures
        run(m, events).1[i] == transition(state_before(m, events, i), events[i]).1,
    decreases events.len(),
{
    let prefix = events.drop_last();
    lemma_run_len(m, prefix);
    if i == events.len() - 1 {
        assert(events.take(i) =~= prefix);
    } else {
        lemma_command_at(m, prefix, i);
        assert(prefix.take(i) =~= events.take(i));
    }
}

proof fn lemma_rank_grows(m: PipelineModel, events: Seq<EventView>, a: int, b: int)
    requires
        0 <= a <= b <= events.len(),
    ensures
        rank(state_before(m, events, a).stage) <= rank(state_before(m, events, b).stage),
    decreases b - a,
{
    if a < b {
        lemma_rank_grows(m, events, a, b - 1);
        lemma_state_step(m, events, b - 1);
    }
}

proof fn lemma_fixed_fields(m: PipelineModel, events: Seq<EventView>, i: int)
    requires
        0 <= i <= events.len(),
    ensures
        state_before(m, events, i).identity == m.identity,
        state_before(m, events, i).blobs == m.blobs,
        state_before(m, events, i).contract_name == m.contract_name,
    decreases i,
{
    if i == 0 {
        lemma_start(m, events);
    } else {
        lemma_fixed_fields(m, events, i - 1);
        lemma_state_step(m, events, i - 1);
    }
}

proof fn lemma_failed_stays(m: PipelineModel, events: Seq<EventView>, a: int, i: int)
    requires
        0 <= a <= i < events.len(),
        state_before(m, events, a).stage == Stage::Failed,
    ensures
        run(m, events).1[i] == CommandView::Wait,
{
    lemma_rank_grows(m, events, a, i);
    lemma_command_at(m, events, i);
}

proof fn lemma_blob_sent_earlier(m: PipelineModel, events: Seq<EventView>, i: int)
    requires
        0 <= i <= events.len(),
        m.stage != Stage::SubmittingBlob,
        state_before(m, events, i).stage == Stage::SubmittingBlob,
    ensures
        exists|j: int|
            0 <= j < i && #[trigger] run(m, events).1[j] == (CommandView::SubmitBlob {
                identity: m.identity,
                blobs: m.blobs,
            }),
    decreases i,
{
    if i == 0 {
        lemma_start(m, events);
    } else if state_before(m, events, i - 1).stage == Stage::SubmittingBlob {
        lemma_blob_sent_earlier(m, events, i - 1);
        let j = choose|j: int|
            0 <= j < i - 1 && #[trigger] run(m, events).1[j] == (CommandView::SubmitBlob {
                identity: m.identity,
                blobs: m.blobs,
            });
        assert(run(m, events).1[j] == (CommandView::SubmitBlob {
            identity: m.identity,
            blobs: m.blobs,
        }));
    } else {
        lemma_state_step(m, events, i - 1);
        lemma_command_at(m, events, i - 1);
        lemma_fixed_fields(m, events, i - 1);
        assert(run(m, events).1[i - 1] == (CommandView::SubmitBlob {
            identity: m.identity,
            blobs: m.blobs,
        }));
    }
}

/// A proof transaction names, as the blob transaction's hash, exactly the
/// hash that the ledger returned for the blob transaction, and carries the
/// artifact the engine produced: in every run, the command that submits a
/// proof is the answer to the acceptance of the blob transaction.
pub proof fn law_proof_carries_blob_hash(m: PipelineModel, events: Seq<EventView>, i: int)
    requires
        0 <= i < events.len(),
        run(m, events).1[i] is SubmitProof,
    ensures
        events[i] == EventView::BlobAccepted(run(m, events).1[i]->SubmitProof_blob_tx_hash),
        state_before(m, events, i).stage == Stage::SubmittingBlob,
        run(m, events).1[i]->SubmitProof_proof == state_before(m, events, i).proof,
        run(m, events).1[i]->SubmitProof_contract_name == m.contract_name,
{
    lemma_command_at(m, events, i);
    lemma_fixed_fields(m, events, i);
}

/// The proof is never submitted before the blob: in a run that starts before
/// the blob stage, every proof submission answers an accepted blob
/// transaction and follows the submission of that run's blob transaction.
pub proof fn law_blob_before_proof(m: PipelineModel, events: Seq<EventView>, i: int)
    requires
        rank(m.stage) < rank(Stage::SubmittingBlob),
        0 <= i < events.len(),
        run(m, events).1[i] is SubmitProof,
    ensures
        events[i] is BlobAccepted,
        exists|j: int|
            0 <= j < i && #[trigger] run(m, events).1[j] == (CommandView::SubmitBlob {
                identity: m.identity,
                blobs: m.blobs,
            }),
{
    lemma_command_at(m, events, i);
    lemma_blob_sent_earlier(m, events, i);
}

/// Once the blob transaction fails, nothing more is sent: every later event
/// brings about no command at all.
pub proof fn law_nothing_after_blob_failure(
    m: PipelineModel,
    events: Seq<EventView>,
    k: int,
    i: int,
)
    requires
        0 <= k < i < events.len(),
        state_before(m, events, k).stage == Stage::SubmittingBlob,
        events[k] == EventView::BlobRejected,
    ensures
        run(m, events).1[i] == CommandView::Wait,
{
    lemma_state_step(m, events, k);
    lemma_failed_stays(m, events, k + 1, i);
}

/// An artifact whose outcome is rejected, whether it failed to decode or the
/// guest program reported failure, ends the run with that error, and no
/// command of the run, before or after, sends anything to the ledger.
pub proof fn law_rejected_outcome_sends_nothing(
    m: PipelineModel,
    events: Seq<EventView>,
    k: int,
)
    requires
        0 <= k < events.len(),
        state_before(m, events, k).stage == Stage::Validating,
        events[k] is Decoded,
        verdict(events[k]->Decoded_0) is Err,
    ensures
        run(m, events).1[k] == CommandView::Abort(verdict(events[k]->Decoded_0)->Err_0),
        forall|i: int| 0 <= i < events.len() ==> !is_submission(#[trigger] run(m, events).1[i]),
{
    lemma_command_at(m, events, k);
    lemma_state_step(m, events, k);
    assert forall|i: int| 0 <= i < events.len() implies !is_submission(
        #[trigger] run(m, events).1[i],
    ) by {
        lemma_command_at(m, events, i);
        if i < k {
            lemma_rank_grows(m, events, i + 1, k);
            lemma_state_step(m, events, i);
        } else if i > k {
            lemma_failed_stays(m, events, k + 1, i);
        }
    }
}

/// An artifact that cannot be decoded into an outcome is an encoding error,
/// and nothing of the run reaches the ledger.
pub proof fn law_undecodable_artifact_fails_locally(
    m: PipelineModel,
    events: Seq<EventView>,
    k: int,
)
    requires
        0 <= k < events.len(),
        state_before(m, events, k).stage == Stage::Validating,
        events[k] == EventView::Decoded(None),
    ensures
        run(m, events).1[k] == CommandView::Abort(ErrorView::Encoding),
        forall|i: int| 0 <= i < events.len() ==> !is_submission(#[trigger] run(m, events).1[i]),
{
    law_rejected_outcome_sends_nothing(m, events, k);
}

/// An outcome in which the guest program reported failure stops the run
/// before anything reaches the ledger.
pub proof fn law_failed_execution_sends_nothing(
    m: PipelineModel,
    events: Seq<EventView>,
    k: int,
    o: OutcomeView,
)
    requires
        0 <= k < events.len(),
        state_before(m, events, k).stage == Stage::Validating,
        events[k] == EventView::Decoded(Some(o)),
        !o.success,
    ensures
        run(m, events).1[k] == CommandView::Abort(
            match utf8_text(o.program_outputs) {
                Some(t) => ErrorView::SemanticRejection(t),
                None => ErrorView::Encoding,
            },
        ),
        forall|i: int| 0 <= i < events.len() ==> !is_submission(#[trigger] run(m, events).1[i]),
{
    law_rejected_outcome_sends_nothing(m, events, k);
}

/// When the guest program accepts the action, a run without a reproducible
/// binary that is answered by the engine and the ledger submits the blob
/// transaction of its identity and blobs, then the proof transaction that
/// names the hash returned for it, and finishes.
pub proof fn law_accepted_run(
    m: PipelineModel,
    artifact: Seq<u8>,
    o: OutcomeView,
    blob_hash: Seq<char>,
    proof_hash: Seq<char>,
)
    requires
        m.stage == Stage::Building,
        !m.reproducible,
        o.success,
    ensures
        ({
            let events = seq![
                EventView::Start,
                EventView::Proved(artifact),
                EventView::Decoded(Some(o)),
                EventView::BlobAccepted(blob_hash),
                EventView::ProofAccepted(proof_hash),
            ];
            &&& run(m, events).0.stage == Stage::Done
            &&& run(m, events).1 == seq![
                CommandView::Prove,
                CommandView::DecodeOutcome,
                CommandView::SubmitBlob { identity: m.identity, blobs: m.blobs },
                CommandView::SubmitProof {
                    blob_tx_hash: blob_hash,
                    proof: artifact,
                    contract_name: m.contract_name,
                },
                CommandView::Finish(proof_hash),
            ]
        }),
{
    let events = seq![
        EventView::Start,
        EventView::Proved(artifact),
        EventView::Decoded(Some(o)),
        EventView::BlobAccepted(blob_hash),
        EventView::ProofAccepted(proof_hash),
    ];
    assert(events.drop_last().drop_last().drop_last().drop_last().drop_last() =~= Seq::<
        EventView,
    >::empty());
    reveal_with_fuel(run, 6);
    assert(run(m, events).1 =~= seq![
        CommandView::Prove,
        CommandView::DecodeOutcome,
        CommandView::SubmitBlob { identity: m.identity, blobs: m.blobs },
        CommandView::SubmitProof {
            blob_tx_hash: blob_hash,
            proof: artifact,
            contract_name: m.contract_name,
        },
        CommandView::Finish(proof_hash),
    ]);
}

} // verus!
