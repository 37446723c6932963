use vstd::prelude::*;

use crate::error::{ErrorView, PipelineError, SubmitPhase};
use crate::model::{
    blobs_view, copy_blobs, copy_bytes, Blob, BlobTransaction, BlobView, ProofTransaction,
};
use crate::outcome::{decoded_view, validate_outcome, verdict, ExecutionOutcome, OutcomeView};

verus! {

/// Where a pipeline run stands.
#[derive(Clone, Copy, PartialEq, Eq, Structural, Debug)]
pub enum Stage {
    Building,
    Proving,
    Validating,
    SubmittingBlob,
    SubmittingProof,
    Done,
    Failed,
}

/// Settings read once per process and fixed afterwards.
pub struct PipelineConfig {
    pub contract_name: String,
    pub reproducible: bool,
}

/// What the surrounding program reports back after carrying out a command.
pub enum Event {
    /// The run begins.
    Start,
    /// The reproducible guest binary was read.
    BinaryLoaded,
    /// The reproducible guest binary could not be read.
    BinaryMissing,
    /// The proving engine returned this proof artifact.
    Proved(Vec<u8>),
    /// The proving engine failed.
    EngineFailed,
    /// The artifact's outcome record, or `None` where it could not be decoded.
    Decoded(Option<ExecutionOutcome>),
    /// The ledger accepted the blob transaction under this hash.
    BlobAccepted(String),
    /// The blob transaction could not be submitted.
    BlobRejected,
    /// The ledger accepted the proof transaction under this hash.
    ProofAccepted(String),
    /// The proof transaction could not be submitted.
    ProofRejected,
}

/// An event as plain values.
pub enum EventView {
    Start,
    BinaryLoaded,
    BinaryMissing,
    Proved(Seq<u8>),
    EngineFailed,
    Decoded(Option<OutcomeView>),
    BlobAccepted(Seq<char>),
    BlobRejected,
    ProofAccepted(Seq<char>),
    ProofRejected,
}

impl View for Event {
    type V = EventView;

    open spec fn view(&self) -> EventView {
        match self {
            Event::Start => EventView::Start,
            Event::BinaryLoaded => EventView::BinaryLoaded,
            Event::BinaryMissing => EventView::BinaryMissing,
            Event::Proved(p) => EventView::Proved(p@),
            Event::EngineFailed => EventView::EngineFailed,
            Event::Decoded(o) => EventView::Decoded(decoded_view(*o)),
            Event::BlobAccepted(h) => EventView::BlobAccepted(h@),
            Event::BlobRejected => EventView::BlobRejected,
            Event::ProofAccepted(h) => EventView::ProofAccepted(h@),
            Event::ProofRejected => EventView::ProofRejected,
        }
    }
}

/// What the pipeline asks the surrounding program to do next.
pub enum Command {
    /// Read the reproducible guest binary.
    ReadBinary,
    /// Run the proving engine on the execution input.
    Prove,
    /// Decode the outcome record of the proof artifact.
    DecodeOutcome,
    /// Submit this blob transaction.
    SubmitBlob(BlobTransaction),
    /// Submit this proof transaction.
    SubmitProof(ProofTransaction),
    /// The proof transaction was accepted under this hash; nothing is left.
    Finish(String),
    /// The run stopped with this error.
    Abort(PipelineError),
    /// The event did not fit the stage; nothing to do.
    Wait,
}

/// A command as plain values.
pub enum CommandView {
    ReadBinary,
    Prove,
    DecodeOutcome,
    SubmitBlob { identity: Seq<char>, blobs: Seq<BlobView> },
    SubmitProof { blob_tx_hash: Seq<char>, proof: Seq<u8>, contract_name: Seq<char> },
    Finish(Seq<char>),
    Abort(ErrorView),
    Wait,
}

impl View for Command {
    type V = CommandView;

    open spec fn view(&self) -> CommandView {
        match self {
            Command::ReadBinary => CommandView::ReadBinary,
            Command::Prove => CommandView::Prove,
            Command::DecodeOutcome => CommandView::DecodeOutcome,
            Command::SubmitBlob(t) => CommandView::SubmitBlob {
                identity: t.identity@,
                blobs: blobs_view(t.blobs@),
            },
            Command::SubmitProof(t) => CommandView::SubmitProof {
                blob_tx_hash: t.blob_tx_hash@,
                proof: t.proof@,
                contract_name: t.contract_name@,
            },
            Command::Finish(h) => CommandView::Finish(h@),
            Command::Abort(e) => CommandView::Abort(e@),
            Command::Wait => CommandView::Wait,
        }
    }
}

/// A pipeline as plain values.
pub struct PipelineModel {
    pub stage: Stage,
    pub reproducible: bool,
    pub contract_name: Seq<char>,
    pub identity: Seq<char>,
    pub blobs: Seq<BlobView>,
    pub proof: Seq<u8>,
}

/// One prove-and-submit run for one action.
pub struct Pipeline {
    stage: Stage,
    reproducible: bool,
    contract_name: String,
    identity: String,
    blobs: Vec<Blob>,
    proof: Vec<u8>,
}

impl View for Pipeline {
    type V = PipelineModel;

    closed spec fn view(&self) -> PipelineModel {
        PipelineModel {
            stage: self.stage,
            reproducible: self.reproducible,
            contract_name: self.contract_name@,
            identity: self.identity@,
            blobs: blobs_view(self.blobs@),
            proof: self.proof@,
        }
    }
}

/// The model with another stage.
pub open spec fn at_stage(m: PipelineModel, s: Stage) -> PipelineModel {
    PipelineModel { stage: s, ..m }
}

/// The next model and the command that one event brings about.
pub open spec fn transition(m: PipelineModel, e: EventView) -> (PipelineModel, CommandView) {
    let idle = (m, CommandView::Wait);
    match e {
        EventView::Start => if m.stage != Stage::Building {
            idle
        } else if m.reproducible {
            (m, CommandView::ReadBinary)
        } else {
            (at_stage(m, Stage::Proving), CommandView::Prove)
        },
        EventView::BinaryLoaded => if m.stage == Stage::Building && m.reproducible {
            (at_stage(m, Stage::Proving), CommandView::Prove)
        } else {
            idle
        },
        EventView::BinaryMissing => if m.stage == Stage::Building && m.reproducible {
            (at_stage(m, Stage::Failed), CommandView::Abort(ErrorView::Configuration))
        } else {
            idle
        },
        EventView::Proved(p) => if m.stage == Stage::Proving {
            (PipelineModel { stage: Stage::Validating, proof: p, ..m }, CommandView::DecodeOutcome)
        } else {
            idle
        },
        EventView::EngineFailed => if m.stage == Stage::Proving {
            (at_stage(m, Stage::Failed), CommandView::Abort(ErrorView::ProvingEngine))
        } else {
            idle
        },
        EventView::Decoded(o) => if m.stage == Stage::Validating {
            match verdict(o) {
                Ok(_) => (
                    at_stage(m, Stage::SubmittingBlob),
                    CommandView::SubmitBlob { identity: m.identity, blobs: m.blobs },
                ),
                Err(err) => (at_stage(m, Stage::Failed), CommandView::Abort(err)),
            }
        } else {
            idle
        },
        EventView::BlobAccepted(h) => if m.stage == Stage::SubmittingBlob {
            (
                at_stage(m, Stage::SubmittingProof),
                CommandView::SubmitProof {
                    blob_tx_hash: h,
                    proof: m.proof,
                    contract_name: m.contract_name,
                },
            )
        } else {
            idle
        },
        EventView::BlobRejected => if m.stage == Stage::SubmittingBlob {
            (at_stage(m, Stage::Failed), CommandView::Abort(ErrorView::Network(SubmitPhase::Blob)))
        } else {
            idle
        },
        EventView::ProofAccepted(h) => if m.stage == Stage::SubmittingProof {
            (at_stage(m, Stage::Done), CommandView::Finish(h))
        } else {
            idle
        },
        EventView::ProofRejected => if m.stage == Stage::SubmittingProof {
            (at_stage(m, Stage::Failed), CommandView::Abort(ErrorView::Network(SubmitPhase::Proof)))
        } else {
            idle
        },
    }
}

impl Pipeline {
    /// A pipeline about to prove the given blobs on behalf of `identity`.
    pub fn new(config: PipelineConfig, identity: String, blobs: Vec<Blob>) -> (r: Pipeline)
        ensures
            r@ == (PipelineModel {
                stage: Stage::Building,
                reproducible: config.reproducible,
                contract_name: config.contract_name@,
                identity: identity@,
                blobs: blobs_view(blobs@),
                proof: Seq::empty(),
            }),
    {
        Pipeline {
            stage: Stage::Building,
            reproducible: config.reproducible,
            contract_name: config.contract_name,
            identity,
            blobs,
            proof: Vec::new(),
        }
    }

    /// The current stage.
    pub fn stage(&self) -> (r: Stage)
        ensures
            r == self@.stage,
    {
        self.stage
    }

    /// The proof artifact received from the engine, empty before it came.
    pub fn artifact(&self) -> (r: &Vec<u8>)
        ensures
            r@ == self@.proof,
    {
        &self.proof
    }

    /// Takes one event and returns the command it brings about.
    pub fn step(&mut self, event: Event) -> (c: Command)
        ensures
            (final(self)@, c@) == transition(old(self)@, event@),
    {
        match event {
            Event::Start => {
                if self.stage != Stage::Building {
                    Command::Wait
                } else if self.reproducible {
                    Command::ReadBinary
                } else {
                    self.stage = Stage::Proving;
                    Command::Prove
                }
            },
            Event::BinaryLoaded => {
                if self.stage == Stage::Building && self.reproducible {
                    self.stage = Stage::Proving;
                    Command::Prove
                } else {
                    Command::Wait
                }
            },
            Event::BinaryMissing => {
                if self.stage == Stage::Building && self.reproducible {
                    self.stage = Stage::Failed;
                    Command::Abort(PipelineError::Configuration)
                } else {
                    Command::Wait
                }
            },
            Event::Proved(p) => {
                if self.stage == Stage::Proving {
                    self.stage = Stage::Validating;
                    self.proof = p;
                    Command::DecodeOutcome
                } else {
                    Command::Wait
                }
            },
            Event::EngineFailed => {
                if self.stage == Stage::Proving {
                    self.stage = Stage::Failed;
                    Command::Abort(PipelineError::ProvingEngine)
                } else {
                    Command::Wait
                }
            },
            Event::Decoded(o) => {
                if self.stage == Stage::Validating {
                    match validate_outcome(&o) {
                        Ok(()) => {
                            self.stage = Stage::SubmittingBlob;
                            Command::SubmitBlob(
                                BlobTransaction {
                                    identity: self.identity.clone(),
                                    blobs: copy_blobs(&self.blobs),
                                },
                            )
                        },
                        Err(e) => {
                            self.stage = Stage::Failed;
                            Command::Abort(e)
                        },
                    }
                } else {
                    Command::Wait
                }
            },
            Event::BlobAccepted(h) => {
                if self.stage == Stage::SubmittingBlob {
                    self.stage = Stage::SubmittingProof;
                    Command::SubmitProof(
                        ProofTransaction {
                            blob_tx_hash: h,
                            proof: copy_bytes(&self.proof),
                            contract_name: self.contract_name.clone(),
                        },
                    )
                } else {
                    Command::Wait
                }
            },
            Event::BlobRejected => {
                if self.stage == Stage::SubmittingBlob {
                    self.stage = Stage::Failed;
                    Command::Abort(PipelineError::Network(SubmitPhase::Blob))
                } else {
                    Command::Wait
                }
            },
            Event::ProofAccepted(h) => {
                if self.stage == Stage::SubmittingProof {
                    self.stage = Stage::Done;
                    Command::Finish(h)
                } else {
                    Command::Wait
                }
            },
            Event::ProofRejected => {
                if self.stage == Stage::SubmittingProof {
                    self.stage = Stage::Failed;
                    Command::Abort(PipelineError::Network(SubmitPhase::Proof))
                } else {
                    Command::Wait
                }
            },
        }
    }
}

} // verus!
