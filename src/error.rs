use vstd::prelude::*;

verus! {

/// Which of the two ledger submissions failed.
#[derive(Clone, Copy, PartialEq, Eq, Structural, Debug)]
pub enum SubmitPhase {
    Blob,
    Proof,
}

/// Why a pipeline run stopped.
#[derive(Debug)]
pub enum PipelineError {
    /// The reproducible guest binary could not be read.
    Configuration,
    /// An action or a proof artifact could not be encoded or decoded.
    Encoding,
    /// The proving engine failed.
    ProvingEngine,
    /// The guest program ran and reported the action invalid; its own text.
    SemanticRejection(String),
    /// The ledger refused or could not take a submission.
    Network(SubmitPhase),
}

/// A pipeline error as plain values.
pub enum ErrorView {
    Configuration,
    Encoding,
    ProvingEngine,
    SemanticRejection(Seq<char>),
    Network(SubmitPhase),
}

impl View for PipelineError {
    type V = ErrorView;

    open spec fn view(&self) -> ErrorView {
        match self {
            PipelineError::Configuration => ErrorView::Configuration,
            PipelineError::Encoding => ErrorView::Encoding,
            PipelineError::ProvingEngine => ErrorView::ProvingEngine,
            PipelineError::SemanticRejection(t) => ErrorView::SemanticRejection(t@),
            PipelineError::Network(p) => ErrorView::Network(*p),
        }
    }
}

impl PipelineError {
    /// True for the expected, user-facing rejection by the guest program,
    /// false for every infrastructure fault.
    pub fn is_semantic_rejection(&self) -> (r: bool)
        ensures
            r == (self@ is SemanticRejection),
    {
        match self {
            PipelineError::SemanticRejection(_) => true,
            _ => false,
        }
    }
}

} // verus!
