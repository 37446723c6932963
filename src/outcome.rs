use vstd::prelude::*;

use crate::error::{ErrorView, PipelineError};

verus! {

/// The outcome record that a proof artifact carries.
pub struct ExecutionOutcome {
    pub success: bool,
    pub program_outputs: Vec<u8>,
}

/// An execution outcome as plain values.
pub struct OutcomeView {
    pub success: bool,
    pub program_outputs: Seq<u8>,
}

impl View for ExecutionOutcome {
    type V = OutcomeView;

    open spec fn view(&self) -> OutcomeView {
        OutcomeView { success: self.success, program_outputs: self.program_outputs@ }
    }
}

/// The view of a decoding result: `None` where the artifact held no outcome.
pub open spec fn decoded_view(o: Option<ExecutionOutcome>) -> Option<OutcomeView> {
    match o {
        Some(x) => Some(x@),
        None => None,
    }
}

/// The text that some bytes spell as UTF-8, or `None` where they are not
/// valid UTF-8.
pub uninterp spec fn utf8_text(b: Seq<u8>) -> Option<Seq<char>>;

/// Relies on std::str::from_utf8: it returns the text the bytes spell, or an
/// error where they are not valid UTF-8; which of the two depends on the
/// bytes alone.
#[verifier::external_body]
fn decode_text(b: &[u8]) -> (r: Option<String>)
    ensures
        match r {
            Some(s) => utf8_text(b@) == Some(s@),
            None => utf8_text(b@) is None,
        },
{
    std::str::from_utf8(b).ok().map(|s| s.to_string())
}

/// What the validator makes of a decoded artifact: an artifact without an
/// outcome is an encoding error; a failed execution is a semantic rejection
/// carrying the program's text, or an encoding error where that text is not
/// UTF-8; a successful execution passes.
pub open spec fn verdict(o: Option<OutcomeView>) -> Result<(), ErrorView> {
    match o {
        None => Err(ErrorView::Encoding),
        Some(x) => if x.success {
            Ok(())
        } else {
            match utf8_text(x.program_outputs) {
                Some(t) => Err(ErrorView::SemanticRejection(t)),
                None => Err(ErrorView::Encoding),
            }
        },
    }
}

/// The view of a validation result.
pub open spec fn check_view(r: Result<(), PipelineError>) -> Result<(), ErrorView> {
    match r {
        Ok(()) => Ok(()),
        Err(e) => Err(e@),
    }
}

/// Checks the outcome decoded from a proof artifact before anything is sent.
pub fn validate_outcome(decoded: &Option<ExecutionOutcome>) -> (r: Result<(), PipelineError>)
    ensures
        check_view(r) == verdict(decoded_view(*decoded)),
{
    match decoded {
        None => Err(PipelineError::Encoding),
        Some(o) => {
            if o.success {
                Ok(())
            } else {
                match decode_text(o.program_outputs.as_slice()) {
                    Some(t) => Err(PipelineError::SemanticRejection(t)),
                    None => Err(PipelineError::Encoding),
                }
            }
        },
    }
}

} // verus!
