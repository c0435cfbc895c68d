//! Parameters for error estimation.

use vstd::prelude::*;
use crate::document;
use crate::engine::estimate_error_new;
use crate::error::{ConversionError, ErrorKind};
use crate::text::{non_empty, or_empty, spec_non_empty, spec_or_empty};

verus! {

/// Parameters for the error estimation.
#[derive(Debug, Clone)]
pub struct EstimateErrorParams {
    pub estimate_error: bool,
    pub n_blocks: usize,
    pub output_convergence: String,
}

pub struct EstimateErrorParamsView {
    pub estimate_error: bool,
    pub n_blocks: usize,
    pub output_convergence: Seq<char>,
}

impl View for EstimateErrorParams {
    type V = EstimateErrorParamsView;

    open spec fn view(&self) -> EstimateErrorParamsView {
        EstimateErrorParamsView {
            estimate_error: self.estimate_error,
            n_blocks: self.n_blocks,
            output_convergence: self.output_convergence@,
        }
    }
}

impl Default for EstimateErrorParams {
    fn default() -> (r: Self)
        ensures
            r@ == EstimateErrorParamsView::empty(),
    {
        EstimateErrorParams { estimate_error: false, n_blocks: 5, output_convergence: String::new() }
    }
}

impl EstimateErrorParamsView {
    pub open spec fn empty() -> EstimateErrorParamsView {
        EstimateErrorParamsView {
            estimate_error: false,
            n_blocks: 5,
            output_convergence: Seq::empty(),
        }
    }

    /// The parameters that a document gives: the defaults, switched off,
    /// where it has no block for the error estimation.
    pub open spec fn from_document(value: Option<document::EstimateErrorView>) -> EstimateErrorParamsView {
        match value {
            None => Self::empty(),
            Some(x) => EstimateErrorParamsView {
                estimate_error: true,
                n_blocks: x.n_blocks,
                output_convergence: spec_or_empty(x.output_convergence),
            },
        }
    }

    /// The block of the document: none where the estimation is switched off;
    /// an empty path of the convergence file is left out.
    pub open spec fn to_document(self) -> Option<document::EstimateErrorView> {
        if !self.estimate_error {
            None
        } else {
            Some(
                document::EstimateErrorView {
                    n_blocks: self.n_blocks,
                    output_convergence: spec_non_empty(self.output_convergence),
                },
            )
        }
    }

    /// Whether the block cannot be written: the engine takes no estimate over
    /// fewer than two blocks.
    pub open spec fn rejected(self) -> bool {
        self.estimate_error && self.n_blocks < 2
    }
}

impl EstimateErrorParams {
    /// The parameters that a document gives.
    pub fn from_document(value: &Option<document::EstimateError>) -> (r: EstimateErrorParams)
        ensures
            r@ == EstimateErrorParamsView::from_document(document::estimate_error_view(*value)),
    {
        match value {
            None => EstimateErrorParams::default(),
            Some(x) => EstimateErrorParams {
                estimate_error: true,
                n_blocks: x.n_blocks,
                output_convergence: or_empty(&x.output_convergence),
            },
        }
    }

    /// The block of the document for what the engine answered when it was
    /// asked to make the estimate; `None` stands for "not asked".
    pub fn document_for_reply(reply: Option<Result<(usize, Option<String>), String>>) -> (r: Result<
        Option<document::EstimateError>,
        ConversionError,
    >)
        ensures
            r is Err <==> (reply matches Some(answer) && answer is Err),
            r matches Err(e) ==> e@ == crate::error::ConversionErrorView::InvalidEstimateError(
                reply->0->Err_0@,
            ),
            r matches Ok(block) ==> (block is Some <==> reply is Some),
            r matches Ok(Some(block)) ==> block.n_blocks == reply->0->Ok_0.0
                && crate::text::opt_view(block.output_convergence) == crate::text::opt_view(
                reply->0->Ok_0.1,
            ),
    {
        match reply {
            None => Ok(None),
            Some(Err(detail)) => Err(ConversionError::InvalidEstimateError(detail)),
            Some(Ok(parts)) => Ok(
                Some(document::EstimateError { n_blocks: parts.0, output_convergence: parts.1 }),
            ),
        }
    }

    /// The block of the document as it is before the engine was asked:
    /// nothing is checked.
    pub fn draft(&self) -> (r: Option<document::EstimateError>)
        ensures
            document::estimate_error_view(r) == self@.to_document(),
    {
        if !self.estimate_error {
            None
        } else {
            Some(
                document::EstimateError {
                    n_blocks: self.n_blocks,
                    output_convergence: non_empty(&self.output_convergence),
                },
            )
        }
    }

    /// The block of the document, or the engine's refusal to estimate the
    /// error over fewer than two blocks.
    pub fn to_document(&self) -> (r: Result<Option<document::EstimateError>, ConversionError>)
        ensures
            r is Err <==> self@.rejected(),
            r matches Ok(block) ==> document::estimate_error_view(block) == self@.to_document(),
            r matches Err(e) ==> e@.kind() == ErrorKind::InvalidEstimateError,
    {
        if !self.estimate_error {
            return Self::document_for_reply(None);
        }
        let convergence = non_empty(&self.output_convergence);
        let reply = estimate_error_new(self.n_blocks, &convergence);
        Self::document_for_reply(Some(reply))
    }
}

} // verus!
