//! Specification of parameters that do not fit elsewhere.

use vstd::prelude::*;
use crate::document;

verus! {

/// Parameters that do not fit elsewhere.
#[derive(Debug, Clone, Copy, PartialEq, Eq, Structural)]
pub struct OtherParams {
    pub min_samples: usize,
    pub n_threads: usize,
    pub handle_pbc: bool,
    pub overwrite: bool,
    pub silent: bool,
}

impl OtherParams {
    /// One sample, one thread, periodic boundaries handled, backups kept,
    /// progress reported.
    pub open spec fn initial() -> OtherParams {
        OtherParams { min_samples: 1, n_threads: 1, handle_pbc: true, overwrite: false, silent: false }
    }

    /// The scalar options of a document.
    pub open spec fn spec_from_document(value: document::AnalysisView) -> OtherParams {
        OtherParams {
            min_samples: value.min_samples,
            n_threads: value.n_threads,
            handle_pbc: value.handle_pbc,
            overwrite: value.overwrite,
            silent: value.silent,
        }
    }

    /// The scalar options of a document.
    pub fn from_document(value: &document::Analysis) -> (r: OtherParams)
        ensures
            r == Self::spec_from_document(value@),
    {
        OtherParams {
            min_samples: value.min_samples,
            n_threads: value.n_threads,
            handle_pbc: value.handle_pbc,
            overwrite: value.overwrite,
            silent: value.silent,
        }
    }

    /// Whether the analysis runs on two threads or more.
    pub fn uses_several_threads(&self) -> (r: bool)
        ensures
            r == (self.n_threads >= 2),
    {
        self.n_threads >= 2
    }
}

impl Default for OtherParams {
    fn default() -> (r: Self)
        ensures
            r == OtherParams::initial(),
    {
        OtherParams { min_samples: 1, n_threads: 1, handle_pbc: true, overwrite: false, silent: false }
    }
}

} // verus!
