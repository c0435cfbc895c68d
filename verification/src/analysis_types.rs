//! Analysis types and their parameters.

use vstd::prelude::*;
use crate::document;
use crate::text::{non_empty, or_empty, spec_non_empty, spec_or_empty};

verus! {

/// Type of analysis to perform.
#[derive(Debug, Clone, Copy, PartialEq, Eq, Structural)]
pub enum AnalysisType {
    AAOrder,
    UAOrder,
    CGOrder,
}

impl Default for AnalysisType {
    fn default() -> (r: Self)
        ensures
            r == AnalysisType::AAOrder,
    {
        AnalysisType::AAOrder
    }
}

/// Parameters for calculating atomistic order.
#[derive(Debug, Clone)]
pub struct AAParams {
    pub heavy_atoms: String,
    pub hydrogens: String,
}

pub struct AAParamsView {
    pub heavy_atoms: Seq<char>,
    pub hydrogens: Seq<char>,
}

impl View for AAParams {
    type V = AAParamsView;

    open spec fn view(&self) -> AAParamsView {
        AAParamsView { heavy_atoms: self.heavy_atoms@, hydrogens: self.hydrogens@ }
    }
}

impl AAParamsView {
    pub open spec fn empty() -> AAParamsView {
        AAParamsView { heavy_atoms: Seq::empty(), hydrogens: Seq::empty() }
    }

    /// Both selections are required.
    pub open spec fn is_complete(self) -> bool {
        self.heavy_atoms.len() > 0 && self.hydrogens.len() > 0
    }
}

impl Default for AAParams {
    fn default() -> (r: Self)
        ensures
            r@ == AAParamsView::empty(),
    {
        AAParams { heavy_atoms: String::new(), hydrogens: String::new() }
    }
}

/// Parameters for calculating coarse-grained order.
#[derive(Debug, Clone)]
pub struct CGParams {
    pub beads: String,
}

pub struct CGParamsView {
    pub beads: Seq<char>,
}

impl View for CGParams {
    type V = CGParamsView;

    open spec fn view(&self) -> CGParamsView {
        CGParamsView { beads: self.beads@ }
    }
}

impl CGParamsView {
    pub open spec fn empty() -> CGParamsView {
        CGParamsView { beads: Seq::empty() }
    }

    /// The selection of beads is required.
    pub open spec fn is_complete(self) -> bool {
        self.beads.len() > 0
    }
}

impl Default for CGParams {
    fn default() -> (r: Self)
        ensures
            r@ == CGParamsView::empty(),
    {
        CGParams { beads: String::new() }
    }
}

/// Parameters for calculating united-atom order.
#[derive(Debug, Clone)]
pub struct UAParams {
    pub saturated: String,
    pub unsaturated: String,
    pub ignore: String,
}

pub struct UAParamsView {
    pub saturated: Seq<char>,
    pub unsaturated: Seq<char>,
    pub ignore: Seq<char>,
}

impl View for UAParams {
    type V = UAParamsView;

    open spec fn view(&self) -> UAParamsView {
        UAParamsView {
            saturated: self.saturated@,
            unsaturated: self.unsaturated@,
            ignore: self.ignore@,
        }
    }
}

impl UAParamsView {
    pub open spec fn empty() -> UAParamsView {
        UAParamsView { saturated: Seq::empty(), unsaturated: Seq::empty(), ignore: Seq::empty() }
    }
}

impl Default for UAParams {
    fn default() -> (r: Self)
        ensures
            r@ == UAParamsView::empty(),
    {
        UAParams { saturated: String::new(), unsaturated: String::new(), ignore: String::new() }
    }
}

/// Parameters for all analysis types. The parameters of the types that are not
/// selected stay as they were entered.
#[derive(Debug, Clone)]
pub struct AnalysisTypeParams {
    pub aa_params: AAParams,
    pub ua_params: UAParams,
    pub cg_params: CGParams,
}

pub struct AnalysisTypeParamsView {
    pub aa_params: AAParamsView,
    pub ua_params: UAParamsView,
    pub cg_params: CGParamsView,
}

impl View for AnalysisTypeParams {
    type V = AnalysisTypeParamsView;

    open spec fn view(&self) -> AnalysisTypeParamsView {
        AnalysisTypeParamsView {
            aa_params: self.aa_params@,
            ua_params: self.ua_params@,
            cg_params: self.cg_params@,
        }
    }
}

impl Default for AnalysisTypeParams {
    fn default() -> (r: Self)
        ensures
            r@ == AnalysisTypeParamsView::empty(),
    {
        AnalysisTypeParams {
            aa_params: AAParams::default(),
            ua_params: UAParams::default(),
            cg_params: CGParams::default(),
        }
    }
}

/// The analysis type that a document asks for.
pub open spec fn spec_type_of(value: document::AnalysisTypeView) -> AnalysisType {
    match value {
        document::AnalysisTypeView::AAOrder { .. } => AnalysisType::AAOrder,
        document::AnalysisTypeView::CGOrder { .. } => AnalysisType::CGOrder,
        document::AnalysisTypeView::UAOrder { .. } => AnalysisType::UAOrder,
    }
}

impl AnalysisType {
    /// The analysis type that a document asks for.
    pub fn from_document(value: &document::AnalysisType) -> (r: AnalysisType)
        ensures
            r == spec_type_of(value@),
    {
        match value {
            document::AnalysisType::AAOrder { .. } => AnalysisType::AAOrder,
            document::AnalysisType::CGOrder { .. } => AnalysisType::CGOrder,
            document::AnalysisType::UAOrder { .. } => AnalysisType::UAOrder,
        }
    }
}

impl AnalysisTypeParamsView {
    pub open spec fn empty() -> AnalysisTypeParamsView {
        AnalysisTypeParamsView {
            aa_params: AAParamsView::empty(),
            ua_params: UAParamsView::empty(),
            cg_params: CGParamsView::empty(),
        }
    }

    /// The parameters that a document gives: those of its analysis type are
    /// filled in, a selection that it leaves out is empty, and the parameters
    /// of the other types are empty.
    pub open spec fn from_document(value: document::AnalysisTypeView) -> AnalysisTypeParamsView {
        match value {
            document::AnalysisTypeView::AAOrder { heavy_atoms, hydrogens } => AnalysisTypeParamsView {
                aa_params: AAParamsView { heavy_atoms, hydrogens },
                ..Self::empty()
            },
            document::AnalysisTypeView::CGOrder { beads } => AnalysisTypeParamsView {
                cg_params: CGParamsView { beads },
                ..Self::empty()
            },
            document::AnalysisTypeView::UAOrder { saturated, unsaturated, ignore } => AnalysisTypeParamsView {
                ua_params: UAParamsView {
                    saturated: spec_or_empty(saturated),
                    unsaturated: spec_or_empty(unsaturated),
                    ignore: spec_or_empty(ignore),
                },
                ..Self::empty()
            },
        }
    }

    /// The analysis type of the document, from the selected type and its
    /// parameters alone. An empty united-atom selection is left out.
    pub open spec fn to_document(self, selected: AnalysisType) -> document::AnalysisTypeView {
        match selected {
            AnalysisType::AAOrder => document::AnalysisTypeView::AAOrder {
                heavy_atoms: self.aa_params.heavy_atoms,
                hydrogens: self.aa_params.hydrogens,
            },
            AnalysisType::CGOrder => document::AnalysisTypeView::CGOrder { beads: self.cg_params.beads },
            AnalysisType::UAOrder => document::AnalysisTypeView::UAOrder {
                saturated: spec_non_empty(self.ua_params.saturated),
                unsaturated: spec_non_empty(self.ua_params.unsaturated),
                ignore: spec_non_empty(self.ua_params.ignore),
            },
        }
    }

    /// Whether the parameters that the selected type requires are there. The
    /// united-atom type requires none.
    pub open spec fn is_complete(self, selected: AnalysisType) -> bool {
        match selected {
            AnalysisType::AAOrder => self.aa_params.is_complete(),
            AnalysisType::CGOrder => self.cg_params.is_complete(),
            AnalysisType::UAOrder => true,
        }
    }
}

impl AnalysisTypeParams {
    /// The parameters that a document gives.
    pub fn from_document(value: &document::AnalysisType) -> (r: AnalysisTypeParams)
        ensures
            r@ == AnalysisTypeParamsView::from_document(value@),
    {
        match value {
            document::AnalysisType::AAOrder { heavy_atoms, hydrogens } => AnalysisTypeParams {
                aa_params: AAParams { heavy_atoms: heavy_atoms.clone(), hydrogens: hydrogens.clone() },
                ua_params: UAParams::default(),
                cg_params: CGParams::default(),
            },
            document::AnalysisType::CGOrder { beads } => AnalysisTypeParams {
                aa_params: AAParams::default(),
                ua_params: UAParams::default(),
                cg_params: CGParams { beads: beads.clone() },
            },
            document::AnalysisType::UAOrder { saturated, unsaturated, ignore } => AnalysisTypeParams {
                aa_params: AAParams::default(),
                ua_params: UAParams {
                    saturated: or_empty(saturated),
                    unsaturated: or_empty(unsaturated),
                    ignore: or_empty(ignore),
                },
                cg_params: CGParams::default(),
            },
        }
    }

    /// The analysis type of the document for the selected type.
    pub fn to_document(&self, selected: AnalysisType) -> (r: document::AnalysisType)
        ensures
            r@ == self@.to_document(selected),
    {
        match selected {
            AnalysisType::AAOrder => document::AnalysisType::AAOrder {
                heavy_atoms: self.aa_params.heavy_atoms.clone(),
                hydrogens: self.aa_params.hydrogens.clone(),
            },
            AnalysisType::CGOrder => document::AnalysisType::CGOrder {
                beads: self.cg_params.beads.clone(),
            },
            AnalysisType::UAOrder => document::AnalysisType::UAOrder {
                saturated: non_empty(&self.ua_params.saturated),
                unsaturated: non_empty(&self.ua_params.unsaturated),
                ignore: non_empty(&self.ua_params.ignore),
            },
        }
    }

    /// Check that all required options of the selected analysis type have been
    /// provided.
    pub fn sanity_check(&self, selected: AnalysisType) -> (r: bool)
        ensures
            r == self@.is_complete(selected),
    {
        match selected {
            AnalysisType::AAOrder => !self.aa_params.heavy_atoms.as_str().is_empty()
                && !self.aa_params.hydrogens.as_str().is_empty(),
            AnalysisType::CGOrder => !self.cg_params.beads.as_str().is_empty(),
            AnalysisType::UAOrder => true,
        }
    }
}

} // verus!
