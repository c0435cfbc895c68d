//! Common structures and methods.

use vstd::prelude::*;
use crate::analysis_types::{AnalysisType, AnalysisTypeParams, AnalysisTypeParamsView};
use crate::document;
use crate::error::{ConversionError, ConversionErrorView};
use crate::estimate_error::{EstimateErrorParams, EstimateErrorParamsView};
use crate::frame_selection::FrameSelectionParams;
use crate::geometry::{GeomSelection, GeomSelectionParams, GeomSelectionParamsView};
use crate::leaflets::{
    LeafletClassification,
    LeafletClassificationParams,
    LeafletClassificationParamsView,
};
use crate::membrane_normal::{
    normal_sanity_check,
    spec_normal_is_valid,
    DynamicNormalParams,
    DynamicNormalParamsView,
};
use crate::ordermaps::{OrderMapsParams, OrderMapsParamsView};
use crate::other_options::OtherParams;
use crate::text::{all_filled, or_empty, spec_all_filled, spec_or_empty, views};

verus! {

/// Direction of the membrane normal.
#[derive(Debug, Clone, Copy, PartialEq, Eq, Structural)]
pub enum MembraneNormal {
    X,
    Y,
    Z,
    Dynamic,
    FromFile,
}

impl Default for MembraneNormal {
    fn default() -> (r: Self)
        ensures
            r == MembraneNormal::Z,
    {
        MembraneNormal::Z
    }
}

impl MembraneNormal {
    /// The static normal along an axis.
    pub open spec fn spec_from_axis(axis: document::Axis) -> MembraneNormal {
        match axis {
            document::Axis::X => MembraneNormal::X,
            document::Axis::Y => MembraneNormal::Y,
            document::Axis::Z => MembraneNormal::Z,
        }
    }

    /// The axis of a static normal; nothing for the two other kinds.
    pub open spec fn spec_axis(self) -> Option<document::Axis> {
        match self {
            MembraneNormal::X => Some(document::Axis::X),
            MembraneNormal::Y => Some(document::Axis::Y),
            MembraneNormal::Z => Some(document::Axis::Z),
            MembraneNormal::Dynamic => None,
            MembraneNormal::FromFile => None,
        }
    }

    /// The kind of normal that a document asks for. Normals given inline are
    /// not supported.
    pub open spec fn spec_try_from_document(value: document::MembraneNormalView) -> Result<
        MembraneNormal,
        ConversionErrorView,
    > {
        match value {
            document::MembraneNormalView::Static(axis) => Ok(Self::spec_from_axis(axis)),
            document::MembraneNormalView::Dynamic { .. } => Ok(MembraneNormal::Dynamic),
            document::MembraneNormalView::FromFile(_) => Ok(MembraneNormal::FromFile),
            document::MembraneNormalView::FromMap => Err(ConversionErrorView::FromMapNormals),
        }
    }

    /// Whether the normal is one of the three axes.
    pub open spec fn is_static(self) -> bool {
        self.spec_axis() is Some
    }

    /// The static normal along an axis.
    pub fn from_axis(axis: document::Axis) -> (r: MembraneNormal)
        ensures
            r == Self::spec_from_axis(axis),
            r.spec_axis() == Some(axis),
    {
        match axis {
            document::Axis::X => MembraneNormal::X,
            document::Axis::Y => MembraneNormal::Y,
            document::Axis::Z => MembraneNormal::Z,
        }
    }

    /// The axis of a static normal; nothing for the two other kinds.
    pub fn axis(self) -> (r: Option<document::Axis>)
        ensures
            r == self.spec_axis(),
    {
        match self {
            MembraneNormal::X => Some(document::Axis::X),
            MembraneNormal::Y => Some(document::Axis::Y),
            MembraneNormal::Z => Some(document::Axis::Z),
            MembraneNormal::Dynamic => None,
            MembraneNormal::FromFile => None,
        }
    }

    /// The kind of normal that a document asks for.
    pub fn try_from_document(value: &document::MembraneNormal) -> (r: Result<
        MembraneNormal,
        ConversionError,
    >)
        ensures
            crate::error::result_view(r) == Self::spec_try_from_document(value@),
    {
        match value {
            document::MembraneNormal::Static(axis) => Ok(Self::from_axis(*axis)),
            document::MembraneNormal::Dynamic { .. } => Ok(MembraneNormal::Dynamic),
            document::MembraneNormal::FromFile(_) => Ok(MembraneNormal::FromFile),
            document::MembraneNormal::FromMap => Err(ConversionError::FromMapNormals),
        }
    }
}

/// Paths to all specified output files.
#[derive(Debug, Clone)]
pub struct OutputFiles {
    pub output_yaml: String,
    pub output_csv: String,
    pub output_tab: String,
    pub output_xvg: String,
}

pub struct OutputFilesView {
    pub output_yaml: Seq<char>,
    pub output_csv: Seq<char>,
    pub output_tab: Seq<char>,
    pub output_xvg: Seq<char>,
}

impl View for OutputFiles {
    type V = OutputFilesView;

    open spec fn view(&self) -> OutputFilesView {
        OutputFilesView {
            output_yaml: self.output_yaml@,
            output_csv: self.output_csv@,
            output_tab: self.output_tab@,
            output_xvg: self.output_xvg@,
        }
    }
}

impl OutputFilesView {
    pub open spec fn empty() -> OutputFilesView {
        OutputFilesView {
            output_yaml: Seq::empty(),
            output_csv: Seq::empty(),
            output_tab: Seq::empty(),
            output_xvg: Seq::empty(),
        }
    }

    /// The output paths of a document; a path that it leaves out is empty.
    pub open spec fn from_document(value: document::AnalysisView) -> OutputFilesView {
        OutputFilesView {
            output_yaml: spec_or_empty(value.output_yaml),
            output_csv: spec_or_empty(value.output_csv),
            output_tab: spec_or_empty(value.output_tab),
            output_xvg: spec_or_empty(value.output_xvg),
        }
    }
}

impl Default for OutputFiles {
    fn default() -> (r: Self)
        ensures
            r@ == OutputFilesView::empty(),
    {
        OutputFiles {
            output_yaml: String::new(),
            output_csv: String::new(),
            output_tab: String::new(),
            output_xvg: String::new(),
        }
    }
}

impl OutputFiles {
    /// The output paths of a document.
    pub fn from_document(value: &document::Analysis) -> (r: OutputFiles)
        ensures
            r@ == OutputFilesView::from_document(value@),
    {
        OutputFiles {
            output_yaml: or_empty(&value.output_yaml),
            output_csv: or_empty(&value.output_csv),
            output_tab: or_empty(&value.output_tab),
            output_xvg: or_empty(&value.output_xvg),
        }
    }
}

/// Everything that the editor holds: the input and output files, and for each
/// group of options the selected kind with the parameters of every kind.
#[derive(Debug, Clone)]
pub struct GuiAnalysis {
    pub structure: String,
    pub trajectory: Vec<String>,
    pub ndx: String,
    pub bonds: String,
    pub analysis_type: AnalysisType,
    pub analysis_type_params: AnalysisTypeParams,
    pub output: OutputFiles,
    pub leaflet_classification_method: LeafletClassification,
    pub leaflet_classification_params: LeafletClassificationParams,
    pub membrane_normal: MembraneNormal,
    pub dynamic_normal_params: DynamicNormalParams,
    pub from_file_normals: String,
    pub ordermaps_params: OrderMapsParams,
    pub estimate_error_params: EstimateErrorParams,
    pub frame_selection_params: FrameSelectionParams,
    pub other_params: OtherParams,
    pub geom_selection: GeomSelection,
    pub geom_selection_params: GeomSelectionParams,
}

pub struct GuiAnalysisView {
    pub structure: Seq<char>,
    pub trajectory: Seq<Seq<char>>,
    pub ndx: Seq<char>,
    pub bonds: Seq<char>,
    pub analysis_type: AnalysisType,
    pub analysis_type_params: AnalysisTypeParamsView,
    pub output: OutputFilesView,
    pub leaflet_classification_method: LeafletClassification,
    pub leaflet_classification_params: LeafletClassificationParamsView,
    pub membrane_normal: MembraneNormal,
    pub dynamic_normal_params: DynamicNormalParamsView,
    pub from_file_normals: Seq<char>,
    pub ordermaps_params: OrderMapsParamsView,
    pub estimate_error_params: EstimateErrorParamsView,
    pub frame_selection_params: FrameSelectionParams,
    pub other_params: OtherParams,
    pub geom_selection: GeomSelection,
    pub geom_selection_params: GeomSelectionParamsView,
}

impl View for GuiAnalysis {
    type V = GuiAnalysisView;

    open spec fn view(&self) -> GuiAnalysisView {
        GuiAnalysisView {
            structure: self.structure@,
            trajectory: views(self.trajectory@),
            ndx: self.ndx@,
            bonds: self.bonds@,
            analysis_type: self.analysis_type,
            analysis_type_params: self.analysis_type_params@,
            output: self.output@,
            leaflet_classification_method: self.leaflet_classification_method,
            leaflet_classification_params: self.leaflet_classification_params@,
            membrane_normal: self.membrane_normal,
            dynamic_normal_params: self.dynamic_normal_params@,
            from_file_normals: self.from_file_normals@,
            ordermaps_params: self.ordermaps_params@,
            estimate_error_params: self.estimate_error_params@,
            frame_selection_params: self.frame_selection_params,
            other_params: self.other_params,
            geom_selection: self.geom_selection,
            geom_selection_params: self.geom_selection_params@,
        }
    }
}

impl GuiAnalysisView {
    /// The state of the editor when it starts: nothing is entered, every
    /// group is at its default.
    pub open spec fn empty() -> GuiAnalysisView {
        GuiAnalysisView {
            structure: Seq::empty(),
            trajectory: Seq::empty(),
            ndx: Seq::empty(),
            bonds: Seq::empty(),
            analysis_type: AnalysisType::AAOrder,
            analysis_type_params: AnalysisTypeParamsView::empty(),
            output: OutputFilesView::empty(),
            leaflet_classification_method: LeafletClassification::NoAssignment,
            leaflet_classification_params: LeafletClassificationParamsView::empty(),
            membrane_normal: MembraneNormal::Z,
            dynamic_normal_params: DynamicNormalParamsView::empty(),
            from_file_normals: Seq::empty(),
            ordermaps_params: OrderMapsParamsView::empty(),
            estimate_error_params: EstimateErrorParamsView::empty(),
            frame_selection_params: FrameSelectionParams::initial(),
            other_params: OtherParams::initial(),
            geom_selection: GeomSelection::WholeSystem,
            geom_selection_params: GeomSelectionParamsView::empty(),
        }
    }

    /// The parameters that the selected analysis type requires are there.
    pub open spec fn analysis_params_valid(self) -> bool {
        self.analysis_type_params.is_complete(self.analysis_type)
    }

    /// The options that the selected membrane normal requires are there.
    pub open spec fn membrane_normal_valid(self) -> bool {
        spec_normal_is_valid(self.membrane_normal, self.dynamic_normal_params, self.from_file_normals)
    }

    /// The leaflet assignment is ready, given the membrane normal.
    pub open spec fn leaflets_valid(self) -> bool {
        self.leaflet_classification_params.is_valid(
            self.leaflet_classification_method,
            self.membrane_normal,
        )
    }

    /// The parameters of the order maps are there, given the membrane normal.
    pub open spec fn ordermaps_valid(self) -> bool {
        self.ordermaps_params.is_valid(self.membrane_normal)
    }

    /// The parameters of the selected geometry are there.
    pub open spec fn geometry_valid(self) -> bool {
        self.geom_selection_params.is_valid(self.geom_selection)
    }

    /// The required paths are there: the structure, at least one trajectory
    /// and none that is empty, and the output file.
    pub open spec fn files_valid(self) -> bool {
        &&& self.structure.len() > 0
        &&& self.trajectory.len() > 0
        &&& spec_all_filled(self.trajectory)
        &&& self.output.output_yaml.len() > 0
    }

    /// The analysis can be run or exported: every group is valid and the
    /// required paths are there.
    pub open spec fn is_valid(self) -> bool {
        &&& self.leaflets_valid()
        &&& self.analysis_params_valid()
        &&& self.files_valid()
        &&& self.membrane_normal_valid()
        &&& self.ordermaps_valid()
        &&& self.geometry_valid()
    }
}

impl Default for GuiAnalysis {
    fn default() -> (r: Self)
        ensures
            r@ == GuiAnalysisView::empty(),
    {
        let r = GuiAnalysis {
            structure: String::new(),
            trajectory: Vec::new(),
            ndx: String::new(),
            bonds: String::new(),
            analysis_type: AnalysisType::AAOrder,
            analysis_type_params: AnalysisTypeParams::default(),
            output: OutputFiles::default(),
            leaflet_classification_method: LeafletClassification::NoAssignment,
            leaflet_classification_params: LeafletClassificationParams::default(),
            membrane_normal: MembraneNormal::Z,
            dynamic_normal_params: DynamicNormalParams::default(),
            from_file_normals: String::new(),
            ordermaps_params: OrderMapsParams::default(),
            estimate_error_params: EstimateErrorParams::default(),
            frame_selection_params: FrameSelectionParams::default(),
            other_params: OtherParams::default(),
            geom_selection: GeomSelection::WholeSystem,
            geom_selection_params: GeomSelectionParams::default(),
        };
        assert(views(r.trajectory@) =~= Seq::<Seq<char>>::empty());
        r
    }
}

impl GuiAnalysis {
    /// Check that all required options for analysis type have been provided.
    pub fn check_analysis_params_sanity(&self) -> (r: bool)
        ensures
            r == self@.analysis_params_valid(),
    {
        self.analysis_type_params.sanity_check(self.analysis_type)
    }

    /// Check that all required options for membrane normal specification
    /// have been provided.
    pub fn check_membrane_normal_sanity(&self) -> (r: bool)
        ensures
            r == self@.membrane_normal_valid(),
    {
        normal_sanity_check(self.membrane_normal, &self.dynamic_normal_params, &self.from_file_normals)
    }

    /// Check that all required options for leaflet assignment have been
    /// provided.
    pub fn check_leaflets_sanity(&self) -> (r: bool)
        ensures
            r == self@.leaflets_valid(),
    {
        self.leaflet_classification_params.sanity_check(
            self.leaflet_classification_method,
            self.membrane_normal,
        )
    }

    /// Check that all parameters for the construction of ordermaps have been
    /// provided.
    pub fn check_ordermaps_sanity(&self) -> (r: bool)
        ensures
            r == self@.ordermaps_valid(),
    {
        self.ordermaps_params.sanity_check(self.membrane_normal)
    }

    /// Check that all parameters for geometric selection have been provided.
    pub fn check_geometry_sanity(&self) -> (r: bool)
        ensures
            r == self@.geometry_valid(),
    {
        self.geom_selection_params.sanity_check(self.geom_selection)
    }

    /// Check that all options required for the analysis have been provided.
    pub fn check_sanity(&self) -> (r: bool)
        ensures
            r == self@.is_valid(),
    {
        self.check_leaflets_sanity() && self.check_analysis_params_sanity()
            && !self.structure.as_str().is_empty() && self.trajectory.len() > 0 && all_filled(
            &self.trajectory,
        ) && !self.output.output_yaml.as_str().is_empty() && self.check_membrane_normal_sanity()
            && self.check_ordermaps_sanity() && self.check_geometry_sanity()
    }
}

} // verus!
