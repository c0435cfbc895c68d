//! Conversion between the editor's state and the engine's document.
//!
//! Reading a document never fails on what the editor can hold; it fails on
//! membrane normals or leaflets that are given inline. Writing a document
//! takes the answers of the engine to the draft of the document, and fails
//! on the first group that the engine or a rule of the library refuses.

use vstd::prelude::*;
use vstd::string::StringExecFns;
use crate::analysis_types::{spec_type_of, AnalysisType, AnalysisTypeParams, AnalysisTypeParamsView};
use crate::common::{GuiAnalysis, GuiAnalysisView, MembraneNormal, OutputFiles, OutputFilesView};
use crate::document;
use crate::error::{ConversionError, ConversionErrorView, ErrorKind};
use crate::estimate_error::{EstimateErrorParams, EstimateErrorParamsView};
use crate::frame_selection::FrameSelectionParams;
use crate::geometry::{spec_selection_of, GeomSelection, GeomSelectionParams, GeomSelectionParamsView};
use crate::leaflets::{
    local_radius_message,
    normal_detail,
    spec_method_of,
    LeafletClassification,
    LeafletClassificationParams,
    LeafletClassificationParamsView,
    LeafletRejection,
};
use crate::membrane_normal::{
    normal_draft,
    normal_to_document,
    normals_file,
    spec_normal_rejection,
    spec_normal_to_document,
    spec_normals_file,
    DynamicNormalParams,
    DynamicNormalParamsView,
};
use crate::ordermaps::{OrderMapsParams, OrderMapsParamsView};
use crate::other_options::OtherParams;
use crate::text::{clone_strings, non_empty, opt_view, or_empty, spec_non_empty, spec_or_empty};

verus! {

/// The detail of the error for a selection of frames that begins after its
/// end.
pub open spec fn begin_end_detail() -> Seq<char> {
    "invalid values of 'begin' and 'end' (begin is higher than end)"@
}

/// The state of the editor for a document, or the error for a document that
/// gives its membrane normals or its leaflets inline. The normals are looked
/// at first.
pub open spec fn spec_import(value: document::AnalysisView) -> Result<
    GuiAnalysisView,
    ConversionErrorView,
> {
    if value.membrane_normal is FromMap {
        Err(ConversionErrorView::FromMapNormals)
    } else if value.leaflets matches Some(document::LeafletClassificationView::FromMap { .. }) {
        Err(ConversionErrorView::FromMapLeaflets)
    } else {
        Ok(
            GuiAnalysisView {
                structure: value.structure,
                trajectory: value.trajectory,
                ndx: spec_or_empty(value.index),
                bonds: spec_or_empty(value.bonds),
                output: OutputFilesView::from_document(value),
                analysis_type: spec_type_of(value.analysis_type),
                analysis_type_params: AnalysisTypeParamsView::from_document(value.analysis_type),
                membrane_normal: MembraneNormal::spec_try_from_document(value.membrane_normal)->Ok_0,
                dynamic_normal_params: DynamicNormalParamsView::spec_try_from_document(
                    value.membrane_normal,
                )->Ok_0,
                from_file_normals: spec_normals_file(value.membrane_normal),
                leaflet_classification_method: spec_method_of(value.leaflets)->Ok_0,
                leaflet_classification_params: LeafletClassificationParamsView::spec_try_from_document(
                    value.leaflets,
                )->Ok_0,
                estimate_error_params: EstimateErrorParamsView::from_document(value.estimate_error),
                frame_selection_params: FrameSelectionParams {
                    begin: value.begin,
                    end: value.end,
                    step: value.step,
                },
                geom_selection: spec_selection_of(value.geometry),
                geom_selection_params: GeomSelectionParamsView::from_document(value.geometry),
                ordermaps_params: OrderMapsParamsView::from_document(value.map),
                other_params: OtherParams::spec_from_document(value),
            },
        )
    }
}

/// What the engine answered when the parts of a document that hold numbers
/// of the machine were put to it. Each field holds the message with which
/// the engine refused, or nothing where it accepted or was not asked.
#[derive(Debug, Clone)]
pub struct EngineReplies {
    /// The dynamic membrane normal.
    pub membrane_normal: Option<String>,
    /// The radius of the local leaflet assignment.
    pub leaflets: Option<String>,
    /// The selected geometry.
    pub geometry: Option<String>,
    /// The first manual extent of the order maps.
    pub ordermap_dim_x: Option<String>,
    /// The second manual extent of the order maps.
    pub ordermap_dim_y: Option<String>,
    /// The order maps as a whole.
    pub ordermap: Option<String>,
    /// The analysis as a whole: the input files, the selection of frames,
    /// the minimum number of samples and the number of threads.
    pub analysis: Option<String>,
}

pub struct EngineRepliesView {
    pub membrane_normal: Option<Seq<char>>,
    pub leaflets: Option<Seq<char>>,
    pub geometry: Option<Seq<char>>,
    pub ordermap_dim_x: Option<Seq<char>>,
    pub ordermap_dim_y: Option<Seq<char>>,
    pub ordermap: Option<Seq<char>>,
    pub analysis: Option<Seq<char>>,
}

impl View for EngineReplies {
    type V = EngineRepliesView;

    open spec fn view(&self) -> EngineRepliesView {
        EngineRepliesView {
            membrane_normal: opt_view(self.membrane_normal),
            leaflets: opt_view(self.leaflets),
            geometry: opt_view(self.geometry),
            ordermap_dim_x: opt_view(self.ordermap_dim_x),
            ordermap_dim_y: opt_view(self.ordermap_dim_y),
            ordermap: opt_view(self.ordermap),
            analysis: opt_view(self.analysis),
        }
    }
}

impl EngineRepliesView {
    /// The engine refused nothing.
    pub open spec fn none() -> EngineRepliesView {
        EngineRepliesView {
            membrane_normal: None,
            leaflets: None,
            geometry: None,
            ordermap_dim_x: None,
            ordermap_dim_y: None,
            ordermap: None,
            analysis: None,
        }
    }
}

impl Default for EngineReplies {
    fn default() -> (r: Self)
        ensures
            r@ == EngineRepliesView::none(),
    {
        EngineReplies {
            membrane_normal: None,
            leaflets: None,
            geometry: None,
            ordermap_dim_x: None,
            ordermap_dim_y: None,
            ordermap: None,
            analysis: None,
        }
    }
}

impl GuiAnalysisView {
    /// The detail of the refusal, where the final assembly of the document
    /// fails. Where the engine's builder refused, the detail is its message;
    /// where no refusal of the engine is at hand and the selection of frames
    /// begins after its end, the detail is the library's own.
    pub open spec fn assembly_rejection(self, reply: Option<Seq<char>>) -> Option<Seq<char>> {
        if reply is Some {
            reply
        } else if self.frame_selection_params.begin.spec_gt(self.frame_selection_params.end) {
            Some(begin_end_detail())
        } else {
            None
        }
    }

    /// The group on which writing the document fails, if it fails: the first,
    /// in this order, of the membrane normal, the error estimation, the
    /// leaflets, the geometry, the order maps and the final assembly.
    pub open spec fn rejection(self, replies: EngineRepliesView) -> Option<ErrorKind> {
        if spec_normal_rejection(
            self.membrane_normal,
            self.dynamic_normal_params,
            replies.membrane_normal,
        ) is Some {
            Some(ErrorKind::InvalidMembraneNormal)
        } else if self.estimate_error_params.rejected() {
            Some(ErrorKind::InvalidEstimateError)
        } else if self.leaflet_classification_params.rejection(
            self.leaflet_classification_method,
            replies.leaflets,
        ) is Some {
            Some(ErrorKind::InvalidAnalysisParams)
        } else if self.geom_selection_params.rejection(self.geom_selection, replies.geometry)
            is Some {
            Some(ErrorKind::InvalidGeometryParams)
        } else if self.ordermaps_params.rejection(
            replies.ordermap_dim_x,
            replies.ordermap_dim_y,
            replies.ordermap,
        ) is Some {
            Some(ErrorKind::InvalidOrderMapParams)
        } else if self.assembly_rejection(replies.analysis) is Some {
            Some(ErrorKind::InvalidAnalysisParams)
        } else {
            None
        }
    }

    /// The detail of the error, where writing the document fails, as far as
    /// it is known here: the message of the engine that was handed in, or
    /// the library's own text. Two refusals come from calls that are made
    /// while the document is written, the number of blocks of the error
    /// estimation and the period of the leaflet assignment; their detail is
    /// the engine's message, which depends on the terminal, and nothing is
    /// said of it.
    pub open spec fn known_detail(self, replies: EngineRepliesView) -> Option<Seq<char>> {
        if spec_normal_rejection(
            self.membrane_normal,
            self.dynamic_normal_params,
            replies.membrane_normal,
        ) is Some {
            spec_normal_rejection(
                self.membrane_normal,
                self.dynamic_normal_params,
                replies.membrane_normal,
            )
        } else if self.estimate_error_params.rejected() {
            None
        } else if self.leaflet_classification_params.rejection(
            self.leaflet_classification_method,
            replies.leaflets,
        ) is Some {
            match self.leaflet_classification_params.rejection(
                self.leaflet_classification_method,
                replies.leaflets,
            )->0 {
                LeafletRejection::LocalRadius => Some(local_radius_message(replies.leaflets)),
                LeafletRejection::NormalNotAnAxis => Some(normal_detail()),
                LeafletRejection::Frequency => None,
            }
        } else if self.geom_selection_params.rejection(self.geom_selection, replies.geometry)
            is Some {
            self.geom_selection_params.rejection(self.geom_selection, replies.geometry)
        } else if self.ordermaps_params.rejection(
            replies.ordermap_dim_x,
            replies.ordermap_dim_y,
            replies.ordermap,
        ) is Some {
            self.ordermaps_params.rejection(
                replies.ordermap_dim_x,
                replies.ordermap_dim_y,
                replies.ordermap,
            )
        } else {
            self.assembly_rejection(replies.analysis)
        }
    }

    /// The document for the state of the editor. Of each group it holds the
    /// selected kind with the parameters of that kind alone. The output file
    /// of the full results is always there; every other optional path is left
    /// out where it is empty.
    pub open spec fn to_document(self) -> document::AnalysisView {
        document::AnalysisView {
            structure: self.structure,
            bonds: spec_non_empty(self.bonds),
            trajectory: self.trajectory,
            index: spec_non_empty(self.ndx),
            output_yaml: Some(self.output.output_yaml),
            output_tab: spec_non_empty(self.output.output_tab),
            output_xvg: spec_non_empty(self.output.output_xvg),
            output_csv: spec_non_empty(self.output.output_csv),
            analysis_type: self.analysis_type_params.to_document(self.analysis_type),
            membrane_normal: spec_normal_to_document(
                self.membrane_normal,
                self.dynamic_normal_params,
                self.from_file_normals,
            ),
            begin: self.frame_selection_params.begin,
            end: self.frame_selection_params.end,
            step: self.frame_selection_params.step,
            min_samples: self.other_params.min_samples,
            n_threads: self.other_params.n_threads,
            leaflets: self.leaflet_classification_params.to_document(
                self.leaflet_classification_method,
            ),
            map: self.ordermaps_params.to_document(),
            estimate_error: self.estimate_error_params.to_document(),
            geometry: self.geom_selection_params.to_document(self.geom_selection),
            handle_pbc: self.other_params.handle_pbc,
            silent: self.other_params.silent,
            overwrite: self.other_params.overwrite,
        }
    }
}

impl GuiAnalysis {
    /// Reads a document into the state of the editor.
    ///
    /// Fails, and gives no state at all, on a document that gives its
    /// membrane normals or its leaflet assignment inline.
    pub fn try_from_document(value: &document::Analysis) -> (r: Result<GuiAnalysis, ConversionError>)
        ensures
            r is Ok <==> spec_import(value@) is Ok,
            r matches Ok(gui) ==> Ok::<GuiAnalysisView, ConversionErrorView>(gui@) == spec_import(
                value@,
            ),
            r matches Err(e) ==> Err::<GuiAnalysisView, ConversionErrorView>(e@) == spec_import(
                value@,
            ),
    {
        let membrane_normal = MembraneNormal::try_from_document(&value.membrane_normal)?;
        let dynamic_normal_params = DynamicNormalParams::try_from_document(&value.membrane_normal)?;
        let leaflet_classification_method = LeafletClassification::try_from_document(
            &value.leaflets,
        )?;
        let leaflet_classification_params = LeafletClassificationParams::try_from_document(
            &value.leaflets,
        )?;
        Ok(
            GuiAnalysis {
                structure: value.structure.clone(),
                trajectory: clone_strings(&value.trajectory),
                ndx: or_empty(&value.index),
                bonds: or_empty(&value.bonds),
                output: OutputFiles::from_document(value),
                analysis_type: AnalysisType::from_document(&value.analysis_type),
                analysis_type_params: AnalysisTypeParams::from_document(&value.analysis_type),
                membrane_normal,
                dynamic_normal_params,
                from_file_normals: normals_file(&value.membrane_normal),
                leaflet_classification_method,
                leaflet_classification_params,
                estimate_error_params: EstimateErrorParams::from_document(&value.estimate_error),
                frame_selection_params: FrameSelectionParams::new(
                    value.begin,
                    value.end,
                    value.step,
                ),
                geom_selection: GeomSelection::from_document(&value.geometry),
                geom_selection_params: GeomSelectionParams::from_document(&value.geometry),
                ordermaps_params: OrderMapsParams::from_document(&value.map),
                other_params: OtherParams::from_document(value),
            },
        )
    }

    /// Puts the document together from the blocks of the groups, given the
    /// message with which the engine's builder refused the analysis as a
    /// whole, if it did.
    ///
    /// A refusal of the builder is handed on as it came. Where none is at
    /// hand and the selection of frames begins after its end, the library
    /// refuses with a detail of its own.
    pub fn assemble(
        &self,
        membrane_normal: document::MembraneNormal,
        estimate_error: Option<document::EstimateError>,
        leaflets: Option<document::LeafletClassification>,
        geometry: Option<document::Geometry>,
        map: Option<document::OrderMap>,
        reply: &Option<String>,
    ) -> (r: Result<document::Analysis, ConversionError>)
        ensures
            r is Err <==> self@.assembly_rejection(opt_view(*reply)) is Some,
            r matches Err(e) ==> e@ == ConversionErrorView::InvalidAnalysisParams(
                self@.assembly_rejection(opt_view(*reply))->0,
            ),
            r matches Ok(doc) ==> doc@ == (document::AnalysisView {
                membrane_normal: membrane_normal@,
                estimate_error: document::estimate_error_view(estimate_error),
                leaflets: document::leaflets_view(leaflets),
                geometry: document::geometry_view(geometry),
                map: document::map_view(map),
                ..self@.to_document()
            }),
    {
        match reply {
            Some(message) => {
                return Err(ConversionError::InvalidAnalysisParams(message.clone()));
            },
            None => {},
        }
        if self.frame_selection_params.begin.gt(self.frame_selection_params.end) {
            return Err(
                ConversionError::InvalidAnalysisParams(
                    String::from_str(
                        "invalid values of 'begin' and 'end' (begin is higher than end)",
                    ),
                ),
            );
        }
        Ok(
            document::Analysis {
                structure: self.structure.clone(),
                bonds: non_empty(&self.bonds),
                trajectory: clone_strings(&self.trajectory),
                index: non_empty(&self.ndx),
                output_yaml: Some(self.output.output_yaml.clone()),
                output_tab: non_empty(&self.output.output_tab),
                output_xvg: non_empty(&self.output.output_xvg),
                output_csv: non_empty(&self.output.output_csv),
                analysis_type: self.analysis_type_params.to_document(self.analysis_type),
                membrane_normal,
                begin: self.frame_selection_params.begin,
                end: self.frame_selection_params.end,
                step: self.frame_selection_params.step,
                min_samples: self.other_params.min_samples,
                n_threads: self.other_params.n_threads,
                leaflets,
                map,
                estimate_error,
                geometry,
                handle_pbc: self.other_params.handle_pbc,
                silent: self.other_params.silent,
                overwrite: self.other_params.overwrite,
            },
        )
    }

    /// The document for the state of the editor as it is put to the engine:
    /// nothing is checked. It says what to ask the engine before the
    /// document is written.
    pub fn draft(&self) -> (r: document::Analysis)
        ensures
            r@ == self@.to_document(),
    {
        document::Analysis {
            structure: self.structure.clone(),
            bonds: non_empty(&self.bonds),
            trajectory: clone_strings(&self.trajectory),
            index: non_empty(&self.ndx),
            output_yaml: Some(self.output.output_yaml.clone()),
            output_tab: non_empty(&self.output.output_tab),
            output_xvg: non_empty(&self.output.output_xvg),
            output_csv: non_empty(&self.output.output_csv),
            analysis_type: self.analysis_type_params.to_document(self.analysis_type),
            membrane_normal: normal_draft(
                self.membrane_normal,
                &self.dynamic_normal_params,
                &self.from_file_normals,
            ),
            begin: self.frame_selection_params.begin,
            end: self.frame_selection_params.end,
            step: self.frame_selection_params.step,
            min_samples: self.other_params.min_samples,
            n_threads: self.other_params.n_threads,
            leaflets: self.leaflet_classification_params.draft(self.leaflet_classification_method),
            map: self.ordermaps_params.draft(),
            estimate_error: self.estimate_error_params.draft(),
            geometry: self.geom_selection_params.draft(self.geom_selection),
            handle_pbc: self.other_params.handle_pbc,
            silent: self.other_params.silent,
            overwrite: self.other_params.overwrite,
        }
    }

    /// Writes the state of the editor, valid or not, into a document, given
    /// what the engine answered to the parts of the draft that hold numbers
    /// of the machine.
    ///
    /// Fails on the first group that is refused, and then gives no document
    /// at all. The state of the editor is not changed. What the engine
    /// refused is refused with the engine's message.
    pub fn to_document(&self, replies: &EngineReplies) -> (r: Result<
        document::Analysis,
        ConversionError,
    >)
        ensures
            r is Ok <==> self@.rejection(replies@) is None,
            r matches Ok(doc) ==> doc@ == self@.to_document(),
            r matches Err(e) ==> Some(e@.kind()) == self@.rejection(replies@),
            r matches Err(e) ==> (self@.known_detail(replies@) matches Some(detail) ==> e@.detail()
                == detail),
    {
        let membrane_normal = normal_to_document(
            self.membrane_normal,
            &self.dynamic_normal_params,
            &self.from_file_normals,
            &replies.membrane_normal,
        )?;
        let estimate_error = self.estimate_error_params.to_document()?;
        let leaflets = self.leaflet_classification_params.to_document(
            self.leaflet_classification_method,
            &replies.leaflets,
        )?;
        let geometry = self.geom_selection_params.to_document(
            self.geom_selection,
            &replies.geometry,
        )?;
        let map = self.ordermaps_params.to_document(
            &replies.ordermap_dim_x,
            &replies.ordermap_dim_y,
            &replies.ordermap,
        )?;
        self.assemble(membrane_normal, estimate_error, leaflets, geometry, map, &replies.analysis)
    }
}

} // verus!
