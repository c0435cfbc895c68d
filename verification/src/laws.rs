//! What holds of the conversions and of the validity predicates, for every
//! document and every state of the editor.

use vstd::prelude::*;
use crate::analysis_types::{AnalysisType, AnalysisTypeParamsView};
use crate::common::{GuiAnalysisView, MembraneNormal};
use crate::convert::{spec_import, EngineRepliesView};
use crate::document;
use crate::document::Frequency;
use crate::error::{ConversionErrorView, ErrorKind};
use crate::estimate_error::EstimateErrorParamsView;
use crate::geometry::{GeomReferenceType, GeomSelection, GeomSelectionParamsView};
use crate::leaflets::{
    local_radius_message,
    spec_frequency_from_raw,
    spec_imported_frequency,
    spec_method_of,
    spec_raw_frequency,
    LeafletClassification,
    LeafletClassificationParamsView,
    LeafletRejection,
    RawFrequency,
};
use crate::membrane_normal::{
    spec_normal_is_valid,
    spec_normal_rejection,
    spec_normal_to_document,
    spec_normals_file,
    DynamicNormalParamsView,
};
use crate::ordermaps::{spec_span_rejection, OrderMapDimension, OrderMapsParamsView, Plane};
use crate::scalar::Scalar;
use crate::text::{lemma_or_empty_non_empty, spec_non_empty, spec_or_empty};

verus! {

/// The analysis type of a document is read and written back unchanged.
pub proof fn lemma_analysis_type_round_trip(value: document::AnalysisTypeView)
    requires
        value.no_empty_option(),
    ensures
        AnalysisTypeParamsView::from_document(value).to_document(
            crate::analysis_types::spec_type_of(value),
        ) == value,
{
    match value {
        document::AnalysisTypeView::UAOrder { saturated, unsaturated, ignore } => {
            lemma_or_empty_non_empty(saturated);
            lemma_or_empty_non_empty(unsaturated);
            lemma_or_empty_non_empty(ignore);
        },
        _ => {},
    }
}

/// The membrane normal of a document is read and written back unchanged, and
/// is not refused where the engine accepts it.
pub proof fn lemma_membrane_normal_round_trip(value: document::MembraneNormalView)
    requires
        !(value is FromMap),
        value.accepted(),
    ensures
        MembraneNormal::spec_try_from_document(value) is Ok,
        DynamicNormalParamsView::spec_try_from_document(value) is Ok,
        spec_normal_rejection(
            MembraneNormal::spec_try_from_document(value)->Ok_0,
            DynamicNormalParamsView::spec_try_from_document(value)->Ok_0,
            None,
        ) is None,
        spec_normal_to_document(
            MembraneNormal::spec_try_from_document(value)->Ok_0,
            DynamicNormalParamsView::spec_try_from_document(value)->Ok_0,
            spec_normals_file(value),
        ) == value,
{
}

/// The leaflet block of a document is read and written back unchanged, and
/// is not refused where the engine accepts it, unless the assignment is
/// made once only.
pub proof fn lemma_leaflets_round_trip(value: Option<document::LeafletClassificationView>)
    requires
        !(value matches Some(document::LeafletClassificationView::FromMap { .. })),
        value matches Some(l) ==> l.accepted() && l.frequency() != Frequency::Once,
    ensures
        spec_method_of(value) is Ok,
        LeafletClassificationParamsView::spec_try_from_document(value) is Ok,
        LeafletClassificationParamsView::spec_try_from_document(value)->Ok_0.rejection(
            spec_method_of(value)->Ok_0,
            None,
        ) is None,
        LeafletClassificationParamsView::spec_try_from_document(value)->Ok_0.to_document(
            spec_method_of(value)->Ok_0,
        ) == value,
{
}

/// The geometry block of a document is read and written back unchanged, and
/// is not refused where the engine accepts it.
pub proof fn lemma_geometry_round_trip(value: Option<document::GeometryView>)
    requires
        value matches Some(g) ==> g.accepted(),
    ensures
        GeomSelectionParamsView::from_document(value).rejection(
            crate::geometry::spec_selection_of(value),
            None,
        ) is None,
        GeomSelectionParamsView::from_document(value).to_document(
            crate::geometry::spec_selection_of(value),
        ) == value,
{
}

/// The block of the order maps of a document is read and written back
/// unchanged, and is not refused where the engine accepts it, if it names
/// its output directory.
pub proof fn lemma_ordermap_round_trip(value: Option<document::OrderMapView>)
    requires
        value matches Some(m) ==> m.accepted() && m.output_directory is Some,
    ensures
        OrderMapsParamsView::from_document(value).rejection(None, None, None) is None,
        OrderMapsParamsView::from_document(value).to_document() == value,
{
}

/// The block of the error estimation of a document is read and written back
/// unchanged, and is not refused where the engine accepts it.
pub proof fn lemma_estimate_error_round_trip(value: Option<document::EstimateErrorView>)
    requires
        value matches Some(e) ==> e.accepted() && e.output_convergence != Some(
            Seq::<char>::empty(),
        ),
    ensures
        !EstimateErrorParamsView::from_document(value).rejected(),
        EstimateErrorParamsView::from_document(value).to_document() == value,
{
    match value {
        Some(e) => {
            lemma_or_empty_non_empty(e.output_convergence);
        },
        None => {},
    }
}

/// Reading a document and writing the state back gives the document, field
/// by field, with the trajectories and the NDX files in their order.
///
/// This holds of every document that passes the rules stated in this
/// library, that gives no membrane normals and no leaflets inline, and that
/// is in the form in which the editor writes, where the engine refuses
/// nothing of what is put to it.
pub proof fn lemma_round_trip(value: document::AnalysisView)
    requires
        value.accepted(),
        value.without_inline_maps(),
        value.in_written_form(),
    ensures
        spec_import(value) is Ok,
        spec_import(value)->Ok_0.rejection(EngineRepliesView::none()) is None,
        spec_import(value)->Ok_0.to_document() == value,
{
    lemma_analysis_type_round_trip(value.analysis_type);
    lemma_membrane_normal_round_trip(value.membrane_normal);
    lemma_leaflets_round_trip(value.leaflets);
    lemma_geometry_round_trip(value.geometry);
    lemma_ordermap_round_trip(value.map);
    lemma_estimate_error_round_trip(value.estimate_error);
    lemma_or_empty_non_empty(value.bonds);
    lemma_or_empty_non_empty(value.index);
    lemma_or_empty_non_empty(value.output_tab);
    lemma_or_empty_non_empty(value.output_xvg);
    lemma_or_empty_non_empty(value.output_csv);
}

/// A frequency of once and a frequency of every frame are read alike, as
/// every frame; the editor shows it as "every frame" and writes it back as
/// every frame.
pub proof fn lemma_frequency_normalization(frequency: Frequency)
    requires
        frequency == Frequency::Once || frequency == Frequency::Every(1),
    ensures
        spec_imported_frequency(frequency) == Frequency::Every(1),
        spec_raw_frequency(spec_imported_frequency(frequency)) == (RawFrequency::Every, 1usize),
        spec_frequency_from_raw(
            spec_raw_frequency(spec_imported_frequency(frequency)).0,
            spec_raw_frequency(spec_imported_frequency(frequency)).1,
        ) == Frequency::Every(1),
{
}

/// A leaflet block whose assignment is made once or every frame is written
/// back, when it was read and not changed, with an assignment every frame.
pub proof fn lemma_leaflets_frequency_normalization(value: document::LeafletClassificationView)
    requires
        !(value is FromMap),
        value.frequency() == Frequency::Once || value.frequency() == Frequency::Every(1),
    ensures
        LeafletClassificationParamsView::spec_try_from_document(Some(value))->Ok_0.to_document(
            spec_method_of(Some(value))->Ok_0,
        ) matches Some(written) && written.frequency() == Frequency::Every(1),
{
}

/// What the editor shows for a frequency, taken back, is that frequency; and
/// whatever is chosen in the editor is a frequency that the engine holds.
pub proof fn lemma_raw_frequency_round_trip(frequency: Frequency, raw: RawFrequency, n: usize)
    ensures
        frequency.accepted() ==> spec_frequency_from_raw(
            spec_raw_frequency(frequency).0,
            spec_raw_frequency(frequency).1,
        ) == frequency,
        spec_frequency_from_raw(raw, n).accepted(),
        raw == RawFrequency::EveryN ==> (spec_frequency_from_raw(raw, n) matches Frequency::Every(m)
            && m >= 2),
{
}

/// A document with membrane normals given inline is refused as such, and a
/// document with leaflets given inline and other normals is refused as such;
/// in both cases no state is given.
pub proof fn lemma_inline_maps_refused(value: document::AnalysisView)
    ensures
        value.membrane_normal is FromMap ==> spec_import(value) == Err::<
            GuiAnalysisView,
            ConversionErrorView,
        >(ConversionErrorView::FromMapNormals),
        !(value.membrane_normal is FromMap) && (value.leaflets matches Some(
            document::LeafletClassificationView::FromMap { .. },
        )) ==> spec_import(value) == Err::<GuiAnalysisView, ConversionErrorView>(
            ConversionErrorView::FromMapLeaflets,
        ),
        value.without_inline_maps() <==> spec_import(value) is Ok,
{
}

/// The analysis type is valid exactly when the selections that it requires
/// are filled in.
pub proof fn lemma_analysis_params_gating(params: AnalysisTypeParamsView, selected: AnalysisType)
    ensures
        selected == AnalysisType::AAOrder ==> (params.is_complete(selected) <==> (
        params.aa_params.heavy_atoms.len() > 0 && params.aa_params.hydrogens.len() > 0)),
        selected == AnalysisType::CGOrder ==> (params.is_complete(selected) <==> (
        params.cg_params.beads.len() > 0)),
        selected == AnalysisType::UAOrder ==> params.is_complete(selected),
{
}

/// The membrane normal is valid exactly when a dynamic normal has its heads
/// and a radius above zero, and a normal from a file has its path.
pub proof fn lemma_membrane_normal_gating(
    selected: MembraneNormal,
    dynamic: DynamicNormalParamsView,
    from_file: Seq<char>,
)
    ensures
        selected.is_static() ==> spec_normal_is_valid(selected, dynamic, from_file),
        selected == MembraneNormal::Dynamic ==> (spec_normal_is_valid(selected, dynamic, from_file)
            <==> (dynamic.heads.len() > 0 && dynamic.radius.is_positive())),
        selected == MembraneNormal::Dynamic && dynamic.radius == Scalar::zero()
            ==> !spec_normal_is_valid(selected, dynamic, from_file),
        selected == MembraneNormal::FromFile ==> (spec_normal_is_valid(selected, dynamic, from_file)
            <==> from_file.len() > 0),
{
}

/// The leaflet assignment with a static global normal is valid exactly when
/// the parameters of the selected method are filled in: an empty selection
/// makes it invalid, and filling in what is missing makes it valid.
pub proof fn lemma_leaflets_gating(
    params: LeafletClassificationParamsView,
    method: LeafletClassification,
    normal: MembraneNormal,
)
    requires
        normal != MembraneNormal::Dynamic,
    ensures
        method == LeafletClassification::NoAssignment ==> params.is_valid(method, normal),
        method == LeafletClassification::Global ==> (params.is_valid(method, normal) <==> (
        params.global_params.membrane.len() > 0 && params.global_params.heads.len() > 0)),
        method == LeafletClassification::Local ==> (params.is_valid(method, normal) <==> (
        params.local_params.membrane.len() > 0 && params.local_params.heads.len() > 0
            && params.local_params.radius.is_positive())),
        method == LeafletClassification::Individual ==> (params.is_valid(method, normal) <==> (
        params.individual_params.heads.len() > 0 && params.individual_params.methyls.len() > 0)),
        method == LeafletClassification::Clustering ==> (params.is_valid(method, normal) <==> (
        params.clustering_params.heads.len() > 0)),
        method == LeafletClassification::FromFile ==> (params.is_valid(method, normal) <==> (
        params.from_file_params.file.len() > 0)),
        method == LeafletClassification::FromNdx ==> (params.is_valid(method, normal)
            <==> params.from_ndx_params.is_complete()),
{
}

/// The geometry is valid exactly when a cylinder or a sphere has a radius
/// above zero and a reference by selection has its selection; the whole
/// system is always valid, and a cuboid is valid with every bound.
pub proof fn lemma_geometry_gating(params: GeomSelectionParamsView, selection: GeomSelection)
    ensures
        selection == GeomSelection::WholeSystem ==> params.is_valid(selection),
        selection != GeomSelection::WholeSystem && params.reference_type
            == GeomReferenceType::Selection && params.ref_selection.len() == 0 ==> !params.is_valid(
            selection,
        ),
        params.reference_type != GeomReferenceType::Selection || params.ref_selection.len() > 0 ==> (
        (selection == GeomSelection::Cuboid ==> params.is_valid(selection)) && (selection
            == GeomSelection::Cylinder ==> (params.is_valid(selection)
            <==> params.cylinder.radius.is_positive())) && (selection == GeomSelection::Sphere ==> (
        params.is_valid(selection) <==> params.sphere.radius.is_positive()))),
        !Scalar::zero().is_positive(),
{
}

/// The order maps are valid exactly when, with maps switched on, the output
/// directory is named, both bin sizes are above zero, and the plane is set
/// explicitly where the membrane normal is no axis.
pub proof fn lemma_ordermaps_gating(params: OrderMapsParamsView, normal: MembraneNormal)
    ensures
        !params.calculate_maps ==> params.is_valid(normal),
        params.calculate_maps ==> (params.is_valid(normal) <==> (params.output_directory.len() > 0
            && params.bin_size_x.is_positive() && params.bin_size_y.is_positive() && (
        params.plane is Some || normal.is_static()))),
        params.calculate_maps && !normal.is_static() && params.plane is None ==> !params.is_valid(
            normal,
        ),
{
}

/// The whole state is valid exactly when every group is valid and the
/// required paths are filled in.
pub proof fn lemma_aggregate_gating(gui: GuiAnalysisView)
    ensures
        gui.is_valid() <==> (gui.analysis_params_valid() && gui.membrane_normal_valid()
            && gui.leaflets_valid() && gui.ordermaps_valid() && gui.geometry_valid()
            && gui.structure.len() > 0 && gui.trajectory.len() > 0
            && crate::text::spec_all_filled(gui.trajectory) && gui.output.output_yaml.len() > 0),
        !GuiAnalysisView::empty().is_valid(),
{
}

/// With a dynamic global normal, a method that takes a membrane normal is
/// valid exactly when its parameters are filled in and the normal for the
/// assignment is set explicitly.
pub proof fn lemma_dynamic_normal_needs_explicit_leaflet_normal(
    params: LeafletClassificationParamsView,
    method: LeafletClassification,
)
    requires
        LeafletClassificationParamsView::uses_normal(method),
    ensures
        params.is_valid(method, MembraneNormal::Dynamic) <==> (params.method_is_complete(method)
            && params.membrane_normal is Some),
        params.method_is_complete(method) ==> !(LeafletClassificationParamsView {
            membrane_normal: None,
            ..params
        }).is_valid(method, MembraneNormal::Dynamic),
        params.method_is_complete(method) ==> (LeafletClassificationParamsView {
            membrane_normal: Some(MembraneNormal::Z),
            ..params
        }).is_valid(method, MembraneNormal::Dynamic),
{
}

/// A dynamic normal whose radius is zero or negative is refused as an
/// invalid membrane normal, whatever else the state holds and whatever the
/// engine answered.
pub proof fn lemma_zero_dynamic_radius_refused(gui: GuiAnalysisView, replies: EngineRepliesView)
    requires
        gui.membrane_normal == MembraneNormal::Dynamic,
        gui.dynamic_normal_params.radius.is_zero_or_negative(),
    ensures
        gui.rejection(replies) == Some(ErrorKind::InvalidMembraneNormal),
        Scalar::zero().is_zero_or_negative(),
{
}

/// A cylinder or a sphere whose radius is zero or negative is refused,
/// whatever the engine answered: the state is not written, and where no
/// group before the geometry is refused, the error is that of invalid
/// geometry parameters.
pub proof fn lemma_zero_geometry_radius_refused(gui: GuiAnalysisView, replies: EngineRepliesView)
    requires
        (gui.geom_selection == GeomSelection::Cylinder
            && gui.geom_selection_params.cylinder.radius.is_zero_or_negative()) || (
        gui.geom_selection == GeomSelection::Sphere
            && gui.geom_selection_params.sphere.radius.is_zero_or_negative()),
    ensures
        gui.geom_selection_params.rejection(gui.geom_selection, replies.geometry) is Some,
        gui.rejection(replies) is Some,
        (spec_normal_rejection(
            gui.membrane_normal,
            gui.dynamic_normal_params,
            replies.membrane_normal,
        ) is None && !gui.estimate_error_params.rejected()
            && gui.leaflet_classification_params.rejection(
            gui.leaflet_classification_method,
            replies.leaflets,
        ) is None) ==> gui.rejection(replies) == Some(ErrorKind::InvalidGeometryParams),
{
}

/// Order maps with a bin size that is zero or negative are refused, whatever
/// the engine answered: the state is not written, and where no group before
/// the maps is refused, the error is that of invalid parameters of the maps.
pub proof fn lemma_zero_bin_size_refused(gui: GuiAnalysisView, replies: EngineRepliesView)
    requires
        gui.ordermaps_params.calculate_maps,
        gui.ordermaps_params.bin_size_x.is_zero_or_negative()
            || gui.ordermaps_params.bin_size_y.is_zero_or_negative(),
    ensures
        gui.ordermaps_params.rejection(
            replies.ordermap_dim_x,
            replies.ordermap_dim_y,
            replies.ordermap,
        ) is Some,
        gui.rejection(replies) is Some,
        (spec_normal_rejection(
            gui.membrane_normal,
            gui.dynamic_normal_params,
            replies.membrane_normal,
        ) is None && !gui.estimate_error_params.rejected()
            && gui.leaflet_classification_params.rejection(
            gui.leaflet_classification_method,
            replies.leaflets,
        ) is None && gui.geom_selection_params.rejection(gui.geom_selection, replies.geometry)
            is None) ==> gui.rejection(replies) == Some(ErrorKind::InvalidOrderMapParams),
{
}

/// A local leaflet assignment whose radius is zero or negative is refused,
/// whatever the engine answered: the state is not written, and where no
/// group before the leaflets is refused, the error is that of invalid
/// analysis parameters.
pub proof fn lemma_zero_local_radius_refused(gui: GuiAnalysisView, replies: EngineRepliesView)
    requires
        gui.leaflet_classification_method == LeafletClassification::Local,
        gui.leaflet_classification_params.local_params.radius.is_zero_or_negative(),
    ensures
        gui.rejection(replies) is Some,
        (spec_normal_rejection(
            gui.membrane_normal,
            gui.dynamic_normal_params,
            replies.membrane_normal,
        ) is None && !gui.estimate_error_params.rejected()) ==> gui.rejection(replies) == Some(
            ErrorKind::InvalidAnalysisParams,
        ),
{
}

/// What the engine's builder refused is refused as invalid analysis
/// parameters with the builder's message, whether or not the selection of
/// frames begins after its end, where no group before the final assembly is
/// refused.
pub proof fn lemma_refusal_of_the_builder_is_handed_on(
    gui: GuiAnalysisView,
    replies: EngineRepliesView,
    message: Seq<char>,
)
    requires
        replies.analysis == Some(message),
        spec_normal_rejection(
            gui.membrane_normal,
            gui.dynamic_normal_params,
            replies.membrane_normal,
        ) is None,
        !gui.estimate_error_params.rejected(),
        gui.leaflet_classification_params.rejection(
            gui.leaflet_classification_method,
            replies.leaflets,
        ) is None,
        gui.geom_selection_params.rejection(gui.geom_selection, replies.geometry) is None,
        gui.ordermaps_params.rejection(
            replies.ordermap_dim_x,
            replies.ordermap_dim_y,
            replies.ordermap,
        ) is None,
    ensures
        gui.rejection(replies) == Some(ErrorKind::InvalidAnalysisParams),
        gui.known_detail(replies) == Some(message),
{
}

/// What the engine refused of a group is refused with the engine's message:
/// the dynamic normal, the radius of the local leaflet assignment, the
/// selected geometry, a manual extent of the order maps and the order maps
/// as a whole.
pub proof fn lemma_refusals_of_the_engine_are_handed_on(
    gui: GuiAnalysisView,
    replies: EngineRepliesView,
    message: Seq<char>,
)
    ensures
        (gui.membrane_normal == MembraneNormal::Dynamic && replies.membrane_normal == Some(
            message,
        )) ==> spec_normal_rejection(
            gui.membrane_normal,
            gui.dynamic_normal_params,
            replies.membrane_normal,
        ) == Some(message),
        (gui.leaflet_classification_method == LeafletClassification::Local && replies.leaflets
            == Some(message)) ==> gui.leaflet_classification_params.rejection(
            gui.leaflet_classification_method,
            replies.leaflets,
        ) == Some(LeafletRejection::LocalRadius) && local_radius_message(replies.leaflets)
            == message,
        (gui.geom_selection != GeomSelection::WholeSystem && replies.geometry == Some(message))
            ==> gui.geom_selection_params.rejection(gui.geom_selection, replies.geometry) == Some(
            message,
        ),
        (gui.ordermaps_params.calculate_maps && gui.ordermaps_params.dimension_x
            == OrderMapDimension::Manual && replies.ordermap_dim_x == Some(message))
            ==> gui.ordermaps_params.rejection(
            replies.ordermap_dim_x,
            replies.ordermap_dim_y,
            replies.ordermap,
        ) == Some(message),
        (gui.ordermaps_params.calculate_maps && spec_span_rejection(
            gui.ordermaps_params.dimension_x,
            gui.ordermaps_params.x_manual,
            replies.ordermap_dim_x,
        ) is None && spec_span_rejection(
            gui.ordermaps_params.dimension_y,
            gui.ordermaps_params.y_manual,
            replies.ordermap_dim_y,
        ) is None && gui.ordermaps_params.plane != Some(Plane::Unknown) && replies.ordermap
            == Some(message)) ==> gui.ordermaps_params.rejection(
            replies.ordermap_dim_x,
            replies.ordermap_dim_y,
            replies.ordermap,
        ) == Some(message),
{
}

/// A state that is written is written to a document that passes every rule
/// stated in this library. What only the engine can judge is not among
/// them: the formats of the input files, the step, the minimum number of
/// samples and the number of threads, and the output directory of the order
/// maps, which the engine refuses where it is the directory in which the
/// program runs. The engine's answers to these come in with the replies.
pub proof fn lemma_written_document_is_accepted(gui: GuiAnalysisView, replies: EngineRepliesView)
    requires
        gui.rejection(replies) is None,
    ensures
        gui.to_document().accepted(),
        gui.to_document().without_inline_maps(),
{
}

} // verus!
