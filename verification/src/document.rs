//! The configuration document of the analysis engine, as plain values.
//!
//! The types here follow the engine's schema field by field. Each type that
//! holds text has a view that holds the same fields as sequences of characters;
//! contracts and laws are stated over the views.

use vstd::prelude::*;
use crate::scalar::Scalar;
use crate::text::{opt_view, views};

verus! {

/// One of the three axes of the simulation box.
#[derive(Debug, Clone, Copy, PartialEq, Eq, Structural)]
pub enum Axis {
    X,
    Y,
    Z,
}

/// A plane of the simulation box.
#[derive(Debug, Clone, Copy, PartialEq, Eq, Structural)]
pub enum Plane {
    XY,
    XZ,
    YZ,
}

/// How often an action is repeated.
#[derive(Debug, Clone, Copy, PartialEq, Eq, Structural)]
pub enum Frequency {
    /// Every so many analysed frames; the engine knows no period of zero.
    Every(usize),
    /// Once, on the first frame.
    Once,
}

impl Frequency {
    /// The engine can hold this frequency.
    pub open spec fn accepted(self) -> bool {
        self matches Frequency::Every(n) ==> n >= 1
    }
}

/// A lower and an upper bound along one direction.
#[derive(Debug, Clone, Copy, PartialEq, Eq, Structural)]
pub struct Interval {
    pub start: Scalar,
    pub end: Scalar,
}

impl Interval {
    /// The engine rejects an interval whose start is above its end.
    pub open spec fn accepted(self) -> bool {
        !self.start.spec_gt(self.end)
    }

    /// The whole axis.
    pub open spec fn unbounded() -> Interval {
        Interval { start: Scalar::neg_infinity(), end: Scalar::infinity() }
    }
}

/// A point in space.
#[derive(Debug, Clone, Copy, PartialEq, Eq, Structural)]
pub struct Point {
    pub x: Scalar,
    pub y: Scalar,
    pub z: Scalar,
}

impl Point {
    /// The origin of the coordinate system.
    pub open spec fn origin() -> Point {
        Point { x: Scalar::zero(), y: Scalar::zero(), z: Scalar::zero() }
    }
}

/// The kind of order parameters to compute, with the atoms it is computed on.
#[derive(Debug, Clone)]
pub enum AnalysisType {
    AAOrder { heavy_atoms: String, hydrogens: String },
    CGOrder { beads: String },
    UAOrder { saturated: Option<String>, unsaturated: Option<String>, ignore: Option<String> },
}

pub enum AnalysisTypeView {
    AAOrder { heavy_atoms: Seq<char>, hydrogens: Seq<char> },
    CGOrder { beads: Seq<char> },
    UAOrder {
        saturated: Option<Seq<char>>,
        unsaturated: Option<Seq<char>>,
        ignore: Option<Seq<char>>,
    },
}

impl View for AnalysisType {
    type V = AnalysisTypeView;

    open spec fn view(&self) -> AnalysisTypeView {
        match self {
            AnalysisType::AAOrder { heavy_atoms, hydrogens } => AnalysisTypeView::AAOrder {
                heavy_atoms: heavy_atoms@,
                hydrogens: hydrogens@,
            },
            AnalysisType::CGOrder { beads } => AnalysisTypeView::CGOrder { beads: beads@ },
            AnalysisType::UAOrder { saturated, unsaturated, ignore } => AnalysisTypeView::UAOrder {
                saturated: opt_view(*saturated),
                unsaturated: opt_view(*unsaturated),
                ignore: opt_view(*ignore),
            },
        }
    }
}

/// The membrane normal, or how to find it.
#[derive(Debug, Clone)]
pub enum MembraneNormal {
    /// Along one axis of the box.
    Static(Axis),
    /// Computed for each molecule from the lipid heads within a radius.
    Dynamic { heads: String, radius: Scalar },
    /// Read from a file.
    FromFile(String),
    /// Given inline, molecule by molecule. The editor cannot hold such a
    /// table, so the model keeps only the fact that one was given.
    FromMap,
}

pub enum MembraneNormalView {
    Static(Axis),
    Dynamic { heads: Seq<char>, radius: Scalar },
    FromFile(Seq<char>),
    FromMap,
}

impl View for MembraneNormal {
    type V = MembraneNormalView;

    open spec fn view(&self) -> MembraneNormalView {
        match self {
            MembraneNormal::Static(axis) => MembraneNormalView::Static(*axis),
            MembraneNormal::Dynamic { heads, radius } => MembraneNormalView::Dynamic {
                heads: heads@,
                radius: *radius,
            },
            MembraneNormal::FromFile(file) => MembraneNormalView::FromFile(file@),
            MembraneNormal::FromMap => MembraneNormalView::FromMap,
        }
    }
}

impl MembraneNormalView {
    /// The engine rejects a dynamic normal whose radius is zero or negative.
    pub open spec fn accepted(self) -> bool {
        self matches MembraneNormalView::Dynamic { radius, .. } ==> !radius.is_zero_or_negative()
    }
}

/// How lipids are assigned to the two leaflets of the membrane.
#[derive(Debug, Clone)]
pub enum LeafletClassification {
    Global { membrane: String, heads: String, frequency: Frequency, membrane_normal: Option<Axis> },
    Local {
        membrane: String,
        heads: String,
        radius: Scalar,
        frequency: Frequency,
        membrane_normal: Option<Axis>,
    },
    Individual { heads: String, methyls: String, frequency: Frequency, membrane_normal: Option<Axis> },
    FromFile { file: String, frequency: Frequency },
    /// Given inline, molecule by molecule. The editor cannot hold such a
    /// table, so the model keeps only the fact that one was given.
    FromMap { frequency: Frequency },
    FromNdx {
        heads: String,
        ndx: Vec<String>,
        upper_leaflet: String,
        lower_leaflet: String,
        frequency: Frequency,
    },
    Clustering { heads: String, frequency: Frequency },
}

pub enum LeafletClassificationView {
    Global {
        membrane: Seq<char>,
        heads: Seq<char>,
        frequency: Frequency,
        membrane_normal: Option<Axis>,
    },
    Local {
        membrane: Seq<char>,
        heads: Seq<char>,
        radius: Scalar,
        frequency: Frequency,
        membrane_normal: Option<Axis>,
    },
    Individual {
        heads: Seq<char>,
        methyls: Seq<char>,
        frequency: Frequency,
        membrane_normal: Option<Axis>,
    },
    FromFile { file: Seq<char>, frequency: Frequency },
    FromMap { frequency: Frequency },
    FromNdx {
        heads: Seq<char>,
        ndx: Seq<Seq<char>>,
        upper_leaflet: Seq<char>,
        lower_leaflet: Seq<char>,
        frequency: Frequency,
    },
    Clustering { heads: Seq<char>, frequency: Frequency },
}

impl View for LeafletClassification {
    type V = LeafletClassificationView;

    open spec fn view(&self) -> LeafletClassificationView {
        match self {
            LeafletClassification::Global { membrane, heads, frequency, membrane_normal } =>
                LeafletClassificationView::Global {
                    membrane: membrane@,
                    heads: heads@,
                    frequency: *frequency,
                    membrane_normal: *membrane_normal,
                },
            LeafletClassification::Local { membrane, heads, radius, frequency, membrane_normal } =>
                LeafletClassificationView::Local {
                    membrane: membrane@,
                    heads: heads@,
                    radius: *radius,
                    frequency: *frequency,
                    membrane_normal: *membrane_normal,
                },
            LeafletClassification::Individual { heads, methyls, frequency, membrane_normal } =>
                LeafletClassificationView::Individual {
                    heads: heads@,
                    methyls: methyls@,
                    frequency: *frequency,
                    membrane_normal: *membrane_normal,
                },
            LeafletClassification::FromFile { file, frequency } => LeafletClassificationView::FromFile {
                file: file@,
                frequency: *frequency,
            },
            LeafletClassification::FromMap { frequency } => LeafletClassificationView::FromMap {
                frequency: *frequency,
            },
            LeafletClassification::FromNdx { heads, ndx, upper_leaflet, lower_leaflet, frequency } =>
                LeafletClassificationView::FromNdx {
                    heads: heads@,
                    ndx: views(ndx@),
                    upper_leaflet: upper_leaflet@,
                    lower_leaflet: lower_leaflet@,
                    frequency: *frequency,
                },
            LeafletClassification::Clustering { heads, frequency } =>
                LeafletClassificationView::Clustering { heads: heads@, frequency: *frequency },
        }
    }
}

impl LeafletClassificationView {
    /// How often the assignment is repeated.
    pub open spec fn frequency(self) -> Frequency {
        match self {
            LeafletClassificationView::Global { frequency, .. } => frequency,
            LeafletClassificationView::Local { frequency, .. } => frequency,
            LeafletClassificationView::Individual { frequency, .. } => frequency,
            LeafletClassificationView::FromFile { frequency, .. } => frequency,
            LeafletClassificationView::FromMap { frequency } => frequency,
            LeafletClassificationView::FromNdx { frequency, .. } => frequency,
            LeafletClassificationView::Clustering { frequency, .. } => frequency,
        }
    }

    /// The engine holds no period of zero, and no local radius that is zero
    /// or negative.
    pub open spec fn accepted(self) -> bool {
        &&& self.frequency().accepted()
        &&& self matches LeafletClassificationView::Local { radius, .. }
            ==> !radius.is_zero_or_negative()
    }
}

/// The point that a geometry is placed by.
#[derive(Debug, Clone)]
pub enum GeomReference {
    /// A fixed point.
    Point(Point),
    /// The centre of geometry of the selected atoms, in each frame.
    Selection(String),
    /// The centre of the simulation box, in each frame.
    Center,
}

pub enum GeomReferenceView {
    Point(Point),
    Selection(Seq<char>),
    Center,
}

impl View for GeomReference {
    type V = GeomReferenceView;

    open spec fn view(&self) -> GeomReferenceView {
        match self {
            GeomReference::Point(p) => GeomReferenceView::Point(*p),
            GeomReference::Selection(s) => GeomReferenceView::Selection(s@),
            GeomReference::Center => GeomReferenceView::Center,
        }
    }
}

/// The region of space to which the analysis is restricted.
#[derive(Debug, Clone)]
pub enum Geometry {
    Cuboid { reference: GeomReference, xdim: Interval, ydim: Interval, zdim: Interval },
    Cylinder { reference: GeomReference, radius: Scalar, span: Interval, orientation: Axis },
    Sphere { reference: GeomReference, radius: Scalar },
}

pub enum GeometryView {
    Cuboid { reference: GeomReferenceView, xdim: Interval, ydim: Interval, zdim: Interval },
    Cylinder { reference: GeomReferenceView, radius: Scalar, span: Interval, orientation: Axis },
    Sphere { reference: GeomReferenceView, radius: Scalar },
}

impl View for Geometry {
    type V = GeometryView;

    open spec fn view(&self) -> GeometryView {
        match self {
            Geometry::Cuboid { reference, xdim, ydim, zdim } => GeometryView::Cuboid {
                reference: reference@,
                xdim: *xdim,
                ydim: *ydim,
                zdim: *zdim,
            },
            Geometry::Cylinder { reference, radius, span, orientation } => GeometryView::Cylinder {
                reference: reference@,
                radius: *radius,
                span: *span,
                orientation: *orientation,
            },
            Geometry::Sphere { reference, radius } => GeometryView::Sphere {
                reference: reference@,
                radius: *radius,
            },
        }
    }
}

impl GeometryView {
    /// The engine rejects a cuboid or a cylinder with an interval whose start
    /// is above its end, and a cylinder or a sphere with a negative radius.
    /// The editor writes no radius of zero either, so a geometry counts as
    /// accepted only with a radius that is neither zero nor negative.
    pub open spec fn accepted(self) -> bool {
        match self {
            GeometryView::Cuboid { xdim, ydim, zdim, .. } => xdim.accepted() && ydim.accepted()
                && zdim.accepted(),
            GeometryView::Cylinder { radius, span, .. } => !radius.is_zero_or_negative()
                && span.accepted(),
            GeometryView::Sphere { radius, .. } => !radius.is_zero_or_negative(),
        }
    }
}

/// The extent of an order map along one of its two directions.
#[derive(Debug, Clone, Copy, PartialEq, Eq, Structural)]
pub enum GridSpan {
    /// Taken from the simulation box.
    Auto,
    /// Given.
    Manual { start: Scalar, end: Scalar },
}

impl GridSpan {
    /// The engine rejects a given extent whose start is above its end.
    pub open spec fn accepted(self) -> bool {
        self matches GridSpan::Manual { start, end } ==> !start.spec_gt(end)
    }
}

/// The parameters of the maps of order parameters.
#[derive(Debug, Clone)]
pub struct OrderMap {
    pub output_directory: Option<String>,
    pub min_samples: usize,
    pub dim_x: GridSpan,
    pub dim_y: GridSpan,
    pub bin_size_x: Scalar,
    pub bin_size_y: Scalar,
    pub plane: Option<Plane>,
}

pub struct OrderMapView {
    pub output_directory: Option<Seq<char>>,
    pub min_samples: usize,
    pub dim_x: GridSpan,
    pub dim_y: GridSpan,
    pub bin_size_x: Scalar,
    pub bin_size_y: Scalar,
    pub plane: Option<Plane>,
}

impl View for OrderMap {
    type V = OrderMapView;

    open spec fn view(&self) -> OrderMapView {
        OrderMapView {
            output_directory: opt_view(self.output_directory),
            min_samples: self.min_samples,
            dim_x: self.dim_x,
            dim_y: self.dim_y,
            bin_size_x: self.bin_size_x,
            bin_size_y: self.bin_size_y,
            plane: self.plane,
        }
    }
}

impl OrderMapView {
    /// The engine rejects a map that asks for no sample, an extent whose start
    /// is above its end, and a bin size that is zero or negative. It also
    /// rejects an output directory that is the directory in which the program
    /// runs; that depends on the place and not on the document, and is not
    /// part of this predicate.
    pub open spec fn accepted(self) -> bool {
        &&& self.min_samples >= 1
        &&& self.dim_x.accepted()
        &&& self.dim_y.accepted()
        &&& !self.bin_size_x.is_zero_or_negative()
        &&& !self.bin_size_y.is_zero_or_negative()
    }
}

/// The parameters of the error estimation.
#[derive(Debug, Clone)]
pub struct EstimateError {
    pub n_blocks: usize,
    pub output_convergence: Option<String>,
}

pub struct EstimateErrorView {
    pub n_blocks: usize,
    pub output_convergence: Option<Seq<char>>,
}

impl View for EstimateError {
    type V = EstimateErrorView;

    open spec fn view(&self) -> EstimateErrorView {
        EstimateErrorView {
            n_blocks: self.n_blocks,
            output_convergence: opt_view(self.output_convergence),
        }
    }
}

impl EstimateErrorView {
    /// The engine rejects an estimate over fewer than two blocks.
    pub open spec fn accepted(self) -> bool {
        self.n_blocks >= 2
    }
}

/// The whole configuration document.
#[derive(Debug, Clone)]
pub struct Analysis {
    pub structure: String,
    pub bonds: Option<String>,
    pub trajectory: Vec<String>,
    pub index: Option<String>,
    pub output_yaml: Option<String>,
    pub output_tab: Option<String>,
    pub output_xvg: Option<String>,
    pub output_csv: Option<String>,
    pub analysis_type: AnalysisType,
    pub membrane_normal: MembraneNormal,
    pub begin: Scalar,
    pub end: Scalar,
    pub step: usize,
    pub min_samples: usize,
    pub n_threads: usize,
    pub leaflets: Option<LeafletClassification>,
    pub map: Option<OrderMap>,
    pub estimate_error: Option<EstimateError>,
    pub geometry: Option<Geometry>,
    pub handle_pbc: bool,
    pub silent: bool,
    pub overwrite: bool,
}

pub struct AnalysisView {
    pub structure: Seq<char>,
    pub bonds: Option<Seq<char>>,
    pub trajectory: Seq<Seq<char>>,
    pub index: Option<Seq<char>>,
    pub output_yaml: Option<Seq<char>>,
    pub output_tab: Option<Seq<char>>,
    pub output_xvg: Option<Seq<char>>,
    pub output_csv: Option<Seq<char>>,
    pub analysis_type: AnalysisTypeView,
    pub membrane_normal: MembraneNormalView,
    pub begin: Scalar,
    pub end: Scalar,
    pub step: usize,
    pub min_samples: usize,
    pub n_threads: usize,
    pub leaflets: Option<LeafletClassificationView>,
    pub map: Option<OrderMapView>,
    pub estimate_error: Option<EstimateErrorView>,
    pub geometry: Option<GeometryView>,
    pub handle_pbc: bool,
    pub silent: bool,
    pub overwrite: bool,
}

/// The view of an optional leaflet classification.
pub open spec fn leaflets_view(o: Option<LeafletClassification>) -> Option<LeafletClassificationView> {
    match o {
        Some(l) => Some(l@),
        None => None,
    }
}

/// The view of an optional order map.
pub open spec fn map_view(o: Option<OrderMap>) -> Option<OrderMapView> {
    match o {
        Some(m) => Some(m@),
        None => None,
    }
}

/// The view of an optional error estimation.
pub open spec fn estimate_error_view(o: Option<EstimateError>) -> Option<EstimateErrorView> {
    match o {
        Some(e) => Some(e@),
        None => None,
    }
}

/// The view of an optional geometry.
pub open spec fn geometry_view(o: Option<Geometry>) -> Option<GeometryView> {
    match o {
        Some(g) => Some(g@),
        None => None,
    }
}

impl View for Analysis {
    type V = AnalysisView;

    open spec fn view(&self) -> AnalysisView {
        AnalysisView {
            structure: self.structure@,
            bonds: opt_view(self.bonds),
            trajectory: views(self.trajectory@),
            index: opt_view(self.index),
            output_yaml: opt_view(self.output_yaml),
            output_tab: opt_view(self.output_tab),
            output_xvg: opt_view(self.output_xvg),
            output_csv: opt_view(self.output_csv),
            analysis_type: self.analysis_type@,
            membrane_normal: self.membrane_normal@,
            begin: self.begin,
            end: self.end,
            step: self.step,
            min_samples: self.min_samples,
            n_threads: self.n_threads,
            leaflets: leaflets_view(self.leaflets),
            map: map_view(self.map),
            estimate_error: estimate_error_view(self.estimate_error),
            geometry: geometry_view(self.geometry),
            handle_pbc: self.handle_pbc,
            silent: self.silent,
            overwrite: self.overwrite,
        }
    }
}

impl AnalysisTypeView {
    /// No selection is given as the empty text.
    pub open spec fn no_empty_option(self) -> bool {
        self matches AnalysisTypeView::UAOrder { saturated, unsaturated, ignore } ==> saturated
            != Some(Seq::<char>::empty()) && unsaturated != Some(Seq::<char>::empty()) && ignore
            != Some(Seq::<char>::empty())
    }
}

impl AnalysisView {
    /// The document passes every rule that is stated here: each block is
    /// accepted, and the selection of frames does not begin after its end.
    /// What only the engine itself can judge is not part of this predicate:
    /// the formats of the input files, the step, the minimum number of
    /// samples and the number of threads, and the output directory of the
    /// order maps.
    pub open spec fn accepted(self) -> bool {
        &&& self.membrane_normal.accepted()
        &&& self.leaflets matches Some(l) ==> l.accepted()
        &&& self.map matches Some(m) ==> m.accepted()
        &&& self.estimate_error matches Some(e) ==> e.accepted()
        &&& self.geometry matches Some(g) ==> g.accepted()
        &&& !self.begin.spec_gt(self.end)
    }

    /// The document gives neither its membrane normals nor its leaflet
    /// assignment inline.
    pub open spec fn without_inline_maps(self) -> bool {
        &&& !(self.membrane_normal is FromMap)
        &&& !(self.leaflets matches Some(LeafletClassificationView::FromMap { .. }))
    }

    /// The document says what it says in the one way in which the editor
    /// writes it: a path or a selection that is not given is left out and
    /// not given as the empty text, the output file of the full results and
    /// the directory of the order maps are given, and no leaflet assignment
    /// is made once only.
    pub open spec fn in_written_form(self) -> bool {
        &&& self.bonds != Some(Seq::<char>::empty())
        &&& self.index != Some(Seq::<char>::empty())
        &&& self.output_tab != Some(Seq::<char>::empty())
        &&& self.output_xvg != Some(Seq::<char>::empty())
        &&& self.output_csv != Some(Seq::<char>::empty())
        &&& self.output_yaml is Some
        &&& self.analysis_type.no_empty_option()
        &&& self.estimate_error matches Some(e) ==> e.output_convergence != Some(
            Seq::<char>::empty(),
        )
        &&& self.map matches Some(m) ==> m.output_directory is Some
        &&& self.leaflets matches Some(l) ==> l.frequency() != Frequency::Once
    }
}

} // verus!
