//! Parameters for geometric selection.

use vstd::prelude::*;
use vstd::string::StringExecFns;
use crate::document;
use crate::document::{Axis, Interval, Point};
use crate::error::{ConversionError, ConversionErrorView};
use crate::scalar::Scalar;
use crate::text::opt_view;

verus! {

/// The bit pattern of the default radius of a cylinder or a sphere, 5 nm.
pub const DEFAULT_RADIUS_BITS: u32 = 0x40A0_0000;

/// Geometric selection.
#[derive(Debug, Clone, Copy, PartialEq, Eq, Structural)]
pub enum GeomSelection {
    /// No selection: the whole system is analysed.
    WholeSystem,
    Cuboid,
    Cylinder,
    Sphere,
}

impl Default for GeomSelection {
    fn default() -> (r: Self)
        ensures
            r == GeomSelection::WholeSystem,
    {
        GeomSelection::WholeSystem
    }
}

/// Type of reference for the geometry.
#[derive(Debug, Clone, Copy, PartialEq, Eq, Structural)]
pub enum GeomReferenceType {
    Point,
    Selection,
    Center,
}

impl Default for GeomReferenceType {
    fn default() -> (r: Self)
        ensures
            r == GeomReferenceType::Point,
    {
        GeomReferenceType::Point
    }
}

/// Parameters for cuboidal selection.
#[derive(Debug, Clone, Copy, PartialEq, Eq, Structural)]
pub struct CuboidParams {
    pub minx: Scalar,
    pub maxx: Scalar,
    pub miny: Scalar,
    pub maxy: Scalar,
    pub minz: Scalar,
    pub maxz: Scalar,
}

impl CuboidParams {
    /// The cuboid that spans the whole of each axis.
    pub open spec fn unbounded() -> CuboidParams {
        CuboidParams {
            minx: Scalar::neg_infinity(),
            maxx: Scalar::infinity(),
            miny: Scalar::neg_infinity(),
            maxy: Scalar::infinity(),
            minz: Scalar::neg_infinity(),
            maxz: Scalar::infinity(),
        }
    }
}

impl Default for CuboidParams {
    fn default() -> (r: Self)
        ensures
            r == CuboidParams::unbounded(),
    {
        CuboidParams {
            minx: Scalar::new_neg_infinity(),
            maxx: Scalar::new_infinity(),
            miny: Scalar::new_neg_infinity(),
            maxy: Scalar::new_infinity(),
            minz: Scalar::new_neg_infinity(),
            maxz: Scalar::new_infinity(),
        }
    }
}

/// Parameters for cylindrical selection.
#[derive(Debug, Clone, Copy, PartialEq, Eq, Structural)]
pub struct CylinderParams {
    pub radius: Scalar,
    pub start: Scalar,
    pub end: Scalar,
    pub orientation: Axis,
}

impl CylinderParams {
    /// The cylinder of the default radius along the whole z axis.
    pub open spec fn initial() -> CylinderParams {
        CylinderParams {
            radius: Scalar { bits: DEFAULT_RADIUS_BITS },
            start: Scalar::neg_infinity(),
            end: Scalar::infinity(),
            orientation: Axis::Z,
        }
    }

    /// A radius above zero is required.
    pub open spec fn is_complete(self) -> bool {
        self.radius.is_positive()
    }

    /// Check that all parameters have been provided.
    pub fn sanity_check(&self) -> (r: bool)
        ensures
            r == self.is_complete(),
    {
        self.radius.positive()
    }
}

impl Default for CylinderParams {
    fn default() -> (r: Self)
        ensures
            r == CylinderParams::initial(),
    {
        CylinderParams {
            radius: Scalar::from_bits(DEFAULT_RADIUS_BITS),
            start: Scalar::new_neg_infinity(),
            end: Scalar::new_infinity(),
            orientation: Axis::Z,
        }
    }
}

/// Parameters for spherical selection.
#[derive(Debug, Clone, Copy, PartialEq, Eq, Structural)]
pub struct SphereParams {
    pub radius: Scalar,
}

impl SphereParams {
    /// The sphere of the default radius.
    pub open spec fn initial() -> SphereParams {
        SphereParams { radius: Scalar { bits: DEFAULT_RADIUS_BITS } }
    }

    /// A radius above zero is required.
    pub open spec fn is_complete(self) -> bool {
        self.radius.is_positive()
    }

    /// Check that all parameters have been provided.
    pub fn sanity_check(&self) -> (r: bool)
        ensures
            r == self.is_complete(),
    {
        self.radius.positive()
    }
}

impl Default for SphereParams {
    fn default() -> (r: Self)
        ensures
            r == SphereParams::initial(),
    {
        SphereParams { radius: Scalar::from_bits(DEFAULT_RADIUS_BITS) }
    }
}

/// Parameters for geometric selection. The parameters of the shapes that are
/// not selected stay as they were entered; the reference is shared.
#[derive(Debug, Clone)]
pub struct GeomSelectionParams {
    pub cuboid: CuboidParams,
    pub cylinder: CylinderParams,
    pub sphere: SphereParams,
    pub reference_type: GeomReferenceType,
    pub ref_point: Point,
    pub ref_selection: String,
}

pub struct GeomSelectionParamsView {
    pub cuboid: CuboidParams,
    pub cylinder: CylinderParams,
    pub sphere: SphereParams,
    pub reference_type: GeomReferenceType,
    pub ref_point: Point,
    pub ref_selection: Seq<char>,
}

impl View for GeomSelectionParams {
    type V = GeomSelectionParamsView;

    open spec fn view(&self) -> GeomSelectionParamsView {
        GeomSelectionParamsView {
            cuboid: self.cuboid,
            cylinder: self.cylinder,
            sphere: self.sphere,
            reference_type: self.reference_type,
            ref_point: self.ref_point,
            ref_selection: self.ref_selection@,
        }
    }
}

impl Default for GeomSelectionParams {
    fn default() -> (r: Self)
        ensures
            r@ == GeomSelectionParamsView::empty(),
    {
        GeomSelectionParams {
            cuboid: CuboidParams::default(),
            cylinder: CylinderParams::default(),
            sphere: SphereParams::default(),
            reference_type: GeomReferenceType::Point,
            ref_point: Point { x: Scalar::new_zero(), y: Scalar::new_zero(), z: Scalar::new_zero() },
            ref_selection: String::new(),
        }
    }
}

/// The shape that a document asks for.
pub open spec fn spec_selection_of(value: Option<document::GeometryView>) -> GeomSelection {
    match value {
        None => GeomSelection::WholeSystem,
        Some(document::GeometryView::Cuboid { .. }) => GeomSelection::Cuboid,
        Some(document::GeometryView::Cylinder { .. }) => GeomSelection::Cylinder,
        Some(document::GeometryView::Sphere { .. }) => GeomSelection::Sphere,
    }
}

/// The type of a reference.
pub open spec fn spec_reference_type_of(value: document::GeomReferenceView) -> GeomReferenceType {
    match value {
        document::GeomReferenceView::Center => GeomReferenceType::Center,
        document::GeomReferenceView::Point(_) => GeomReferenceType::Point,
        document::GeomReferenceView::Selection(_) => GeomReferenceType::Selection,
    }
}

/// The point of a reference that is a point; the origin for the other types.
pub open spec fn spec_static_reference_point(reference: document::GeomReferenceView) -> Point {
    match reference {
        document::GeomReferenceView::Point(p) => p,
        _ => Point::origin(),
    }
}

/// The selection of a reference that is one; empty for the other types.
pub open spec fn spec_reference_selection(reference: document::GeomReferenceView) -> Seq<char> {
    match reference {
        document::GeomReferenceView::Selection(s) => s,
        _ => Seq::empty(),
    }
}

/// The detail of the error for a cuboid with an interval whose start is above
/// its end.
pub open spec fn dimension_detail() -> Seq<char> {
    "the first value for dimension is higher than the second value for dimension"@
}

/// The detail of the error for a radius that is zero or negative.
pub open spec fn radius_detail() -> Seq<char> {
    "the specified radius for the geometry selection must be greater than 0"@
}

/// The detail of the error for a cylinder whose span starts above its end.
pub open spec fn span_detail() -> Seq<char> {
    "the first value for span is higher than the second value for span"@
}

impl GeomSelectionParamsView {
    pub open spec fn empty() -> GeomSelectionParamsView {
        GeomSelectionParamsView {
            cuboid: CuboidParams::unbounded(),
            cylinder: CylinderParams::initial(),
            sphere: SphereParams::initial(),
            reference_type: GeomReferenceType::Point,
            ref_point: Point::origin(),
            ref_selection: Seq::empty(),
        }
    }

    /// The defaults with the reference of a document filled in.
    pub open spec fn with_reference(reference: document::GeomReferenceView) -> GeomSelectionParamsView {
        GeomSelectionParamsView {
            reference_type: spec_reference_type_of(reference),
            ref_point: spec_static_reference_point(reference),
            ref_selection: spec_reference_selection(reference),
            ..Self::empty()
        }
    }

    /// The parameters that a document gives: those of its shape and its
    /// reference are filled in, all others are at their defaults.
    pub open spec fn from_document(value: Option<document::GeometryView>) -> GeomSelectionParamsView {
        match value {
            None => Self::empty(),
            Some(document::GeometryView::Cuboid { reference, xdim, ydim, zdim }) => GeomSelectionParamsView {
                cuboid: CuboidParams {
                    minx: xdim.start,
                    maxx: xdim.end,
                    miny: ydim.start,
                    maxy: ydim.end,
                    minz: zdim.start,
                    maxz: zdim.end,
                },
                ..Self::with_reference(reference)
            },
            Some(document::GeometryView::Cylinder { reference, radius, span, orientation }) => GeomSelectionParamsView {
                cylinder: CylinderParams { radius, start: span.start, end: span.end, orientation },
                ..Self::with_reference(reference)
            },
            Some(document::GeometryView::Sphere { reference, radius }) => GeomSelectionParamsView {
                sphere: SphereParams { radius },
                ..Self::with_reference(reference)
            },
        }
    }

    /// The reference of the document, from the selected type of reference and
    /// its value alone.
    pub open spec fn reference(self) -> document::GeomReferenceView {
        match self.reference_type {
            GeomReferenceType::Point => document::GeomReferenceView::Point(self.ref_point),
            GeomReferenceType::Selection => document::GeomReferenceView::Selection(self.ref_selection),
            GeomReferenceType::Center => document::GeomReferenceView::Center,
        }
    }

    /// The geometry block of the document for the selected shape: none for the
    /// whole system, else the bounds of that shape alone with the reference.
    pub open spec fn to_document(self, selection: GeomSelection) -> Option<document::GeometryView> {
        match selection {
            GeomSelection::WholeSystem => None,
            GeomSelection::Cuboid => Some(
                document::GeometryView::Cuboid {
                    reference: self.reference(),
                    xdim: Interval { start: self.cuboid.minx, end: self.cuboid.maxx },
                    ydim: Interval { start: self.cuboid.miny, end: self.cuboid.maxy },
                    zdim: Interval { start: self.cuboid.minz, end: self.cuboid.maxz },
                },
            ),
            GeomSelection::Cylinder => Some(
                document::GeometryView::Cylinder {
                    reference: self.reference(),
                    radius: self.cylinder.radius,
                    span: Interval { start: self.cylinder.start, end: self.cylinder.end },
                    orientation: self.cylinder.orientation,
                },
            ),
            GeomSelection::Sphere => Some(
                document::GeometryView::Sphere {
                    reference: self.reference(),
                    radius: self.sphere.radius,
                },
            ),
        }
    }

    /// The detail with which the library's own rules refuse the geometry, if
    /// they do. They are the engine's rules: no cuboid with a start above its
    /// end along an axis, no negative radius, no cylinder whose span starts
    /// above its end; and one more: no radius of zero.
    pub open spec fn rule_rejection(self, selection: GeomSelection) -> Option<Seq<char>> {
        match selection {
            GeomSelection::WholeSystem => None,
            GeomSelection::Cuboid => if self.cuboid.minx.spec_gt(self.cuboid.maxx)
                || self.cuboid.miny.spec_gt(self.cuboid.maxy) || self.cuboid.minz.spec_gt(
                self.cuboid.maxz,
            ) {
                Some(dimension_detail())
            } else {
                None
            },
            GeomSelection::Cylinder => if self.cylinder.radius.is_zero_or_negative() {
                Some(radius_detail())
            } else if self.cylinder.start.spec_gt(self.cylinder.end) {
                Some(span_detail())
            } else {
                None
            },
            GeomSelection::Sphere => if self.sphere.radius.is_zero_or_negative() {
                Some(radius_detail())
            } else {
                None
            },
        }
    }

    /// The detail of the refusal, where the geometry block cannot be written.
    /// The whole system is never refused. A shape that the engine refused is
    /// refused with the engine's message; where no refusal of the engine is
    /// at hand, the library's own rules decide, with a detail of their own.
    pub open spec fn rejection(self, selection: GeomSelection, reply: Option<Seq<char>>) -> Option<
        Seq<char>,
    > {
        if selection == GeomSelection::WholeSystem {
            None
        } else if reply is Some {
            reply
        } else {
            self.rule_rejection(selection)
        }
    }

    /// Whether the parameters of the selected shape are there, and the
    /// selection of atoms of a reference by selection.
    pub open spec fn is_valid(self, selection: GeomSelection) -> bool {
        let shape_valid = match selection {
            GeomSelection::WholeSystem => true,
            GeomSelection::Cuboid => true,
            GeomSelection::Cylinder => self.cylinder.is_complete(),
            GeomSelection::Sphere => self.sphere.is_complete(),
        };
        let reference_valid = selection == GeomSelection::WholeSystem || self.reference_type
            != GeomReferenceType::Selection || self.ref_selection.len() > 0;
        shape_valid && reference_valid
    }
}

impl GeomSelection {
    /// The shape that a document asks for.
    pub fn from_document(value: &Option<document::Geometry>) -> (r: GeomSelection)
        ensures
            r == spec_selection_of(document::geometry_view(*value)),
    {
        match value {
            None => GeomSelection::WholeSystem,
            Some(document::Geometry::Cuboid { .. }) => GeomSelection::Cuboid,
            Some(document::Geometry::Cylinder { .. }) => GeomSelection::Cylinder,
            Some(document::Geometry::Sphere { .. }) => GeomSelection::Sphere,
        }
    }

    /// The name of the shape as the editor shows it.
    pub open spec fn spec_label(self) -> Seq<char> {
        match self {
            GeomSelection::WholeSystem => ""@,
            GeomSelection::Cuboid => "cuboid"@,
            GeomSelection::Cylinder => "cylinder"@,
            GeomSelection::Sphere => "sphere"@,
        }
    }

    /// The name of the shape as the editor shows it.
    pub fn to_string(&self) -> (r: String)
        ensures
            r@ == self.spec_label(),
    {
        match self {
            GeomSelection::WholeSystem => String::from_str(""),
            GeomSelection::Cuboid => String::from_str("cuboid"),
            GeomSelection::Cylinder => String::from_str("cylinder"),
            GeomSelection::Sphere => String::from_str("sphere"),
        }
    }
}

impl GeomReferenceType {
    /// The type of a reference.
    pub fn from_document(value: &document::GeomReference) -> (r: GeomReferenceType)
        ensures
            r == spec_reference_type_of(value@),
    {
        match value {
            document::GeomReference::Center => GeomReferenceType::Center,
            document::GeomReference::Point(_) => GeomReferenceType::Point,
            document::GeomReference::Selection(_) => GeomReferenceType::Selection,
        }
    }
}

/// The point of a reference that is a point; the origin for the other types.
pub fn get_static_reference_point(reference: &document::GeomReference) -> (r: Point)
    ensures
        r == spec_static_reference_point(reference@),
{
    match reference {
        document::GeomReference::Point(p) => *p,
        _ => Point { x: Scalar::new_zero(), y: Scalar::new_zero(), z: Scalar::new_zero() },
    }
}

/// The selection of a reference that is one; empty for the other types.
pub fn get_reference_selection(reference: &document::GeomReference) -> (r: String)
    ensures
        r@ == spec_reference_selection(reference@),
{
    match reference {
        document::GeomReference::Selection(s) => s.clone(),
        _ => String::new(),
    }
}

fn dimension_refused() -> (r: ConversionError)
    ensures
        r@ == ConversionErrorView::InvalidGeometryParams(dimension_detail()),
{
    ConversionError::InvalidGeometryParams(
        String::from_str(
            "the first value for dimension is higher than the second value for dimension",
        ),
    )
}

fn radius_refused() -> (r: ConversionError)
    ensures
        r@ == ConversionErrorView::InvalidGeometryParams(radius_detail()),
{
    ConversionError::InvalidGeometryParams(
        String::from_str("the specified radius for the geometry selection must be greater than 0"),
    )
}

fn span_refused() -> (r: ConversionError)
    ensures
        r@ == ConversionErrorView::InvalidGeometryParams(span_detail()),
{
    ConversionError::InvalidGeometryParams(
        String::from_str("the first value for span is higher than the second value for span"),
    )
}

impl GeomSelectionParams {
    fn with_reference(reference: &document::GeomReference) -> (r: GeomSelectionParams)
        ensures
            r@ == GeomSelectionParamsView::with_reference(reference@),
    {
        GeomSelectionParams {
            cuboid: CuboidParams::default(),
            cylinder: CylinderParams::default(),
            sphere: SphereParams::default(),
            reference_type: GeomReferenceType::from_document(reference),
            ref_point: get_static_reference_point(reference),
            ref_selection: get_reference_selection(reference),
        }
    }

    /// The parameters that a document gives.
    pub fn from_document(value: &Option<document::Geometry>) -> (r: GeomSelectionParams)
        ensures
            r@ == GeomSelectionParamsView::from_document(document::geometry_view(*value)),
    {
        match value {
            None => GeomSelectionParams::default(),
            Some(document::Geometry::Cuboid { reference, xdim, ydim, zdim }) => {
                let mut params = Self::with_reference(reference);
                params.cuboid = CuboidParams {
                    minx: xdim.start,
                    maxx: xdim.end,
                    miny: ydim.start,
                    maxy: ydim.end,
                    minz: zdim.start,
                    maxz: zdim.end,
                };
                params
            },
            Some(document::Geometry::Cylinder { reference, radius, span, orientation }) => {
                let mut params = Self::with_reference(reference);
                params.cylinder = CylinderParams {
                    radius: *radius,
                    start: span.start,
                    end: span.end,
                    orientation: *orientation,
                };
                params
            },
            Some(document::Geometry::Sphere { reference, radius }) => {
                let mut params = Self::with_reference(reference);
                params.sphere = SphereParams { radius: *radius };
                params
            },
        }
    }

    /// The reference of the document.
    pub fn reference(&self) -> (r: document::GeomReference)
        ensures
            r@ == self@.reference(),
    {
        match self.reference_type {
            GeomReferenceType::Point => document::GeomReference::Point(self.ref_point),
            GeomReferenceType::Selection => document::GeomReference::Selection(
                self.ref_selection.clone(),
            ),
            GeomReferenceType::Center => document::GeomReference::Center,
        }
    }

    /// The geometry block of the document for the selected shape, as it is
    /// put to the engine: nothing is checked.
    pub fn draft(&self, selection: GeomSelection) -> (r: Option<document::Geometry>)
        ensures
            document::geometry_view(r) == self@.to_document(selection),
    {
        match selection {
            GeomSelection::WholeSystem => None,
            GeomSelection::Cuboid => Some(
                document::Geometry::Cuboid {
                    reference: self.reference(),
                    xdim: Interval { start: self.cuboid.minx, end: self.cuboid.maxx },
                    ydim: Interval { start: self.cuboid.miny, end: self.cuboid.maxy },
                    zdim: Interval { start: self.cuboid.minz, end: self.cuboid.maxz },
                },
            ),
            GeomSelection::Cylinder => Some(
                document::Geometry::Cylinder {
                    reference: self.reference(),
                    radius: self.cylinder.radius,
                    span: Interval { start: self.cylinder.start, end: self.cylinder.end },
                    orientation: self.cylinder.orientation,
                },
            ),
            GeomSelection::Sphere => Some(
                document::Geometry::Sphere {
                    reference: self.reference(),
                    radius: self.sphere.radius,
                },
            ),
        }
    }

    /// The refusal of the library's own rules, if they refuse.
    fn rule_refusal(&self, selection: GeomSelection) -> (r: Option<ConversionError>)
        ensures
            r is Some <==> self@.rule_rejection(selection) is Some,
            r matches Some(e) ==> e@ == ConversionErrorView::InvalidGeometryParams(
                self@.rule_rejection(selection)->0,
            ),
    {
        match selection {
            GeomSelection::WholeSystem => None,
            GeomSelection::Cuboid => {
                if self.cuboid.minx.gt(self.cuboid.maxx) || self.cuboid.miny.gt(self.cuboid.maxy)
                    || self.cuboid.minz.gt(self.cuboid.maxz) {
                    Some(dimension_refused())
                } else {
                    None
                }
            },
            GeomSelection::Cylinder => {
                if self.cylinder.radius.zero_or_negative() {
                    Some(radius_refused())
                } else if self.cylinder.start.gt(self.cylinder.end) {
                    Some(span_refused())
                } else {
                    None
                }
            },
            GeomSelection::Sphere => {
                if self.sphere.radius.zero_or_negative() {
                    Some(radius_refused())
                } else {
                    None
                }
            },
        }
    }

    /// The geometry block of the document for the selected shape, given the
    /// message with which the engine refused the shape, if it did.
    pub fn to_document(&self, selection: GeomSelection, reply: &Option<String>) -> (r: Result<
        Option<document::Geometry>,
        ConversionError,
    >)
        ensures
            r is Err <==> self@.rejection(selection, opt_view(*reply)) is Some,
            r matches Ok(block) ==> document::geometry_view(block) == self@.to_document(selection),
            r matches Err(e) ==> e@ == ConversionErrorView::InvalidGeometryParams(
                self@.rejection(selection, opt_view(*reply))->0,
            ),
    {
        if selection != GeomSelection::WholeSystem {
            match reply {
                Some(message) => {
                    return Err(ConversionError::InvalidGeometryParams(message.clone()));
                },
                None => {
                    match self.rule_refusal(selection) {
                        Some(refusal) => {
                            return Err(refusal);
                        },
                        None => {},
                    }
                },
            }
        }
        Ok(self.draft(selection))
    }

    /// Check that all parameters for geometric selection have been provided.
    pub fn sanity_check(&self, selection: GeomSelection) -> (r: bool)
        ensures
            r == self@.is_valid(selection),
    {
        let shape_valid = match selection {
            GeomSelection::WholeSystem | GeomSelection::Cuboid => true,
            GeomSelection::Cylinder => self.cylinder.sanity_check(),
            GeomSelection::Sphere => self.sphere.sanity_check(),
        };
        let ref_selection_valid = match selection {
            GeomSelection::WholeSystem => true,
            _ => self.reference_type != GeomReferenceType::Selection
                || !self.ref_selection.as_str().is_empty(),
        };
        shape_valid && ref_selection_valid
    }
}

/// A bound after the pointer moved over its field: an infinite bound that is
/// dragged jumps to the target, every other bound stays.
pub open spec fn spec_change_from_infinity(dragged: bool, value: Scalar, target: Scalar) -> Scalar {
    if value.is_infinite() && dragged {
        target
    } else {
        value
    }
}

/// The two bounds of a span after the pointer moved over their fields: an
/// infinite start that is dragged jumps to zero; an infinite end that is
/// dragged jumps to the start, or to zero where the start is no finite number.
pub open spec fn spec_dragged_span(span: Interval, start_dragged: bool, end_dragged: bool) -> Interval {
    let start = spec_change_from_infinity(start_dragged, span.start, Scalar::zero());
    let target = if !start.is_nan() && !start.is_infinite() {
        start
    } else {
        Scalar::zero()
    };
    Interval { start, end: spec_change_from_infinity(end_dragged, span.end, target) }
}

/// Allows a dragged value to get changed from infinity.
pub fn change_from_infinity(dragged: bool, value: Scalar, target: Scalar) -> (r: Scalar)
    ensures
        r == spec_change_from_infinity(dragged, value, target),
{
    if value.infinite() && dragged {
        target
    } else {
        value
    }
}

/// The two bounds of a span after the pointer moved over their fields.
pub fn dragged_span(span: Interval, start_dragged: bool, end_dragged: bool) -> (r: Interval)
    ensures
        r == spec_dragged_span(span, start_dragged, end_dragged),
{
    let start = change_from_infinity(start_dragged, span.start, Scalar::new_zero());
    let target = if !start.nan() && !start.infinite() {
        start
    } else {
        Scalar::new_zero()
    };
    Interval { start, end: change_from_infinity(end_dragged, span.end, target) }
}

} // verus!
