//! Parameters for constructing ordermaps.

use vstd::prelude::*;
use vstd::string::StringExecFns;
use crate::common::MembraneNormal;
use crate::document;
use crate::document::GridSpan;
use crate::error::{ConversionError, ConversionErrorView};
use crate::scalar::Scalar;
use crate::text::{opt_view, or_empty, spec_or_empty};

verus! {

/// The bit pattern of the default bin size, 1/10 nm.
pub const DEFAULT_BIN_SIZE_BITS: u32 = 0x3DCC_CCCD;

/// The bit pattern of the default end of a manual dimension, 10 nm.
pub const DEFAULT_MANUAL_END_BITS: u32 = 0x4120_0000;

/// How are ordermap dimensions set?
#[derive(Debug, Clone, Copy, PartialEq, Eq, Structural)]
pub enum OrderMapDimension {
    Auto,
    Manual,
}

impl Default for OrderMapDimension {
    fn default() -> (r: Self)
        ensures
            r == OrderMapDimension::Auto,
    {
        OrderMapDimension::Auto
    }
}

/// Plane in which the ordermaps shall be constructed.
#[derive(Debug, Clone, Copy, PartialEq, Eq, Structural)]
pub enum Plane {
    Unknown,
    XY,
    YZ,
    XZ,
}

impl Default for Plane {
    fn default() -> (r: Self)
        ensures
            r == Plane::XY,
    {
        Plane::XY
    }
}

/// Parameters for the manual dimensions specification.
#[derive(Debug, Clone, Copy, PartialEq, Eq, Structural)]
pub struct ManualDimensions {
    pub start: Scalar,
    pub end: Scalar,
}

impl ManualDimensions {
    /// From zero to the default end.
    pub open spec fn initial() -> ManualDimensions {
        ManualDimensions { start: Scalar::zero(), end: Scalar { bits: DEFAULT_MANUAL_END_BITS } }
    }

    /// The bounds of a given extent; the defaults for an automatic one.
    pub open spec fn spec_from_document(value: GridSpan) -> ManualDimensions {
        match value {
            GridSpan::Auto => ManualDimensions::initial(),
            GridSpan::Manual { start, end } => ManualDimensions { start, end },
        }
    }

    /// The bounds of a given extent; the defaults for an automatic one.
    pub fn from_document(value: GridSpan) -> (r: ManualDimensions)
        ensures
            r == Self::spec_from_document(value),
    {
        match value {
            GridSpan::Auto => ManualDimensions::default(),
            GridSpan::Manual { start, end } => ManualDimensions { start, end },
        }
    }
}

impl Default for ManualDimensions {
    fn default() -> (r: Self)
        ensures
            r == ManualDimensions::initial(),
    {
        ManualDimensions {
            start: Scalar::new_zero(),
            end: Scalar::from_bits(DEFAULT_MANUAL_END_BITS),
        }
    }
}

impl OrderMapDimension {
    /// How an extent of a document is set.
    pub open spec fn spec_from_document(value: GridSpan) -> OrderMapDimension {
        match value {
            GridSpan::Auto => OrderMapDimension::Auto,
            GridSpan::Manual { .. } => OrderMapDimension::Manual,
        }
    }

    /// How an extent of a document is set.
    pub fn from_document(value: GridSpan) -> (r: OrderMapDimension)
        ensures
            r == Self::spec_from_document(value),
    {
        match value {
            GridSpan::Auto => OrderMapDimension::Auto,
            GridSpan::Manual { .. } => OrderMapDimension::Manual,
        }
    }
}

impl Plane {
    /// The plane of the editor for a plane of a document.
    pub open spec fn spec_from_document(value: Option<document::Plane>) -> Option<Plane> {
        match value {
            None => None,
            Some(document::Plane::XY) => Some(Plane::XY),
            Some(document::Plane::XZ) => Some(Plane::XZ),
            Some(document::Plane::YZ) => Some(Plane::YZ),
        }
    }

    /// The plane of the document; nothing for the unknown plane.
    pub open spec fn spec_to_document(self) -> Option<document::Plane> {
        match self {
            Plane::XY => Some(document::Plane::XY),
            Plane::XZ => Some(document::Plane::XZ),
            Plane::YZ => Some(document::Plane::YZ),
            Plane::Unknown => None,
        }
    }

    /// The plane at right angles to a static membrane normal; unknown for a
    /// normal that is no axis.
    pub open spec fn spec_perpendicular_to(normal: MembraneNormal) -> Plane {
        match normal {
            MembraneNormal::X => Plane::YZ,
            MembraneNormal::Y => Plane::XZ,
            MembraneNormal::Z => Plane::XY,
            MembraneNormal::Dynamic => Plane::Unknown,
            MembraneNormal::FromFile => Plane::Unknown,
        }
    }

    /// The names of the two directions of a map in this plane.
    pub open spec fn spec_dimension_labels(self) -> (Seq<char>, Seq<char>) {
        match self {
            Plane::XY => ("X-dimension"@, "Y-dimension"@),
            Plane::YZ => ("Z-dimension"@, "Y-dimension"@),
            Plane::XZ => ("X-dimension"@, "Z-dimension"@),
            Plane::Unknown => ("Unknown dimension"@, "Unknown dimension"@),
        }
    }

    /// The plane of the editor for a plane of a document.
    pub fn from_document(value: Option<document::Plane>) -> (r: Option<Plane>)
        ensures
            r == Self::spec_from_document(value),
    {
        match value {
            None => None,
            Some(document::Plane::XY) => Some(Plane::XY),
            Some(document::Plane::XZ) => Some(Plane::XZ),
            Some(document::Plane::YZ) => Some(Plane::YZ),
        }
    }

    /// The plane of the document; nothing for the unknown plane.
    pub fn to_document(self) -> (r: Option<document::Plane>)
        ensures
            r == self.spec_to_document(),
    {
        match self {
            Plane::XY => Some(document::Plane::XY),
            Plane::XZ => Some(document::Plane::XZ),
            Plane::YZ => Some(document::Plane::YZ),
            Plane::Unknown => None,
        }
    }

    /// The plane at right angles to a static membrane normal.
    pub fn perpendicular_to(normal: MembraneNormal) -> (r: Plane)
        ensures
            r == Self::spec_perpendicular_to(normal),
    {
        match normal {
            MembraneNormal::X => Plane::YZ,
            MembraneNormal::Y => Plane::XZ,
            MembraneNormal::Z => Plane::XY,
            MembraneNormal::Dynamic | MembraneNormal::FromFile => Plane::Unknown,
        }
    }

    /// The names of the two directions of a map in this plane.
    pub fn dimension_labels(self) -> (r: (String, String))
        ensures
            (r.0@, r.1@) == self.spec_dimension_labels(),
    {
        match self {
            Plane::XY => (String::from_str("X-dimension"), String::from_str("Y-dimension")),
            Plane::YZ => (String::from_str("Z-dimension"), String::from_str("Y-dimension")),
            Plane::XZ => (String::from_str("X-dimension"), String::from_str("Z-dimension")),
            Plane::Unknown => (
                String::from_str("Unknown dimension"),
                String::from_str("Unknown dimension"),
            ),
        }
    }
}

/// Parameters for the construction of ordermaps.
#[derive(Debug, Clone)]
pub struct OrderMapsParams {
    pub calculate_maps: bool,
    pub output_directory: String,
    pub plane: Option<Plane>,
    pub bin_size_x: Scalar,
    pub bin_size_y: Scalar,
    pub dimension_x: OrderMapDimension,
    pub dimension_y: OrderMapDimension,
    pub x_manual: ManualDimensions,
    pub y_manual: ManualDimensions,
    pub min_samples: usize,
}

pub struct OrderMapsParamsView {
    pub calculate_maps: bool,
    pub output_directory: Seq<char>,
    pub plane: Option<Plane>,
    pub bin_size_x: Scalar,
    pub bin_size_y: Scalar,
    pub dimension_x: OrderMapDimension,
    pub dimension_y: OrderMapDimension,
    pub x_manual: ManualDimensions,
    pub y_manual: ManualDimensions,
    pub min_samples: usize,
}

impl View for OrderMapsParams {
    type V = OrderMapsParamsView;

    open spec fn view(&self) -> OrderMapsParamsView {
        OrderMapsParamsView {
            calculate_maps: self.calculate_maps,
            output_directory: self.output_directory@,
            plane: self.plane,
            bin_size_x: self.bin_size_x,
            bin_size_y: self.bin_size_y,
            dimension_x: self.dimension_x,
            dimension_y: self.dimension_y,
            x_manual: self.x_manual,
            y_manual: self.y_manual,
            min_samples: self.min_samples,
        }
    }
}

impl Default for OrderMapsParams {
    fn default() -> (r: Self)
        ensures
            r@ == OrderMapsParamsView::empty(),
    {
        OrderMapsParams {
            calculate_maps: false,
            output_directory: String::new(),
            plane: None,
            bin_size_x: Scalar::from_bits(DEFAULT_BIN_SIZE_BITS),
            bin_size_y: Scalar::from_bits(DEFAULT_BIN_SIZE_BITS),
            dimension_x: OrderMapDimension::Auto,
            dimension_y: OrderMapDimension::Auto,
            x_manual: ManualDimensions::default(),
            y_manual: ManualDimensions::default(),
            min_samples: 1,
        }
    }
}

/// The extent of the document for one direction: automatic, or the manual
/// bounds.
pub open spec fn spec_grid_span(dimension: OrderMapDimension, manual: ManualDimensions) -> GridSpan {
    match dimension {
        OrderMapDimension::Auto => GridSpan::Auto,
        OrderMapDimension::Manual => GridSpan::Manual { start: manual.start, end: manual.end },
    }
}

/// The detail of the error for a manual extent whose start is above its end.
pub open spec fn grid_span_detail() -> Seq<char> {
    "the first coordinate for the grid span is higher than the second coordinate for the grid span"@
}

/// The detail of the refusal of an extent, if it is refused. Only a manual
/// extent is put to the engine. Where the engine refused it, the detail is
/// the engine's message; where no refusal of the engine is at hand and the
/// start is above the end, the detail is the library's own.
pub open spec fn spec_span_rejection(
    dimension: OrderMapDimension,
    manual: ManualDimensions,
    reply: Option<Seq<char>>,
) -> Option<Seq<char>> {
    if dimension != OrderMapDimension::Manual {
        None
    } else if reply is Some {
        reply
    } else if manual.start.spec_gt(manual.end) {
        Some(grid_span_detail())
    } else {
        None
    }
}

/// The detail of the error for the unknown plane.
pub open spec fn plane_detail() -> Seq<char> {
    "unknown plane"@
}

/// The detail of the error for a map that asks for no sample.
pub open spec fn min_samples_detail() -> Seq<char> {
    "the specified value of 'min_samples' inside 'ordermap' is invalid (must be positive)"@
}

/// The detail of the error for a bin size that is zero or negative.
pub open spec fn bin_size_detail() -> Seq<char> {
    "invalid bin size of 'ordermap': must be positive"@
}

impl OrderMapsParamsView {
    pub open spec fn empty() -> OrderMapsParamsView {
        OrderMapsParamsView {
            calculate_maps: false,
            output_directory: Seq::empty(),
            plane: None,
            bin_size_x: Scalar { bits: DEFAULT_BIN_SIZE_BITS },
            bin_size_y: Scalar { bits: DEFAULT_BIN_SIZE_BITS },
            dimension_x: OrderMapDimension::Auto,
            dimension_y: OrderMapDimension::Auto,
            x_manual: ManualDimensions::initial(),
            y_manual: ManualDimensions::initial(),
            min_samples: 1,
        }
    }

    /// The parameters that a document gives: the defaults, switched off,
    /// where it has no block for the maps.
    pub open spec fn from_document(value: Option<document::OrderMapView>) -> OrderMapsParamsView {
        match value {
            None => Self::empty(),
            Some(map) => OrderMapsParamsView {
                calculate_maps: true,
                output_directory: spec_or_empty(map.output_directory),
                plane: Plane::spec_from_document(map.plane),
                bin_size_x: map.bin_size_x,
                bin_size_y: map.bin_size_y,
                dimension_x: OrderMapDimension::spec_from_document(map.dim_x),
                dimension_y: OrderMapDimension::spec_from_document(map.dim_y),
                x_manual: ManualDimensions::spec_from_document(map.dim_x),
                y_manual: ManualDimensions::spec_from_document(map.dim_y),
                min_samples: map.min_samples,
            },
        }
    }

    /// The plane of the document: the explicit plane, if there is one.
    pub open spec fn exported_plane(self) -> Option<document::Plane> {
        match self.plane {
            Some(plane) => plane.spec_to_document(),
            None => None,
        }
    }

    /// The block of the document: none where no maps are asked for, else the
    /// output directory, the two extents, the two bin sizes, the minimum
    /// number of samples and the explicit plane.
    pub open spec fn to_document(self) -> Option<document::OrderMapView> {
        if !self.calculate_maps {
            None
        } else {
            Some(
                document::OrderMapView {
                    output_directory: Some(self.output_directory),
                    min_samples: self.min_samples,
                    dim_x: spec_grid_span(self.dimension_x, self.x_manual),
                    dim_y: spec_grid_span(self.dimension_y, self.y_manual),
                    bin_size_x: self.bin_size_x,
                    bin_size_y: self.bin_size_y,
                    plane: self.exported_plane(),
                },
            )
        }
    }

    /// The detail with which the library's own statement of the rules of the
    /// engine's builder refuses the maps, if it does: a minimum of no
    /// sample, and a bin size that is zero or negative.
    pub open spec fn rule_rejection(self) -> Option<Seq<char>> {
        if self.min_samples == 0 {
            Some(min_samples_detail())
        } else if self.bin_size_x.is_zero_or_negative() || self.bin_size_y.is_zero_or_negative() {
            Some(bin_size_detail())
        } else {
            None
        }
    }

    /// The detail of the refusal, where the block cannot be written. Nothing
    /// is refused where no maps are asked for. Else the first of these
    /// decides: the refusal of the first extent, that of the second, the
    /// unknown plane, the refusal of the engine's builder, and the library's
    /// own rules. Each answer of the engine is given as the message with
    /// which it refused, if it did.
    pub open spec fn rejection(
        self,
        dim_x: Option<Seq<char>>,
        dim_y: Option<Seq<char>>,
        map: Option<Seq<char>>,
    ) -> Option<Seq<char>> {
        if !self.calculate_maps {
            None
        } else if spec_span_rejection(self.dimension_x, self.x_manual, dim_x) is Some {
            spec_span_rejection(self.dimension_x, self.x_manual, dim_x)
        } else if spec_span_rejection(self.dimension_y, self.y_manual, dim_y) is Some {
            spec_span_rejection(self.dimension_y, self.y_manual, dim_y)
        } else if self.plane == Some(Plane::Unknown) {
            Some(plane_detail())
        } else if map is Some {
            map
        } else {
            self.rule_rejection()
        }
    }

    /// Whether the parameters for the maps are there: with maps switched on,
    /// an output directory, two bin sizes above zero, and an explicit plane
    /// where the membrane normal is no axis.
    pub open spec fn is_valid(self, normal: MembraneNormal) -> bool {
        !self.calculate_maps || (self.output_directory.len() > 0 && (self.plane is Some
            || normal.is_static()) && self.bin_size_x.is_positive()
            && self.bin_size_y.is_positive())
    }

    /// The plane that the editor shows: the explicit one, or else the plane
    /// at right angles to the membrane normal.
    pub open spec fn shown_plane(self, normal: MembraneNormal) -> Plane {
        match self.plane {
            Some(plane) => plane,
            None => Plane::spec_perpendicular_to(normal),
        }
    }
}

fn grid_span(dimension: OrderMapDimension, manual: ManualDimensions, reply: &Option<String>) -> (r:
    Result<GridSpan, ConversionError>)
    ensures
        r is Err <==> spec_span_rejection(dimension, manual, opt_view(*reply)) is Some,
        r matches Ok(span) ==> span == spec_grid_span(dimension, manual),
        r matches Err(e) ==> e@ == ConversionErrorView::InvalidOrderMapParams(
            spec_span_rejection(dimension, manual, opt_view(*reply))->0,
        ),
{
    match dimension {
        OrderMapDimension::Auto => Ok(GridSpan::Auto),
        OrderMapDimension::Manual => {
            match reply {
                Some(message) => Err(ConversionError::InvalidOrderMapParams(message.clone())),
                None => {
                    if manual.start.gt(manual.end) {
                        Err(
                            ConversionError::InvalidOrderMapParams(
                                String::from_str(
                                    "the first coordinate for the grid span is higher than the second coordinate for the grid span",
                                ),
                            ),
                        )
                    } else {
                        Ok(GridSpan::Manual { start: manual.start, end: manual.end })
                    }
                },
            }
        },
    }
}

fn draft_span(dimension: OrderMapDimension, manual: ManualDimensions) -> (r: GridSpan)
    ensures
        r == spec_grid_span(dimension, manual),
{
    match dimension {
        OrderMapDimension::Auto => GridSpan::Auto,
        OrderMapDimension::Manual => GridSpan::Manual { start: manual.start, end: manual.end },
    }
}

impl OrderMapsParams {
    /// The parameters that a document gives.
    pub fn from_document(value: &Option<document::OrderMap>) -> (r: OrderMapsParams)
        ensures
            r@ == OrderMapsParamsView::from_document(document::map_view(*value)),
    {
        match value {
            None => OrderMapsParams::default(),
            Some(map) => OrderMapsParams {
                calculate_maps: true,
                output_directory: or_empty(&map.output_directory),
                plane: Plane::from_document(map.plane),
                bin_size_x: map.bin_size_x,
                bin_size_y: map.bin_size_y,
                dimension_x: OrderMapDimension::from_document(map.dim_x),
                dimension_y: OrderMapDimension::from_document(map.dim_y),
                x_manual: ManualDimensions::from_document(map.dim_x),
                y_manual: ManualDimensions::from_document(map.dim_y),
                min_samples: map.min_samples,
            },
        }
    }

    /// The block of the document as it is put to the engine: nothing is
    /// checked, and the unknown plane is left out.
    pub fn draft(&self) -> (r: Option<document::OrderMap>)
        ensures
            document::map_view(r) == self@.to_document(),
    {
        if !self.calculate_maps {
            return None;
        }
        let plane = match self.plane {
            None => None,
            Some(plane) => plane.to_document(),
        };
        Some(
            document::OrderMap {
                output_directory: Some(self.output_directory.clone()),
                min_samples: self.min_samples,
                dim_x: draft_span(self.dimension_x, self.x_manual),
                dim_y: draft_span(self.dimension_y, self.y_manual),
                bin_size_x: self.bin_size_x,
                bin_size_y: self.bin_size_y,
                plane,
            },
        )
    }

    /// The block of the document, given the messages with which the engine
    /// refused the first extent, the second extent and the maps as a whole,
    /// where it did.
    pub fn to_document(
        &self,
        dim_x: &Option<String>,
        dim_y: &Option<String>,
        map: &Option<String>,
    ) -> (r: Result<Option<document::OrderMap>, ConversionError>)
        ensures
            r is Err <==> self@.rejection(opt_view(*dim_x), opt_view(*dim_y), opt_view(*map))
                is Some,
            r matches Ok(block) ==> document::map_view(block) == self@.to_document(),
            r matches Err(e) ==> e@ == ConversionErrorView::InvalidOrderMapParams(
                self@.rejection(opt_view(*dim_x), opt_view(*dim_y), opt_view(*map))->0,
            ),
    {
        if !self.calculate_maps {
            return Ok(None);
        }
        let _ = grid_span(self.dimension_x, self.x_manual, dim_x)?;
        let _ = grid_span(self.dimension_y, self.y_manual, dim_y)?;
        match self.plane {
            Some(Plane::Unknown) => {
                return Err(
                    ConversionError::InvalidOrderMapParams(String::from_str("unknown plane")),
                );
            },
            _ => {},
        }
        match map {
            Some(message) => {
                return Err(ConversionError::InvalidOrderMapParams(message.clone()));
            },
            None => {},
        }
        if self.min_samples == 0 {
            return Err(
                ConversionError::InvalidOrderMapParams(
                    String::from_str(
                        "the specified value of 'min_samples' inside 'ordermap' is invalid (must be positive)",
                    ),
                ),
            );
        }
        if self.bin_size_x.zero_or_negative() || self.bin_size_y.zero_or_negative() {
            return Err(
                ConversionError::InvalidOrderMapParams(
                    String::from_str("invalid bin size of 'ordermap': must be positive"),
                ),
            );
        }
        Ok(self.draft())
    }

    /// Check that all parameters for the construction of ordermaps have been
    /// provided, given the global membrane normal.
    pub fn sanity_check(&self, normal: MembraneNormal) -> (r: bool)
        ensures
            r == self@.is_valid(normal),
    {
        !self.calculate_maps || (!self.output_directory.as_str().is_empty() && (
        self.plane.is_some() || normal.axis().is_some()) && self.bin_size_x.positive()
            && self.bin_size_y.positive())
    }

    /// The plane that the editor shows.
    pub fn shown_plane(&self, normal: MembraneNormal) -> (r: Plane)
        ensures
            r == self@.shown_plane(normal),
    {
        match self.plane {
            Some(plane) => plane,
            None => Plane::perpendicular_to(normal),
        }
    }
}

} // verus!
