//! Parameters for leaflet assignment.

use vstd::prelude::*;
use vstd::string::StringExecFns;
use crate::common::MembraneNormal;
use crate::document;
use crate::document::{Axis, Frequency};
use crate::engine::frequency_every;
use crate::error::{ConversionError, ConversionErrorView, ErrorKind};
use crate::scalar::Scalar;
use crate::text::{all_filled, clone_strings, opt_view, spec_all_filled, views};

verus! {

/// The bit pattern of the default radius of the local method, 5/2 nm.
pub const DEFAULT_LOCAL_RADIUS_BITS: u32 = 0x4020_0000;

/// Leaflet assignment method.
#[derive(Debug, Clone, Copy, PartialEq, Eq, Structural)]
pub enum LeafletClassification {
    /// No assignment: order parameters are computed for the whole membrane only.
    NoAssignment,
    Global,
    Local,
    Individual,
    Clustering,
    FromFile,
    FromNdx,
}

impl Default for LeafletClassification {
    fn default() -> (r: Self)
        ensures
            r == LeafletClassification::NoAssignment,
    {
        LeafletClassification::NoAssignment
    }
}

/// Frequency of the leaflet assignment, as the editor offers it.
#[derive(Debug, Clone, Copy, PartialEq, Eq, Structural)]
pub enum RawFrequency {
    Once,
    Every,
    EveryN,
}

impl Default for RawFrequency {
    fn default() -> (r: Self)
        ensures
            r == RawFrequency::Every,
    {
        RawFrequency::Every
    }
}

/// Parameters for the global assignment method.
#[derive(Debug, Clone)]
pub struct LeafletGlobalParams {
    pub membrane: String,
    pub heads: String,
}

pub struct LeafletGlobalParamsView {
    pub membrane: Seq<char>,
    pub heads: Seq<char>,
}

impl View for LeafletGlobalParams {
    type V = LeafletGlobalParamsView;

    open spec fn view(&self) -> LeafletGlobalParamsView {
        LeafletGlobalParamsView { membrane: self.membrane@, heads: self.heads@ }
    }
}

impl LeafletGlobalParamsView {
    pub open spec fn empty() -> LeafletGlobalParamsView {
        LeafletGlobalParamsView { membrane: Seq::empty(), heads: Seq::empty() }
    }

    /// Both selections are required.
    pub open spec fn is_complete(self) -> bool {
        self.membrane.len() > 0 && self.heads.len() > 0
    }
}

impl Default for LeafletGlobalParams {
    fn default() -> (r: Self)
        ensures
            r@ == LeafletGlobalParamsView::empty(),
    {
        LeafletGlobalParams { membrane: String::new(), heads: String::new() }
    }
}

impl LeafletGlobalParams {
    /// Check that all required parameters are provided.
    pub fn sanity_check(&self) -> (r: bool)
        ensures
            r == self@.is_complete(),
    {
        !self.membrane.as_str().is_empty() && !self.heads.as_str().is_empty()
    }
}

/// Parameters for the local assignment method.
#[derive(Debug, Clone)]
pub struct LeafletLocalParams {
    pub membrane: String,
    pub heads: String,
    pub radius: Scalar,
}

pub struct LeafletLocalParamsView {
    pub membrane: Seq<char>,
    pub heads: Seq<char>,
    pub radius: Scalar,
}

impl View for LeafletLocalParams {
    type V = LeafletLocalParamsView;

    open spec fn view(&self) -> LeafletLocalParamsView {
        LeafletLocalParamsView { membrane: self.membrane@, heads: self.heads@, radius: self.radius }
    }
}

impl LeafletLocalParamsView {
    pub open spec fn empty() -> LeafletLocalParamsView {
        LeafletLocalParamsView {
            membrane: Seq::empty(),
            heads: Seq::empty(),
            radius: Scalar { bits: DEFAULT_LOCAL_RADIUS_BITS },
        }
    }

    /// Both selections are required, and a radius above zero.
    pub open spec fn is_complete(self) -> bool {
        self.membrane.len() > 0 && self.heads.len() > 0 && self.radius.is_positive()
    }
}

impl Default for LeafletLocalParams {
    fn default() -> (r: Self)
        ensures
            r@ == LeafletLocalParamsView::empty(),
    {
        LeafletLocalParams {
            membrane: String::new(),
            heads: String::new(),
            radius: Scalar::from_bits(DEFAULT_LOCAL_RADIUS_BITS),
        }
    }
}

impl LeafletLocalParams {
    /// Check that all required parameters are provided.
    pub fn sanity_check(&self) -> (r: bool)
        ensures
            r == self@.is_complete(),
    {
        !self.membrane.as_str().is_empty() && !self.heads.as_str().is_empty()
            && self.radius.positive()
    }
}

/// Parameters for the individual assignment method.
#[derive(Debug, Clone)]
pub struct LeafletIndividualParams {
    pub heads: String,
    pub methyls: String,
}

pub struct LeafletIndividualParamsView {
    pub heads: Seq<char>,
    pub methyls: Seq<char>,
}

impl View for LeafletIndividualParams {
    type V = LeafletIndividualParamsView;

    open spec fn view(&self) -> LeafletIndividualParamsView {
        LeafletIndividualParamsView { heads: self.heads@, methyls: self.methyls@ }
    }
}

impl LeafletIndividualParamsView {
    pub open spec fn empty() -> LeafletIndividualParamsView {
        LeafletIndividualParamsView { heads: Seq::empty(), methyls: Seq::empty() }
    }

    /// Both selections are required.
    pub open spec fn is_complete(self) -> bool {
        self.heads.len() > 0 && self.methyls.len() > 0
    }
}

impl Default for LeafletIndividualParams {
    fn default() -> (r: Self)
        ensures
            r@ == LeafletIndividualParamsView::empty(),
    {
        LeafletIndividualParams { heads: String::new(), methyls: String::new() }
    }
}

impl LeafletIndividualParams {
    /// Check that all required parameters are provided.
    pub fn sanity_check(&self) -> (r: bool)
        ensures
            r == self@.is_complete(),
    {
        !self.heads.as_str().is_empty() && !self.methyls.as_str().is_empty()
    }
}

/// Parameters for the clustering assignment method.
#[derive(Debug, Clone)]
pub struct LeafletClusteringParams {
    pub heads: String,
}

pub struct LeafletClusteringParamsView {
    pub heads: Seq<char>,
}

impl View for LeafletClusteringParams {
    type V = LeafletClusteringParamsView;

    open spec fn view(&self) -> LeafletClusteringParamsView {
        LeafletClusteringParamsView { heads: self.heads@ }
    }
}

impl LeafletClusteringParamsView {
    pub open spec fn empty() -> LeafletClusteringParamsView {
        LeafletClusteringParamsView { heads: Seq::empty() }
    }

    /// The selection of heads is required.
    pub open spec fn is_complete(self) -> bool {
        self.heads.len() > 0
    }
}

impl Default for LeafletClusteringParams {
    fn default() -> (r: Self)
        ensures
            r@ == LeafletClusteringParamsView::empty(),
    {
        LeafletClusteringParams { heads: String::new() }
    }
}

impl LeafletClusteringParams {
    /// Check that all required parameters are provided.
    pub fn sanity_check(&self) -> (r: bool)
        ensures
            r == self@.is_complete(),
    {
        !self.heads.as_str().is_empty()
    }
}

/// Parameters for the "from file" assignment method.
#[derive(Debug, Clone)]
pub struct LeafletFromFileParams {
    pub file: String,
}

pub struct LeafletFromFileParamsView {
    pub file: Seq<char>,
}

impl View for LeafletFromFileParams {
    type V = LeafletFromFileParamsView;

    open spec fn view(&self) -> LeafletFromFileParamsView {
        LeafletFromFileParamsView { file: self.file@ }
    }
}

impl LeafletFromFileParamsView {
    pub open spec fn empty() -> LeafletFromFileParamsView {
        LeafletFromFileParamsView { file: Seq::empty() }
    }

    /// The path of the file is required.
    pub open spec fn is_complete(self) -> bool {
        self.file.len() > 0
    }
}

impl Default for LeafletFromFileParams {
    fn default() -> (r: Self)
        ensures
            r@ == LeafletFromFileParamsView::empty(),
    {
        LeafletFromFileParams { file: String::new() }
    }
}

impl LeafletFromFileParams {
    /// Check that all required parameters are provided.
    pub fn sanity_check(&self) -> (r: bool)
        ensures
            r == self@.is_complete(),
    {
        !self.file.as_str().is_empty()
    }
}

/// Parameters for the "from NDX" assignment method.
#[derive(Debug, Clone)]
pub struct LeafletFromNdxParams {
    pub heads: String,
    pub ndx: Vec<String>,
    pub upper_leaflet: String,
    pub lower_leaflet: String,
}

pub struct LeafletFromNdxParamsView {
    pub heads: Seq<char>,
    pub ndx: Seq<Seq<char>>,
    pub upper_leaflet: Seq<char>,
    pub lower_leaflet: Seq<char>,
}

impl View for LeafletFromNdxParams {
    type V = LeafletFromNdxParamsView;

    open spec fn view(&self) -> LeafletFromNdxParamsView {
        LeafletFromNdxParamsView {
            heads: self.heads@,
            ndx: views(self.ndx@),
            upper_leaflet: self.upper_leaflet@,
            lower_leaflet: self.lower_leaflet@,
        }
    }
}

impl LeafletFromNdxParamsView {
    pub open spec fn empty() -> LeafletFromNdxParamsView {
        LeafletFromNdxParamsView {
            heads: Seq::empty(),
            ndx: Seq::empty(),
            upper_leaflet: Seq::empty(),
            lower_leaflet: Seq::empty(),
        }
    }

    /// The heads, the names of both groups and at least one NDX file are
    /// required, and no path of an NDX file may be empty.
    pub open spec fn is_complete(self) -> bool {
        &&& self.heads.len() > 0
        &&& self.ndx.len() > 0
        &&& spec_all_filled(self.ndx)
        &&& self.upper_leaflet.len() > 0
        &&& self.lower_leaflet.len() > 0
    }
}

impl Default for LeafletFromNdxParams {
    fn default() -> (r: Self)
        ensures
            r@ == LeafletFromNdxParamsView::empty(),
    {
        let r = LeafletFromNdxParams {
            heads: String::new(),
            ndx: Vec::new(),
            upper_leaflet: String::new(),
            lower_leaflet: String::new(),
        };
        assert(views(r.ndx@) =~= Seq::<Seq<char>>::empty());
        r
    }
}

impl LeafletFromNdxParams {
    /// Check that all required parameters are provided.
    pub fn sanity_check(&self) -> (r: bool)
        ensures
            r == self@.is_complete(),
    {
        !self.heads.as_str().is_empty() && self.ndx.len() > 0 && all_filled(&self.ndx)
            && !self.upper_leaflet.as_str().is_empty() && !self.lower_leaflet.as_str().is_empty()
    }
}

/// Parameters for leaflet assignment. The parameters of the methods that are
/// not selected stay as they were entered.
#[derive(Debug, Clone)]
pub struct LeafletClassificationParams {
    pub global_params: LeafletGlobalParams,
    pub local_params: LeafletLocalParams,
    pub individual_params: LeafletIndividualParams,
    pub clustering_params: LeafletClusteringParams,
    pub from_file_params: LeafletFromFileParams,
    pub from_ndx_params: LeafletFromNdxParams,
    pub frequency: Frequency,
    /// The normal for the assignment; `None` stands for the global membrane
    /// normal.
    pub membrane_normal: Option<MembraneNormal>,
}

pub struct LeafletClassificationParamsView {
    pub global_params: LeafletGlobalParamsView,
    pub local_params: LeafletLocalParamsView,
    pub individual_params: LeafletIndividualParamsView,
    pub clustering_params: LeafletClusteringParamsView,
    pub from_file_params: LeafletFromFileParamsView,
    pub from_ndx_params: LeafletFromNdxParamsView,
    pub frequency: Frequency,
    pub membrane_normal: Option<MembraneNormal>,
}

impl View for LeafletClassificationParams {
    type V = LeafletClassificationParamsView;

    open spec fn view(&self) -> LeafletClassificationParamsView {
        LeafletClassificationParamsView {
            global_params: self.global_params@,
            local_params: self.local_params@,
            individual_params: self.individual_params@,
            clustering_params: self.clustering_params@,
            from_file_params: self.from_file_params@,
            from_ndx_params: self.from_ndx_params@,
            frequency: self.frequency,
            membrane_normal: self.membrane_normal,
        }
    }
}

impl Default for LeafletClassificationParams {
    fn default() -> (r: Self)
        ensures
            r@ == LeafletClassificationParamsView::empty(),
    {
        LeafletClassificationParams {
            global_params: LeafletGlobalParams::default(),
            local_params: LeafletLocalParams::default(),
            individual_params: LeafletIndividualParams::default(),
            clustering_params: LeafletClusteringParams::default(),
            from_file_params: LeafletFromFileParams::default(),
            from_ndx_params: LeafletFromNdxParams::default(),
            frequency: Frequency::Every(1),
            membrane_normal: None,
        }
    }
}

/// The static normal of an axis that may be missing.
pub open spec fn spec_convert_axis_option(axis: Option<Axis>) -> Option<MembraneNormal> {
    match axis {
        None => None,
        Some(a) => Some(MembraneNormal::spec_from_axis(a)),
    }
}

/// The frequency that the editor holds for a frequency of a document: "once"
/// is read as "every frame".
pub open spec fn spec_imported_frequency(frequency: Frequency) -> Frequency {
    match frequency {
        Frequency::Once => Frequency::Every(1),
        Frequency::Every(n) => Frequency::Every(n),
    }
}

/// The choice and the period that the editor shows for a frequency.
pub open spec fn spec_raw_frequency(frequency: Frequency) -> (RawFrequency, usize) {
    match frequency {
        Frequency::Once => (RawFrequency::Once, 0),
        Frequency::Every(n) => if n == 1 {
            (RawFrequency::Every, 1)
        } else {
            (RawFrequency::EveryN, n)
        },
    }
}

/// The frequency for a choice and a period: a period below two is raised to
/// two where every Nth frame was chosen.
pub open spec fn spec_frequency_from_raw(raw: RawFrequency, n: usize) -> Frequency {
    match raw {
        RawFrequency::Once => Frequency::Once,
        RawFrequency::Every => Frequency::Every(1),
        RawFrequency::EveryN => if n < 2 {
            Frequency::Every(2)
        } else {
            Frequency::Every(n)
        },
    }
}

/// The method that a document asks for. A leaflet assignment given inline is
/// not supported.
pub open spec fn spec_method_of(value: Option<document::LeafletClassificationView>) -> Result<
    LeafletClassification,
    ConversionErrorView,
> {
    match value {
        None => Ok(LeafletClassification::NoAssignment),
        Some(document::LeafletClassificationView::Global { .. }) => Ok(LeafletClassification::Global),
        Some(document::LeafletClassificationView::Local { .. }) => Ok(LeafletClassification::Local),
        Some(document::LeafletClassificationView::Individual { .. }) => Ok(
            LeafletClassification::Individual,
        ),
        Some(document::LeafletClassificationView::Clustering { .. }) => Ok(
            LeafletClassification::Clustering,
        ),
        Some(document::LeafletClassificationView::FromFile { .. }) => Ok(
            LeafletClassification::FromFile,
        ),
        Some(document::LeafletClassificationView::FromNdx { .. }) => Ok(LeafletClassification::FromNdx),
        Some(document::LeafletClassificationView::FromMap { .. }) => Err(
            ConversionErrorView::FromMapLeaflets,
        ),
    }
}

/// Why the leaflet block of a document cannot be written.
#[derive(Debug, Clone, Copy, PartialEq, Eq, Structural)]
pub enum LeafletRejection {
    /// The radius of the local method is zero or negative.
    LocalRadius,
    /// The period of the assignment is zero.
    Frequency,
    /// The normal for the assignment is not one of the three axes.
    NormalNotAnAxis,
}

impl LeafletClassificationParamsView {
    pub open spec fn empty() -> LeafletClassificationParamsView {
        LeafletClassificationParamsView {
            global_params: LeafletGlobalParamsView::empty(),
            local_params: LeafletLocalParamsView::empty(),
            individual_params: LeafletIndividualParamsView::empty(),
            clustering_params: LeafletClusteringParamsView::empty(),
            from_file_params: LeafletFromFileParamsView::empty(),
            from_ndx_params: LeafletFromNdxParamsView::empty(),
            frequency: Frequency::Every(1),
            membrane_normal: None,
        }
    }

    /// The parameters that a document gives: those of its method are filled
    /// in, with the frequency and, for the three methods that use one, the
    /// normal; all others are at their defaults.
    pub open spec fn spec_try_from_document(
        value: Option<document::LeafletClassificationView>,
    ) -> Result<LeafletClassificationParamsView, ConversionErrorView> {
        match value {
            None => Ok(Self::empty()),
            Some(document::LeafletClassificationView::Global { membrane, heads, frequency, membrane_normal }) => Ok(
                LeafletClassificationParamsView {
                    global_params: LeafletGlobalParamsView { membrane, heads },
                    frequency: spec_imported_frequency(frequency),
                    membrane_normal: spec_convert_axis_option(membrane_normal),
                    ..Self::empty()
                },
            ),
            Some(document::LeafletClassificationView::Local { membrane, heads, radius, frequency, membrane_normal }) => Ok(
                LeafletClassificationParamsView {
                    local_params: LeafletLocalParamsView { membrane, heads, radius },
                    frequency: spec_imported_frequency(frequency),
                    membrane_normal: spec_convert_axis_option(membrane_normal),
                    ..Self::empty()
                },
            ),
            Some(document::LeafletClassificationView::Individual { heads, methyls, frequency, membrane_normal }) => Ok(
                LeafletClassificationParamsView {
                    individual_params: LeafletIndividualParamsView { heads, methyls },
                    frequency: spec_imported_frequency(frequency),
                    membrane_normal: spec_convert_axis_option(membrane_normal),
                    ..Self::empty()
                },
            ),
            Some(document::LeafletClassificationView::Clustering { heads, frequency }) => Ok(
                LeafletClassificationParamsView {
                    clustering_params: LeafletClusteringParamsView { heads },
                    frequency: spec_imported_frequency(frequency),
                    ..Self::empty()
                },
            ),
            Some(document::LeafletClassificationView::FromFile { file, frequency }) => Ok(
                LeafletClassificationParamsView {
                    from_file_params: LeafletFromFileParamsView { file },
                    frequency: spec_imported_frequency(frequency),
                    ..Self::empty()
                },
            ),
            Some(document::LeafletClassificationView::FromNdx { heads, ndx, upper_leaflet, lower_leaflet, frequency }) => Ok(
                LeafletClassificationParamsView {
                    from_ndx_params: LeafletFromNdxParamsView { heads, ndx, upper_leaflet, lower_leaflet },
                    frequency: spec_imported_frequency(frequency),
                    ..Self::empty()
                },
            ),
            Some(document::LeafletClassificationView::FromMap { .. }) => Err(
                ConversionErrorView::FromMapLeaflets,
            ),
        }
    }

    /// Whether the method takes a membrane normal of its own.
    pub open spec fn uses_normal(method: LeafletClassification) -> bool {
        method == LeafletClassification::Global || method == LeafletClassification::Local
            || method == LeafletClassification::Individual
    }

    /// The axis of the explicit normal, if there is one and it is an axis.
    pub open spec fn explicit_axis(self) -> Option<Axis> {
        match self.membrane_normal {
            Some(normal) => normal.spec_axis(),
            None => None,
        }
    }

    /// The axis that the document gets for the assignment: the explicit
    /// normal, where the method takes one.
    pub open spec fn exported_normal(self, method: LeafletClassification) -> Option<Axis> {
        if Self::uses_normal(method) {
            self.explicit_axis()
        } else {
            None
        }
    }

    /// Why the leaflet block cannot be written, if it cannot: the first of a
    /// local radius that is refused, a period of zero, and an explicit
    /// normal that is no axis. Only the local method is put to the engine,
    /// for its radius: the radius is refused where the engine refused it
    /// (`reply` then holds the engine's message), and where no refusal of the
    /// engine is at hand and the radius is zero or negative.
    pub open spec fn rejection(self, method: LeafletClassification, reply: Option<Seq<char>>) -> Option<
        LeafletRejection,
    > {
        if method == LeafletClassification::NoAssignment {
            None
        } else if method == LeafletClassification::Local && (reply is Some
            || self.local_params.radius.is_zero_or_negative()) {
            Some(LeafletRejection::LocalRadius)
        } else if !self.frequency.accepted() {
            Some(LeafletRejection::Frequency)
        } else if Self::uses_normal(method) && self.membrane_normal is Some
            && !self.membrane_normal->0.is_static() {
            Some(LeafletRejection::NormalNotAnAxis)
        } else {
            None
        }
    }

    /// The leaflet block of the document for the selected method: none where
    /// no method is selected, else the parameters of that method alone, with
    /// the frequency and, where the method takes one, the explicit normal.
    pub open spec fn to_document(self, method: LeafletClassification) -> Option<
        document::LeafletClassificationView,
    > {
        match method {
            LeafletClassification::NoAssignment => None,
            LeafletClassification::Global => Some(
                document::LeafletClassificationView::Global {
                    membrane: self.global_params.membrane,
                    heads: self.global_params.heads,
                    frequency: self.frequency,
                    membrane_normal: self.exported_normal(method),
                },
            ),
            LeafletClassification::Local => Some(
                document::LeafletClassificationView::Local {
                    membrane: self.local_params.membrane,
                    heads: self.local_params.heads,
                    radius: self.local_params.radius,
                    frequency: self.frequency,
                    membrane_normal: self.exported_normal(method),
                },
            ),
            LeafletClassification::Individual => Some(
                document::LeafletClassificationView::Individual {
                    heads: self.individual_params.heads,
                    methyls: self.individual_params.methyls,
                    frequency: self.frequency,
                    membrane_normal: self.exported_normal(method),
                },
            ),
            LeafletClassification::Clustering => Some(
                document::LeafletClassificationView::Clustering {
                    heads: self.clustering_params.heads,
                    frequency: self.frequency,
                },
            ),
            LeafletClassification::FromFile => Some(
                document::LeafletClassificationView::FromFile {
                    file: self.from_file_params.file,
                    frequency: self.frequency,
                },
            ),
            LeafletClassification::FromNdx => Some(
                document::LeafletClassificationView::FromNdx {
                    heads: self.from_ndx_params.heads,
                    ndx: self.from_ndx_params.ndx,
                    upper_leaflet: self.from_ndx_params.upper_leaflet,
                    lower_leaflet: self.from_ndx_params.lower_leaflet,
                    frequency: self.frequency,
                },
            ),
        }
    }

    /// Whether the parameters that the selected method requires are there.
    pub open spec fn method_is_complete(self, method: LeafletClassification) -> bool {
        match method {
            LeafletClassification::NoAssignment => true,
            LeafletClassification::Global => self.global_params.is_complete(),
            LeafletClassification::Local => self.local_params.is_complete(),
            LeafletClassification::Individual => self.individual_params.is_complete(),
            LeafletClassification::Clustering => self.clustering_params.is_complete(),
            LeafletClassification::FromFile => self.from_file_params.is_complete(),
            LeafletClassification::FromNdx => self.from_ndx_params.is_complete(),
        }
    }

    /// Whether the leaflet assignment is ready: the parameters of the
    /// selected method are there, and a method that takes a membrane normal
    /// has an explicit one where the global normal is dynamic.
    pub open spec fn is_valid(self, method: LeafletClassification, global_normal: MembraneNormal) -> bool {
        &&& self.method_is_complete(method)
        &&& Self::uses_normal(method) ==> (global_normal != MembraneNormal::Dynamic
            || self.membrane_normal is Some)
    }

    /// The normal that the editor shows for the assignment: the explicit one,
    /// or else the global one.
    pub open spec fn shown_normal(self, global_normal: MembraneNormal) -> MembraneNormal {
        match self.membrane_normal {
            Some(normal) => normal,
            None => global_normal,
        }
    }
}

/// The detail of the error for a local radius that is zero or negative.
pub open spec fn local_radius_detail() -> Seq<char> {
    "radius for the local leaflet assignment must be greater than 0"@
}

/// The detail of the error for a local radius that is refused: the engine's
/// message where there is one, else the library's own.
pub open spec fn local_radius_message(reply: Option<Seq<char>>) -> Seq<char> {
    match reply {
        Some(message) => message,
        None => local_radius_detail(),
    }
}

/// The detail of the error for an explicit normal that is no axis.
pub open spec fn normal_detail() -> Seq<char> {
    "membrane normal for the leaflet assignment must be one of the axes x, y, z"@
}

/// The static normal of an axis that may be missing.
pub fn convert_axis_option(axis: Option<Axis>) -> (r: Option<MembraneNormal>)
    ensures
        r == spec_convert_axis_option(axis),
{
    match axis {
        None => None,
        Some(x) => Some(MembraneNormal::from_axis(x)),
    }
}

/// The frequency that the editor holds for a frequency of a document.
pub fn imported_frequency(frequency: Frequency) -> (r: Frequency)
    ensures
        r == spec_imported_frequency(frequency),
{
    match frequency {
        Frequency::Once => Frequency::Every(1),
        Frequency::Every(n) => Frequency::Every(n),
    }
}

/// The choice and the period that the editor shows for a frequency.
pub fn raw_frequency(frequency: Frequency) -> (r: (RawFrequency, usize))
    ensures
        r == spec_raw_frequency(frequency),
{
    match frequency {
        Frequency::Once => (RawFrequency::Once, 0),
        Frequency::Every(n) => if n == 1 {
            (RawFrequency::Every, 1)
        } else {
            (RawFrequency::EveryN, n)
        },
    }
}

/// The frequency for a choice and a period. The engine makes each periodic
/// frequency; it gets no period below one.
pub fn frequency_from_raw(raw: RawFrequency, n: usize) -> (r: Frequency)
    ensures
        r == spec_frequency_from_raw(raw, n),
        r.accepted(),
{
    match raw {
        RawFrequency::Once => Frequency::Once,
        RawFrequency::Every => frequency_every(1).unwrap(),
        RawFrequency::EveryN => {
            let period: usize = if n < 2 {
                2
            } else {
                n
            };
            frequency_every(period).unwrap()
        },
    }
}

/// The frequency as the engine holds it, or the engine's refusal.
fn checked_frequency(frequency: Frequency) -> (r: Result<Frequency, ConversionError>)
    ensures
        r is Ok <==> frequency.accepted(),
        r matches Ok(f) ==> f == frequency,
        r matches Err(e) ==> e@.kind() == ErrorKind::InvalidAnalysisParams,
{
    match frequency {
        Frequency::Once => Ok(Frequency::Once),
        Frequency::Every(n) => match frequency_every(n) {
            Ok(f) => Ok(f),
            Err(detail) => Err(ConversionError::InvalidAnalysisParams(detail)),
        },
    }
}

impl LeafletClassification {
    /// The method that a document asks for.
    pub fn try_from_document(value: &Option<document::LeafletClassification>) -> (r: Result<
        LeafletClassification,
        ConversionError,
    >)
        ensures
            crate::error::result_view(r) == spec_method_of(document::leaflets_view(*value)),
    {
        match value {
            None => Ok(LeafletClassification::NoAssignment),
            Some(document::LeafletClassification::Global { .. }) => Ok(LeafletClassification::Global),
            Some(document::LeafletClassification::Local { .. }) => Ok(LeafletClassification::Local),
            Some(document::LeafletClassification::Individual { .. }) => Ok(
                LeafletClassification::Individual,
            ),
            Some(document::LeafletClassification::Clustering { .. }) => Ok(
                LeafletClassification::Clustering,
            ),
            Some(document::LeafletClassification::FromFile { .. }) => Ok(
                LeafletClassification::FromFile,
            ),
            Some(document::LeafletClassification::FromNdx { .. }) => Ok(LeafletClassification::FromNdx),
            Some(document::LeafletClassification::FromMap { .. }) => Err(
                ConversionError::FromMapLeaflets,
            ),
        }
    }

    /// The name of the method as the editor shows it.
    pub open spec fn spec_label(self) -> Seq<char> {
        match self {
            LeafletClassification::NoAssignment => ""@,
            LeafletClassification::Global => "global"@,
            LeafletClassification::Local => "local"@,
            LeafletClassification::Individual => "individual"@,
            LeafletClassification::Clustering => "clustering"@,
            LeafletClassification::FromFile => "leaflet assignment file"@,
            LeafletClassification::FromNdx => "NDX files"@,
        }
    }

    /// The name of the method as the editor shows it.
    pub fn to_string(&self) -> (r: String)
        ensures
            r@ == self.spec_label(),
    {
        match self {
            LeafletClassification::NoAssignment => String::from_str(""),
            LeafletClassification::Global => String::from_str("global"),
            LeafletClassification::Local => String::from_str("local"),
            LeafletClassification::Individual => String::from_str("individual"),
            LeafletClassification::Clustering => String::from_str("clustering"),
            LeafletClassification::FromFile => String::from_str("leaflet assignment file"),
            LeafletClassification::FromNdx => String::from_str("NDX files"),
        }
    }
}

impl LeafletClassificationParams {
    /// The parameters that a document gives.
    pub fn try_from_document(value: &Option<document::LeafletClassification>) -> (r: Result<
        LeafletClassificationParams,
        ConversionError,
    >)
        ensures
            r is Ok <==> LeafletClassificationParamsView::spec_try_from_document(
                document::leaflets_view(*value),
            ) is Ok,
            r matches Ok(params) ==> Ok::<LeafletClassificationParamsView, ConversionErrorView>(
                params@,
            ) == LeafletClassificationParamsView::spec_try_from_document(
                document::leaflets_view(*value),
            ),
            r matches Err(e) ==> e@ == ConversionErrorView::FromMapLeaflets,
    {
        let mut params = LeafletClassificationParams::default();
        match value {
            None => {},
            Some(document::LeafletClassification::Global { membrane, heads, frequency, membrane_normal }) => {
                params.global_params = LeafletGlobalParams {
                    membrane: membrane.clone(),
                    heads: heads.clone(),
                };
                params.frequency = imported_frequency(*frequency);
                params.membrane_normal = convert_axis_option(*membrane_normal);
            },
            Some(document::LeafletClassification::Local { membrane, heads, radius, frequency, membrane_normal }) => {
                params.local_params = LeafletLocalParams {
                    membrane: membrane.clone(),
                    heads: heads.clone(),
                    radius: *radius,
                };
                params.frequency = imported_frequency(*frequency);
                params.membrane_normal = convert_axis_option(*membrane_normal);
            },
            Some(document::LeafletClassification::Individual { heads, methyls, frequency, membrane_normal }) => {
                params.individual_params = LeafletIndividualParams {
                    heads: heads.clone(),
                    methyls: methyls.clone(),
                };
                params.frequency = imported_frequency(*frequency);
                params.membrane_normal = convert_axis_option(*membrane_normal);
            },
            Some(document::LeafletClassification::Clustering { heads, frequency }) => {
                params.clustering_params = LeafletClusteringParams { heads: heads.clone() };
                params.frequency = imported_frequency(*frequency);
            },
            Some(document::LeafletClassification::FromFile { file, frequency }) => {
                params.from_file_params = LeafletFromFileParams { file: file.clone() };
                params.frequency = imported_frequency(*frequency);
            },
            Some(document::LeafletClassification::FromNdx { heads, ndx, upper_leaflet, lower_leaflet, frequency }) => {
                params.from_ndx_params = LeafletFromNdxParams {
                    heads: heads.clone(),
                    ndx: clone_strings(ndx),
                    upper_leaflet: upper_leaflet.clone(),
                    lower_leaflet: lower_leaflet.clone(),
                };
                params.frequency = imported_frequency(*frequency);
            },
            Some(document::LeafletClassification::FromMap { .. }) => {
                return Err(ConversionError::FromMapLeaflets);
            },
        }
        Ok(params)
    }

    /// The axis that the document gets for the assignment, or the refusal of
    /// an explicit normal that is no axis.
    fn exported_axis(&self) -> (r: Result<Option<Axis>, ConversionError>)
        ensures
            r is Err <==> (self.membrane_normal is Some && !self.membrane_normal->0.is_static()),
            r matches Ok(axis) ==> axis == self@.explicit_axis(),
            r matches Err(e) ==> e@ == ConversionErrorView::InvalidAnalysisParams(normal_detail()),
    {
        match self.membrane_normal {
            None => Ok(None),
            Some(normal) => match normal.axis() {
                Some(axis) => Ok(Some(axis)),
                None => Err(
                    ConversionError::InvalidAnalysisParams(
                        String::from_str(
                            "membrane normal for the leaflet assignment must be one of the axes x, y, z",
                        ),
                    ),
                ),
            },
        }
    }

    /// The leaflet block of the document for the selected method, as it is
    /// put to the engine: nothing is checked, and an explicit normal that is
    /// no axis is left out.
    pub fn draft(&self, method: LeafletClassification) -> (r: Option<document::LeafletClassification>)
        ensures
            document::leaflets_view(r) == self@.to_document(method),
    {
        let membrane_normal = match self.membrane_normal {
            Some(normal) => normal.axis(),
            None => None,
        };
        match method {
            LeafletClassification::NoAssignment => None,
            LeafletClassification::Global => Some(
                document::LeafletClassification::Global {
                    membrane: self.global_params.membrane.clone(),
                    heads: self.global_params.heads.clone(),
                    frequency: self.frequency,
                    membrane_normal,
                },
            ),
            LeafletClassification::Local => Some(
                document::LeafletClassification::Local {
                    membrane: self.local_params.membrane.clone(),
                    heads: self.local_params.heads.clone(),
                    radius: self.local_params.radius,
                    frequency: self.frequency,
                    membrane_normal,
                },
            ),
            LeafletClassification::Individual => Some(
                document::LeafletClassification::Individual {
                    heads: self.individual_params.heads.clone(),
                    methyls: self.individual_params.methyls.clone(),
                    frequency: self.frequency,
                    membrane_normal,
                },
            ),
            LeafletClassification::Clustering => Some(
                document::LeafletClassification::Clustering {
                    heads: self.clustering_params.heads.clone(),
                    frequency: self.frequency,
                },
            ),
            LeafletClassification::FromFile => Some(
                document::LeafletClassification::FromFile {
                    file: self.from_file_params.file.clone(),
                    frequency: self.frequency,
                },
            ),
            LeafletClassification::FromNdx => Some(
                document::LeafletClassification::FromNdx {
                    heads: self.from_ndx_params.heads.clone(),
                    ndx: clone_strings(&self.from_ndx_params.ndx),
                    upper_leaflet: self.from_ndx_params.upper_leaflet.clone(),
                    lower_leaflet: self.from_ndx_params.lower_leaflet.clone(),
                    frequency: self.frequency,
                },
            ),
        }
    }

    /// The leaflet block of the document for the selected method, given the
    /// message with which the engine refused the radius of the local method,
    /// if it did.
    ///
    /// A refused radius, a period of zero and a normal that is no axis are
    /// each refused as invalid analysis parameters. The period is put to the
    /// engine here; the detail of a refused period is the engine's message.
    pub fn to_document(&self, method: LeafletClassification, reply: &Option<String>) -> (r: Result<
        Option<document::LeafletClassification>,
        ConversionError,
    >)
        ensures
            r is Ok <==> self@.rejection(method, opt_view(*reply)) is None,
            r matches Ok(block) ==> document::leaflets_view(block) == self@.to_document(method),
            r matches Err(e) ==> e@.kind() == ErrorKind::InvalidAnalysisParams,
            r matches Err(e) ==> (self@.rejection(method, opt_view(*reply)) == Some(
                LeafletRejection::LocalRadius,
            ) ==> e@.detail() == local_radius_message(opt_view(*reply))),
            r matches Err(e) ==> (self@.rejection(method, opt_view(*reply)) == Some(
                LeafletRejection::NormalNotAnAxis,
            ) ==> e@.detail() == normal_detail()),
    {
        match method {
            LeafletClassification::NoAssignment => {
                return Ok(None);
            },
            LeafletClassification::Local => {
                match reply {
                    Some(message) => {
                        return Err(ConversionError::InvalidAnalysisParams(message.clone()));
                    },
                    None => {
                        if self.local_params.radius.zero_or_negative() {
                            return Err(
                                ConversionError::InvalidAnalysisParams(
                                    String::from_str(
                                        "radius for the local leaflet assignment must be greater than 0",
                                    ),
                                ),
                            );
                        }
                    },
                }
            },
            _ => {},
        }
        let _ = checked_frequency(self.frequency)?;
        match method {
            LeafletClassification::Global
            | LeafletClassification::Local
            | LeafletClassification::Individual => {
                let _ = self.exported_axis()?;
            },
            _ => {},
        }
        Ok(self.draft(method))
    }

    /// Check that all required options for leaflet assignment have been
    /// provided, given the selected method and the global membrane normal.
    pub fn sanity_check(&self, method: LeafletClassification, global_normal: MembraneNormal) -> (r:
        bool)
        ensures
            r == self@.is_valid(method, global_normal),
    {
        let complete = match method {
            LeafletClassification::NoAssignment => true,
            LeafletClassification::Global => self.global_params.sanity_check(),
            LeafletClassification::Local => self.local_params.sanity_check(),
            LeafletClassification::Individual => self.individual_params.sanity_check(),
            LeafletClassification::Clustering => self.clustering_params.sanity_check(),
            LeafletClassification::FromFile => self.from_file_params.sanity_check(),
            LeafletClassification::FromNdx => self.from_ndx_params.sanity_check(),
        };
        let normal_known = match method {
            LeafletClassification::Global
            | LeafletClassification::Local
            | LeafletClassification::Individual => global_normal != MembraneNormal::Dynamic
                || self.membrane_normal.is_some(),
            _ => true,
        };
        complete && normal_known
    }

    /// The normal that the editor shows for the assignment: the explicit one,
    /// or else the global one.
    pub fn shown_normal(&self, global_normal: MembraneNormal) -> (r: MembraneNormal)
        ensures
            r == self@.shown_normal(global_normal),
    {
        match self.membrane_normal {
            Some(normal) => normal,
            None => global_normal,
        }
    }

    /// Whether the editor must ask for an explicit normal: the one that it
    /// shows is no axis.
    pub fn normal_must_be_set(&self, global_normal: MembraneNormal) -> (r: bool)
        ensures
            r == !self@.shown_normal(global_normal).is_static(),
    {
        let shown = self.shown_normal(global_normal);
        shown == MembraneNormal::Dynamic || shown == MembraneNormal::FromFile
    }

    /// Sets the normal for the assignment, which from then on no longer
    /// follows the global normal.
    pub fn set_normal(&mut self, axis: Axis)
        ensures
            final(self)@ == (LeafletClassificationParamsView {
                membrane_normal: Some(MembraneNormal::spec_from_axis(axis)),
                ..old(self)@
            }),
    {
        self.membrane_normal = Some(MembraneNormal::from_axis(axis));
    }
}

} // verus!
