//! Parameters related to membrane normal.

use vstd::prelude::*;
use vstd::string::StringExecFns;
use crate::common::MembraneNormal;
use crate::document;
use crate::error::{ConversionError, ConversionErrorView};
use crate::scalar::Scalar;
use crate::text::opt_view;

verus! {

/// The bit pattern of the default radius of the dynamic normal, 2 nm.
pub const DEFAULT_DYNAMIC_RADIUS_BITS: u32 = 0x4000_0000;

/// Parameters for dynamic membrane normal calculations.
#[derive(Debug, Clone)]
pub struct DynamicNormalParams {
    pub heads: String,
    pub radius: Scalar,
}

pub struct DynamicNormalParamsView {
    pub heads: Seq<char>,
    pub radius: Scalar,
}

impl View for DynamicNormalParams {
    type V = DynamicNormalParamsView;

    open spec fn view(&self) -> DynamicNormalParamsView {
        DynamicNormalParamsView { heads: self.heads@, radius: self.radius }
    }
}

impl Default for DynamicNormalParams {
    fn default() -> (r: Self)
        ensures
            r@ == DynamicNormalParamsView::empty(),
    {
        DynamicNormalParams {
            heads: String::new(),
            radius: Scalar::from_bits(DEFAULT_DYNAMIC_RADIUS_BITS),
        }
    }
}

impl DynamicNormalParamsView {
    pub open spec fn empty() -> DynamicNormalParamsView {
        DynamicNormalParamsView {
            heads: Seq::empty(),
            radius: Scalar { bits: DEFAULT_DYNAMIC_RADIUS_BITS },
        }
    }

    /// The selection of heads is required, and a radius above zero.
    pub open spec fn is_complete(self) -> bool {
        self.heads.len() > 0 && self.radius.is_positive()
    }

    /// The parameters of the dynamic normal that a document gives; the
    /// defaults where its normal is of another kind.
    pub open spec fn spec_try_from_document(value: document::MembraneNormalView) -> Result<
        DynamicNormalParamsView,
        ConversionErrorView,
    > {
        match value {
            document::MembraneNormalView::Dynamic { heads, radius } => Ok(
                DynamicNormalParamsView { heads, radius },
            ),
            document::MembraneNormalView::FromMap => Err(ConversionErrorView::FromMapNormals),
            document::MembraneNormalView::Static(_) => Ok(Self::empty()),
            document::MembraneNormalView::FromFile(_) => Ok(Self::empty()),
        }
    }
}

/// The path of the normals file that a document gives; empty where its
/// normal is of another kind.
pub open spec fn spec_normals_file(value: document::MembraneNormalView) -> Seq<char> {
    match value {
        document::MembraneNormalView::FromFile(file) => file,
        _ => Seq::empty(),
    }
}

/// The membrane normal of the document for the selected kind, from the
/// parameters of that kind alone.
pub open spec fn spec_normal_to_document(
    selected: MembraneNormal,
    dynamic: DynamicNormalParamsView,
    from_file: Seq<char>,
) -> document::MembraneNormalView {
    match selected {
        MembraneNormal::X => document::MembraneNormalView::Static(document::Axis::X),
        MembraneNormal::Y => document::MembraneNormalView::Static(document::Axis::Y),
        MembraneNormal::Z => document::MembraneNormalView::Static(document::Axis::Z),
        MembraneNormal::FromFile => document::MembraneNormalView::FromFile(from_file),
        MembraneNormal::Dynamic => document::MembraneNormalView::Dynamic {
            heads: dynamic.heads,
            radius: dynamic.radius,
        },
    }
}

/// The detail of the refusal, where the membrane normal cannot be written.
/// Only a dynamic normal is put to the engine. Where the engine refused it,
/// the detail is the engine's message; where no refusal of the engine is at
/// hand and the radius is zero or negative, the detail is the library's own.
pub open spec fn spec_normal_rejection(
    selected: MembraneNormal,
    dynamic: DynamicNormalParamsView,
    reply: Option<Seq<char>>,
) -> Option<Seq<char>> {
    if selected != MembraneNormal::Dynamic {
        None
    } else if reply is Some {
        reply
    } else if dynamic.radius.is_zero_or_negative() {
        Some(dynamic_radius_detail())
    } else {
        None
    }
}

/// Whether the options that the selected kind of normal requires are there.
pub open spec fn spec_normal_is_valid(
    selected: MembraneNormal,
    dynamic: DynamicNormalParamsView,
    from_file: Seq<char>,
) -> bool {
    match selected {
        MembraneNormal::Dynamic => dynamic.is_complete(),
        MembraneNormal::FromFile => from_file.len() > 0,
        _ => true,
    }
}

/// The detail of the error for a dynamic radius that is zero or negative.
pub open spec fn dynamic_radius_detail() -> Seq<char> {
    "the specified radius for dynamic membrane normal calculation must be larger than 0"@
}

impl DynamicNormalParams {
    /// The parameters of the dynamic normal that a document gives.
    pub fn try_from_document(value: &document::MembraneNormal) -> (r: Result<
        DynamicNormalParams,
        ConversionError,
    >)
        ensures
            r is Ok <==> DynamicNormalParamsView::spec_try_from_document(value@) is Ok,
            r matches Ok(params) ==> Ok::<DynamicNormalParamsView, ConversionErrorView>(params@)
                == DynamicNormalParamsView::spec_try_from_document(value@),
            r matches Err(e) ==> e@ == ConversionErrorView::FromMapNormals,
    {
        match value {
            document::MembraneNormal::Dynamic { heads, radius } => Ok(
                DynamicNormalParams { heads: heads.clone(), radius: *radius },
            ),
            document::MembraneNormal::FromMap => Err(ConversionError::FromMapNormals),
            document::MembraneNormal::Static(_) => Ok(DynamicNormalParams::default()),
            document::MembraneNormal::FromFile(_) => Ok(DynamicNormalParams::default()),
        }
    }
}

/// The path of the normals file that a document gives.
pub fn normals_file(value: &document::MembraneNormal) -> (r: String)
    ensures
        r@ == spec_normals_file(value@),
{
    match value {
        document::MembraneNormal::FromFile(file) => file.clone(),
        _ => String::new(),
    }
}

/// The membrane normal of the document for the selected kind, as it is put
/// to the engine: nothing is checked.
pub fn normal_draft(
    selected: MembraneNormal,
    dynamic: &DynamicNormalParams,
    from_file: &String,
) -> (r: document::MembraneNormal)
    ensures
        r@ == spec_normal_to_document(selected, dynamic@, from_file@),
{
    match selected {
        MembraneNormal::X => document::MembraneNormal::Static(document::Axis::X),
        MembraneNormal::Y => document::MembraneNormal::Static(document::Axis::Y),
        MembraneNormal::Z => document::MembraneNormal::Static(document::Axis::Z),
        MembraneNormal::FromFile => document::MembraneNormal::FromFile(from_file.clone()),
        MembraneNormal::Dynamic => document::MembraneNormal::Dynamic {
            heads: dynamic.heads.clone(),
            radius: dynamic.radius,
        },
    }
}

/// The membrane normal of the document for the selected kind, given the
/// message with which the engine refused the dynamic normal, if it did.
pub fn normal_to_document(
    selected: MembraneNormal,
    dynamic: &DynamicNormalParams,
    from_file: &String,
    reply: &Option<String>,
) -> (r: Result<document::MembraneNormal, ConversionError>)
    ensures
        r is Err <==> spec_normal_rejection(selected, dynamic@, opt_view(*reply)) is Some,
        r matches Ok(normal) ==> normal@ == spec_normal_to_document(selected, dynamic@, from_file@),
        r matches Err(e) ==> e@ == ConversionErrorView::InvalidMembraneNormal(
            spec_normal_rejection(selected, dynamic@, opt_view(*reply))->0,
        ),
{
    if selected == MembraneNormal::Dynamic {
        match reply {
            Some(message) => {
                return Err(ConversionError::InvalidMembraneNormal(message.clone()));
            },
            None => {
                if dynamic.radius.zero_or_negative() {
                    return Err(
                        ConversionError::InvalidMembraneNormal(
                            String::from_str(
                                "the specified radius for dynamic membrane normal calculation must be larger than 0",
                            ),
                        ),
                    );
                }
            },
        }
    }
    Ok(normal_draft(selected, dynamic, from_file))
}

/// Check that all required options for membrane normal specification have
/// been provided.
pub fn normal_sanity_check(
    selected: MembraneNormal,
    dynamic: &DynamicNormalParams,
    from_file: &String,
) -> (r: bool)
    ensures
        r == spec_normal_is_valid(selected, dynamic@, from_file@),
{
    match selected {
        MembraneNormal::Dynamic => !dynamic.heads.as_str().is_empty() && dynamic.radius.positive(),
        MembraneNormal::FromFile => !from_file.as_str().is_empty(),
        _ => true,
    }
}

} // verus!
