//! Errors of the conversions between the editor's state and the engine's document.

use vstd::prelude::*;
use vstd::string::StringExecFns;

verus! {

/// Why a conversion between the editor's state and the engine's configuration
/// document failed.
#[derive(Debug, Clone)]
pub enum ConversionError {
    /// The document gives the membrane normals inline, molecule by molecule.
    FromMapNormals,
    /// The document gives the leaflet assignment inline, molecule by molecule.
    FromMapLeaflets,
    /// The parameters of the order maps were rejected.
    InvalidOrderMapParams(String),
    /// The assembled analysis was rejected.
    InvalidAnalysisParams(String),
    /// The parameters of the error estimation were rejected.
    InvalidEstimateError(String),
    /// The parameters of the membrane normal were rejected.
    InvalidMembraneNormal(String),
    /// The parameters of the geometry selection were rejected.
    InvalidGeometryParams(String),
}

/// A conversion error with its detail as a sequence of characters.
pub enum ConversionErrorView {
    FromMapNormals,
    FromMapLeaflets,
    InvalidOrderMapParams(Seq<char>),
    InvalidAnalysisParams(Seq<char>),
    InvalidEstimateError(Seq<char>),
    InvalidMembraneNormal(Seq<char>),
    InvalidGeometryParams(Seq<char>),
}

/// The group of parameters that an error speaks of.
#[derive(Debug, Clone, Copy, PartialEq, Eq, Structural)]
pub enum ErrorKind {
    FromMapNormals,
    FromMapLeaflets,
    InvalidOrderMapParams,
    InvalidAnalysisParams,
    InvalidEstimateError,
    InvalidMembraneNormal,
    InvalidGeometryParams,
}

impl View for ConversionError {
    type V = ConversionErrorView;

    open spec fn view(&self) -> ConversionErrorView {
        match self {
            ConversionError::FromMapNormals => ConversionErrorView::FromMapNormals,
            ConversionError::FromMapLeaflets => ConversionErrorView::FromMapLeaflets,
            ConversionError::InvalidOrderMapParams(d) => ConversionErrorView::InvalidOrderMapParams(d@),
            ConversionError::InvalidAnalysisParams(d) => ConversionErrorView::InvalidAnalysisParams(d@),
            ConversionError::InvalidEstimateError(d) => ConversionErrorView::InvalidEstimateError(d@),
            ConversionError::InvalidMembraneNormal(d) => ConversionErrorView::InvalidMembraneNormal(d@),
            ConversionError::InvalidGeometryParams(d) => ConversionErrorView::InvalidGeometryParams(d@),
        }
    }
}

impl ConversionErrorView {
    /// The group of parameters that the error speaks of.
    pub open spec fn kind(self) -> ErrorKind {
        match self {
            ConversionErrorView::FromMapNormals => ErrorKind::FromMapNormals,
            ConversionErrorView::FromMapLeaflets => ErrorKind::FromMapLeaflets,
            ConversionErrorView::InvalidOrderMapParams(_) => ErrorKind::InvalidOrderMapParams,
            ConversionErrorView::InvalidAnalysisParams(_) => ErrorKind::InvalidAnalysisParams,
            ConversionErrorView::InvalidEstimateError(_) => ErrorKind::InvalidEstimateError,
            ConversionErrorView::InvalidMembraneNormal(_) => ErrorKind::InvalidMembraneNormal,
            ConversionErrorView::InvalidGeometryParams(_) => ErrorKind::InvalidGeometryParams,
        }
    }

    /// The detail that the error carries; empty for the two errors without one.
    pub open spec fn detail(self) -> Seq<char> {
        match self {
            ConversionErrorView::FromMapNormals => Seq::empty(),
            ConversionErrorView::FromMapLeaflets => Seq::empty(),
            ConversionErrorView::InvalidOrderMapParams(d) => d,
            ConversionErrorView::InvalidAnalysisParams(d) => d,
            ConversionErrorView::InvalidEstimateError(d) => d,
            ConversionErrorView::InvalidMembraneNormal(d) => d,
            ConversionErrorView::InvalidGeometryParams(d) => d,
        }
    }

    /// What stands before the detail in the error's message.
    pub open spec fn prefix(self) -> Seq<char> {
        match self {
            ConversionErrorView::FromMapNormals => "error: guiorder does not support inline specification of membrane normals"@,
            ConversionErrorView::FromMapLeaflets => "error: guiorder does not support inline specification of leaflet assignment"@,
            ConversionErrorView::InvalidOrderMapParams(_) => "error: could not convert ordermap parameters into gorder structure (details: "@,
            ConversionErrorView::InvalidAnalysisParams(_) => "error: could not convert analysis parameters into gorder structure (details: "@,
            ConversionErrorView::InvalidEstimateError(_) => "error: could not convert parameters for error estimation into gorder structure (details: "@,
            ConversionErrorView::InvalidMembraneNormal(_) => "error: could not convert membrane normal parameters into gorder structure (details: "@,
            ConversionErrorView::InvalidGeometryParams(_) => "error: could not convert geometry parameters into gorder structure (details: "@,
        }
    }

    /// Whether the message ends with the detail in brackets.
    pub open spec fn has_detail(self) -> bool {
        !(self is FromMapNormals || self is FromMapLeaflets)
    }

    /// The message of the error.
    pub open spec fn message(self) -> Seq<char> {
        if self.has_detail() {
            self.prefix() + self.detail() + ")"@
        } else {
            self.prefix()
        }
    }
}

/// A result whose error is taken by its view.
pub open spec fn result_view<T>(r: Result<T, ConversionError>) -> Result<T, ConversionErrorView> {
    match r {
        Ok(t) => Ok(t),
        Err(e) => Err(e@),
    }
}

impl ConversionError {
    /// The group of parameters that the error speaks of.
    pub fn kind(&self) -> (r: ErrorKind)
        ensures
            r == self@.kind(),
    {
        match self {
            ConversionError::FromMapNormals => ErrorKind::FromMapNormals,
            ConversionError::FromMapLeaflets => ErrorKind::FromMapLeaflets,
            ConversionError::InvalidOrderMapParams(_) => ErrorKind::InvalidOrderMapParams,
            ConversionError::InvalidAnalysisParams(_) => ErrorKind::InvalidAnalysisParams,
            ConversionError::InvalidEstimateError(_) => ErrorKind::InvalidEstimateError,
            ConversionError::InvalidMembraneNormal(_) => ErrorKind::InvalidMembraneNormal,
            ConversionError::InvalidGeometryParams(_) => ErrorKind::InvalidGeometryParams,
        }
    }

    fn with_detail(prefix: &str, detail: &String) -> (r: String)
        ensures
            r@ == prefix@ + detail@ + ")"@,
    {
        let mut text = String::from_str(prefix);
        text.append(detail.as_str());
        text.append(")");
        text
    }

    /// The message of the error, without colours.
    pub fn to_string(&self) -> (r: String)
        ensures
            r@ == self@.message(),
    {
        match self {
            ConversionError::FromMapNormals => String::from_str(
                "error: guiorder does not support inline specification of membrane normals",
            ),
            ConversionError::FromMapLeaflets => String::from_str(
                "error: guiorder does not support inline specification of leaflet assignment",
            ),
            ConversionError::InvalidOrderMapParams(d) => Self::with_detail(
                "error: could not convert ordermap parameters into gorder structure (details: ",
                d,
            ),
            ConversionError::InvalidAnalysisParams(d) => Self::with_detail(
                "error: could not convert analysis parameters into gorder structure (details: ",
                d,
            ),
            ConversionError::InvalidEstimateError(d) => Self::with_detail(
                "error: could not convert parameters for error estimation into gorder structure (details: ",
                d,
            ),
            ConversionError::InvalidMembraneNormal(d) => Self::with_detail(
                "error: could not convert membrane normal parameters into gorder structure (details: ",
                d,
            ),
            ConversionError::InvalidGeometryParams(d) => Self::with_detail(
                "error: could not convert geometry parameters into gorder structure (details: ",
                d,
            ),
        }
    }
}

} // verus!
