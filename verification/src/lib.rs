//! Configuration model of an editor for lipid order analyses: the editable state,
//! its validity predicates, and the fallible conversions between that state and
//! the configuration document that the analysis engine consumes.

pub mod analysis_types;
pub mod common;
pub mod convert;
pub mod document;
pub mod engine;
pub mod error;
pub mod estimate_error;
pub mod files;
pub mod frame_selection;
pub mod geometry;
pub mod laws;
pub mod leaflets;
pub mod membrane_normal;
pub mod ordermaps;
pub mod other_options;
pub mod scalar;
pub mod text;
pub mod window;
