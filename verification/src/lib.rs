//! Loading and validation of quest manifests.
//!
//! A quest manifest is a TOML document that describes a multi-stage exercise
//! repository. This crate decodes the text of a manifest, maps the document
//! onto the manifest shape, checks the content rules and renders the outcome
//! of a run as an exit status and one diagnostic line.

pub mod sequence;
pub mod text;
pub mod document;
pub mod manifest;
pub mod validate;
pub mod shape;
pub mod load;
pub mod report;
