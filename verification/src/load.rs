//! Loading: from the text of a file to a manifest.

use vstd::prelude::*;
use vstd::string::*;
use crate::document::{decode, decoded};
use crate::manifest::QuestConfig;
use crate::shape::{manifest_shape, shape_manifest, ShapeError};

verus! {

/// Why no manifest could be loaded from a file.
#[derive(Debug)]
pub enum LoadError {
    /// The file could not be opened or read.
    FileUnavailable { path: String, cause: String },
    /// The text of the file is not in the TOML grammar.
    SyntaxInvalid { path: String, cause: String },
    /// The document does not fit the shape of a manifest.
    ShapeInvalid { path: String, fault: ShapeError },
}

impl LoadError {
    /// The path of the file that the error is about.
    pub open spec fn path_spec(self) -> Seq<char> {
        match self {
            LoadError::FileUnavailable { path, .. } => path@,
            LoadError::SyntaxInvalid { path, .. } => path@,
            LoadError::ShapeInvalid { path, .. } => path@,
        }
    }

    /// The line that reports this error, without its cause.
    pub open spec fn message_spec(self) -> Seq<char> {
        match self {
            LoadError::FileUnavailable { path, .. } => "Failed to read "@ + path@,
            LoadError::SyntaxInvalid { path, .. } => "Failed to parse "@ + path@,
            LoadError::ShapeInvalid { fault, .. } => fault.message_spec(),
        }
    }

    /// The line that reports this error, followed by its cause where it has
    /// one.
    pub open spec fn chain_spec(self) -> Seq<char> {
        match self {
            LoadError::FileUnavailable { cause, .. } => self.message_spec() + ": "@ + cause@,
            LoadError::SyntaxInvalid { cause, .. } => self.message_spec() + ": "@ + cause@,
            LoadError::ShapeInvalid { .. } => self.message_spec(),
        }
    }

    /// Renders the line that reports this error, without its cause.
    pub fn message(&self) -> (r: String)
        ensures
            r@ == self.message_spec(),
    {
        match self {
            LoadError::FileUnavailable { path, .. } => {
                let mut r = String::from_str("Failed to read ");
                r.append(path.as_str());
                r
            },
            LoadError::SyntaxInvalid { path, .. } => {
                let mut r = String::from_str("Failed to parse ");
                r.append(path.as_str());
                r
            },
            LoadError::ShapeInvalid { fault, .. } => fault.message(),
        }
    }

    /// Renders the line that reports this error, followed by its cause where
    /// it has one.
    pub fn chain(&self) -> (r: String)
        ensures
            r@ == self.chain_spec(),
    {
        let mut r = self.message();
        match self {
            LoadError::FileUnavailable { cause, .. } => {
                r.append(": ");
                r.append(cause.as_str());
            },
            LoadError::SyntaxInvalid { cause, .. } => {
                r.append(": ");
                r.append(cause.as_str());
            },
            LoadError::ShapeInvalid { .. } => {},
        }
        r
    }
}

/// Loads the manifest of the file at `file_path` from what reading the file
/// gave: its text, or the cause for which it could not be read.
///
/// A file that could not be read is `FileUnavailable`, with that cause. A
/// text that is not in the TOML grammar is `SyntaxInvalid`. A document that
/// does not fit the shape of a manifest is `ShapeInvalid`, with the first
/// fault of its shape. Any other text gives the manifest that it holds.
pub fn read_quest_config(file_path: &str, content: Result<String, String>) -> (r: Result<
    QuestConfig,
    LoadError,
>)
    ensures
        r matches Err(e) ==> e.path_spec() == file_path@,
        match content {
            Err(cause) => r matches Err(LoadError::FileUnavailable { cause: c, .. }) && c == cause,
            Ok(text) => match decoded(text@) {
                None => r matches Err(LoadError::SyntaxInvalid { .. }),
                Some(doc) => match manifest_shape(doc) {
                    Ok(view) => r matches Ok(config) && config@ == view,
                    Err(fault) => r matches Err(LoadError::ShapeInvalid { fault: f, .. }) && f
                        == fault,
                },
            },
        },
{
    let text = match content {
        Ok(text) => text,
        Err(cause) => {
            return Err(LoadError::FileUnavailable { path: String::from_str(file_path), cause });
        },
    };
    let doc = match decode(text.as_str()) {
        Ok(doc) => doc,
        Err(cause) => {
            return Err(LoadError::SyntaxInvalid { path: String::from_str(file_path), cause });
        },
    };
    match shape_manifest(doc) {
        Ok(config) => Ok(config),
        Err(fault) => Err(LoadError::ShapeInvalid { path: String::from_str(file_path), fault }),
    }
}

} // verus!
