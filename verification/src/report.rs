//! A run: load, validate, and report the outcome.

use vstd::prelude::*;
use vstd::string::*;
use crate::document::decoded;
use crate::load::{read_quest_config, LoadError};
use crate::shape::manifest_shape;
use crate::validate::{passed_message, validate_quest_config, verdict, ValidationError};

verus! {

/// Why a run failed.
#[derive(Debug)]
pub enum Failure {
    /// No manifest could be loaded.
    Load(LoadError),
    /// The manifest breaks a content rule.
    Validation(ValidationError),
}

/// Where the line of a report is written.
#[derive(Debug, Clone, Copy, PartialEq, Eq, Structural)]
pub enum Stream {
    StandardOutput,
    StandardError,
}

/// What a run leaves behind: its exit status and one line on one stream.
#[derive(Debug)]
pub struct Report {
    pub exit_code: u8,
    pub stream: Stream,
    pub line: String,
}

impl Failure {
    /// The diagnostic of a failure: for a load error the context of loading
    /// and then the error with its cause, for a broken rule its message.
    pub open spec fn diagnostic_spec(self) -> Seq<char> {
        match self {
            Failure::Load(e) => "Error loading quest config: "@ + e.chain_spec(),
            Failure::Validation(e) => e.message_spec(),
        }
    }

    /// Renders the diagnostic of a failure.
    pub fn diagnostic(&self) -> (r: String)
        ensures
            r@ == self.diagnostic_spec(),
    {
        match self {
            Failure::Load(e) => {
                let mut r = String::from_str("Error loading quest config: ");
                let chain = e.chain();
                r.append(chain.as_str());
                r
            },
            Failure::Validation(e) => e.message(),
        }
    }
}

/// Loads the manifest of the file at `file_path` from what reading the file
/// gave, and validates it. Nothing is validated unless loading succeeded.
pub fn check_quest_file(file_path: &str, content: Result<String, String>) -> (r: Result<
    (),
    Failure,
>)
    ensures
        match content {
            Err(cause) => r matches Err(Failure::Load(LoadError::FileUnavailable { cause: c, .. }))
                && c == cause,
            Ok(text) => match decoded(text@) {
                None => r matches Err(Failure::Load(LoadError::SyntaxInvalid { .. })),
                Some(doc) => match manifest_shape(doc) {
                    Err(fault) => r matches Err(
                        Failure::Load(LoadError::ShapeInvalid { fault: f, .. }),
                    ) && f == fault,
                    Ok(view) => match verdict(view) {
                        Ok(_) => r is Ok,
                        Err(e) => r matches Err(Failure::Validation(v)) && v == e,
                    },
                },
            },
        },
        r matches Err(Failure::Load(e)) ==> e.path_spec() == file_path@,
{
    match read_quest_config(file_path, content) {
        Err(e) => Err(Failure::Load(e)),
        Ok(config) => match validate_quest_config(&config) {
            Ok(()) => Ok(()),
            Err(e) => Err(Failure::Validation(e)),
        },
    }
}

/// Renders the outcome of a run: on success status 0 and the line of
/// success on standard output, on failure status 1 and the diagnostic on
/// standard error.
pub fn report(outcome: &Result<(), Failure>) -> (r: Report)
    ensures
        match *outcome {
            Ok(_) => r.exit_code == 0 && r.stream == Stream::StandardOutput && r.line@
                == passed_message(),
            Err(failure) => r.exit_code == 1 && r.stream == Stream::StandardError && r.line@
                == failure.diagnostic_spec(),
        },
{
    match outcome {
        Ok(_) => Report {
            exit_code: 0,
            stream: Stream::StandardOutput,
            line: String::from_str("Validation passed."),
        },
        Err(failure) => Report {
            exit_code: 1,
            stream: Stream::StandardError,
            line: failure.diagnostic(),
        },
    }
}

} // verus!
