//! Core logic of a LaTeX project manager: the project configuration, the
//! build plan computed from it, and the state machine that drives the
//! external compiler and citation tools through one build invocation.

use vstd::prelude::*;
use vstd::string::StringExecFns;

pub mod cli;
pub mod config;
pub mod pipeline;
pub mod plan;
pub mod scaffold;

verus! {

/// The category of document a project was scaffolded from. The pipeline
/// itself does not consult it; it selects the source template and the
/// default configuration a new project starts with.
#[derive(Debug, Clone, Copy, PartialEq, Eq, Structural)]
pub enum DocumentType {
    Article,
    Book,
    Thesis,
    Presentation,
    MathArticle,
    Notes,
    Letter,
    Recipe,
}

/// Everything that can go wrong around a build or an interactive setup.
#[derive(Debug)]
pub enum TexrsError {
    /// An interactive menu was answered with a string that names no option.
    InvalidChoice(String),
    /// No configuration file was found at the resolved location.
    ConfigMissing,
    /// The configuration file exists but could not be parsed, or lacks a
    /// required field; the payload carries the parser's diagnostics.
    ConfigMalformed(String),
    /// An external tool could not be located or started at all: an
    /// environment problem, fatal to the whole build. The payload names
    /// the tool.
    ToolLaunchFailed(String),
}

impl TexrsError {
    /// The text of each error, as a caller would print it.
    pub open spec fn spec_message(&self) -> Seq<char> {
        match self {
            TexrsError::InvalidChoice(s) => "Invalid input: `"@ + s@ + "` not permitted."@,
            TexrsError::ConfigMissing => "No configuration file was found for this project."@,
            TexrsError::ConfigMalformed(d) => "The configuration file could not be read: "@ + d@,
            TexrsError::ToolLaunchFailed(t) => "The tool `"@ + t@ + "` could not be launched."@,
        }
    }

    /// A human-readable description of the error.
    pub fn message(&self) -> (message: String)
        ensures
            message@ == self.spec_message(),
    {
        match self {
            TexrsError::InvalidChoice(s) => {
                "Invalid input: `".to_owned().concat(s.as_str()).concat("` not permitted.")
            },
            TexrsError::ConfigMissing => {
                "No configuration file was found for this project.".to_owned()
            },
            TexrsError::ConfigMalformed(d) => {
                "The configuration file could not be read: ".to_owned().concat(d.as_str())
            },
            TexrsError::ToolLaunchFailed(t) => {
                "The tool `".to_owned().concat(t.as_str()).concat("` could not be launched.")
            },
        }
    }
}

} // verus!
