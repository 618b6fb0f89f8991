//! The error taxonomy of the check pipeline. Only syntax-class and
//! build-class errors cross the boundary to the editor, as diagnostics;
//! every other kind is enumerated so that discarding it is an explicit
//! decision, never a silent fallthrough.

use vstd::prelude::*;

use crate::config::ProjectName;

verus! {

/// A syntax error in one source file.
#[derive(Clone, Copy, PartialEq, Eq, Structural, Debug)]
pub struct SyntaxError {
    pub file: u64,
    pub detail: u64,
}

/// A validation or build failure of one project.
#[derive(Clone, Copy, PartialEq, Eq, Structural, Debug)]
pub struct BuildProjectError {
    pub project: ProjectName,
    pub detail: u64,
}

/// Every kind of error the compiler side can report. A check cycle itself
/// produces only the first two; the rest occur elsewhere in the pipeline
/// and are classified (and intentionally dropped) by the orchestrator.
#[derive(Debug)]
pub enum CompilerError {
    /// The pending sources failed to parse; cycle-wide.
    SyntaxErrors { errors: Vec<SyntaxError> },
    /// One or more projects failed to validate or build.
    BuildProjectsErrors { errors: Vec<BuildProjectError> },
    /// The configuration file could not be read.
    ConfigFileRead,
    /// The configuration file could not be parsed.
    ConfigFileParse,
    /// The configuration file failed validation.
    ConfigFileValidation,
    /// A source file could not be read.
    ReadFileError,
    /// An artifact could not be written.
    WriteFileError,
    /// An artifact could not be encoded.
    SerializationError,
    /// An artifact could not be decoded.
    DeserializationError,
    /// The configured root could not be canonicalized.
    CanonicalizeRoot,
    /// The change watcher failed.
    Watchman,
    /// A query yielded nothing where something was expected.
    EmptyQueryResult,
    /// A file read failed inside the watcher.
    FileRead,
    /// A single syntax failure outside a cycle-wide parse.
    Syntax,
}

} // verus!
