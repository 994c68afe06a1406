//! The error taxonomy of the engine: configuration errors, path errors,
//! command-execution errors and lifecycle errors, each carrying the context
//! needed to render a precise message.

use vstd::prelude::*;

verus! {

/// Everything that can make an invocation fail before or while driving the
/// container engine.
#[derive(Debug, Clone)]
pub enum Error {
    /// No directory on the walk held a document with an entry for `command`.
    NoConfigFound { command: String },
    /// A document exists at `path` but could not be parsed.
    ConfigParse { path: String },
    /// The document demands at least version `required`, above `current`.
    VersionTooLow { required: String, current: String },
    /// The declared minimum version (or the running version) is not a valid
    /// version string.
    VersionInvalid { required: String },
    /// A required document field is absent; `field` is index-qualified, as in
    /// `mounts[2].src`.
    MissingField { field: String },
    /// A document field holds a value of the wrong shape.
    InvalidValue { field: String },
    /// Environment expansion of `field` referenced an unknown variable.
    ExpandFailed { field: String },
    /// A subprocess could not be run or reported failure.
    CommandFailed { command: String },
    /// The invoking directory is not under the resolved configuration root.
    PathOutsideRoot { current: String, root: String },
    /// The subcommand needs a configuration with a `name`.
    NameRequired { subcommand: String },
    /// The subcommand refuses to run inside a container.
    InsideContainer { subcommand: String },
    /// `up` found the named container already running.
    AlreadyRunning { name: String },
    /// The engine could not start the stopped container.
    StartFailed { name: String },
    /// The engine could not stop the running container.
    StopFailed { name: String },
    /// The engine could not remove the container.
    RemoveFailed { name: String },
    /// Neither pulling nor building produced the image.
    ImageBuildFailed { image: String },
    /// A leading token looked like a flag but is not a known one.
    UnsupportedFlag { flag: String },
    /// Every token was a flag: no command is left to run.
    MissingCommand,
}

/// Spec-level shape of an [`Error`], over character sequences.
pub enum ErrorModel {
    NoConfigFound { command: Seq<char> },
    ConfigParse { path: Seq<char> },
    VersionTooLow { required: Seq<char>, current: Seq<char> },
    VersionInvalid { required: Seq<char> },
    MissingField { field: Seq<char> },
    InvalidValue { field: Seq<char> },
    ExpandFailed { field: Seq<char> },
    CommandFailed { command: Seq<char> },
    PathOutsideRoot { current: Seq<char>, root: Seq<char> },
    NameRequired { subcommand: Seq<char> },
    InsideContainer { subcommand: Seq<char> },
    AlreadyRunning { name: Seq<char> },
    StartFailed { name: Seq<char> },
    StopFailed { name: Seq<char> },
    RemoveFailed { name: Seq<char> },
    ImageBuildFailed { image: Seq<char> },
    UnsupportedFlag { flag: Seq<char> },
    MissingCommand,
}

impl View for Error {
    type V = ErrorModel;

    open spec fn view(&self) -> ErrorModel {
        match self {
            Error::NoConfigFound { command } => ErrorModel::NoConfigFound { command: command@ },
            Error::ConfigParse { path } => ErrorModel::ConfigParse { path: path@ },
            Error::VersionTooLow { required, current } => ErrorModel::VersionTooLow {
                required: required@,
                current: current@,
            },
            Error::VersionInvalid { required } => ErrorModel::VersionInvalid {
                required: required@,
            },
            Error::MissingField { field } => ErrorModel::MissingField { field: field@ },
            Error::InvalidValue { field } => ErrorModel::InvalidValue { field: field@ },
            Error::ExpandFailed { field } => ErrorModel::ExpandFailed { field: field@ },
            Error::CommandFailed { command } => ErrorModel::CommandFailed { command: command@ },
            Error::PathOutsideRoot { current, root } => ErrorModel::PathOutsideRoot {
                current: current@,
                root: root@,
            },
            Error::NameRequired { subcommand } => ErrorModel::NameRequired {
                subcommand: subcommand@,
            },
            Error::InsideContainer { subcommand } => ErrorModel::InsideContainer {
                subcommand: subcommand@,
            },
            Error::AlreadyRunning { name } => ErrorModel::AlreadyRunning { name: name@ },
            Error::StartFailed { name } => ErrorModel::StartFailed { name: name@ },
            Error::StopFailed { name } => ErrorModel::StopFailed { name: name@ },
            Error::RemoveFailed { name } => ErrorModel::RemoveFailed { name: name@ },
            Error::ImageBuildFailed { image } => ErrorModel::ImageBuildFailed { image: image@ },
            Error::UnsupportedFlag { flag } => ErrorModel::UnsupportedFlag { flag: flag@ },
            Error::MissingCommand => ErrorModel::MissingCommand,
        }
    }
}

} // verus!
