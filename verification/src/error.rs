//! The error model: one taxonomy for every failure the front end reports.

use vstd::prelude::*;

verus! {

/// A failure of the front end, as a value the caller can tell apart and report.
#[derive(Debug, PartialEq, Eq)]
pub enum CliError {
    /// The install root was not configured and there is no home directory to
    /// put the default under.
    CannotInferYapmDir,
    /// A path that cannot be used, by its text.
    InvalidPath(String),
    /// The resolver executable at this path could not be started.
    InvalidResolver(String),
    /// Waiting for the subprocess `program` failed in the operating system.
    UnexpectedProcessFailure { program: String, message: String },
    /// The resolver at this path ran and ended in failure.
    ResolverErrored(String),
    /// The archive of package `id` could not be unpacked.
    DecompressError { id: String, message: String },
    /// The worker unpacking package `id` ended without reporting a result.
    WorkerAborted { id: String },
}

/// The content of a [`CliError`]: its kind and the texts it carries.
pub enum Failure {
    CannotInferYapmDir,
    InvalidPath(Seq<char>),
    InvalidResolver(Seq<char>),
    UnexpectedProcessFailure { program: Seq<char>, message: Seq<char> },
    ResolverErrored(Seq<char>),
    DecompressError { id: Seq<char>, message: Seq<char> },
    WorkerAborted { id: Seq<char> },
}

impl View for CliError {
    type V = Failure;

    open spec fn view(&self) -> Failure {
        match self {
            CliError::CannotInferYapmDir => Failure::CannotInferYapmDir,
            CliError::InvalidPath(path) => Failure::InvalidPath(path@),
            CliError::InvalidResolver(path) => Failure::InvalidResolver(path@),
            CliError::UnexpectedProcessFailure { program, message } => {
                Failure::UnexpectedProcessFailure { program: program@, message: message@ }
            },
            CliError::ResolverErrored(path) => Failure::ResolverErrored(path@),
            CliError::DecompressError { id, message } => {
                Failure::DecompressError { id: id@, message: message@ }
            },
            CliError::WorkerAborted { id } => Failure::WorkerAborted { id: id@ },
        }
    }
}

impl Failure {
    /// The sentence that reports this failure to the user.
    pub open spec fn report(self) -> Seq<char> {
        match self {
            Failure::CannotInferYapmDir => {
                "The Yapm directory was not set, and it cannot be inferred to it's default, `~/.yapm`, because the `$HOME` env variable is not set. To resolve, set either the $YAPM_DIR or $HOME environment variables."@
            },
            Failure::InvalidPath(path) => "Invalid path: \""@ + path + "\""@,
            Failure::InvalidResolver(path) => "Resolver could not be spawned from "@ + path,
            Failure::UnexpectedProcessFailure { program, message } => {
                "Subprocess \""@ + program + "\" encountered an unexpected error: "@ + message
            },
            Failure::ResolverErrored(path) => {
                "Failed to resolve using resolver \""@ + path + "\""@
            },
            Failure::DecompressError { id, message } => {
                "Failed to decompress \""@ + id + "\": "@ + message
            },
            Failure::WorkerAborted { id } => {
                "The worker decompressing \""@ + id + "\" stopped before it reported a result"@
            },
        }
    }
}

impl CliError {
    /// The sentence that reports this failure to the user.
    pub fn message(&self) -> (text: String)
        ensures
            text@ == self@.report(),
    {
        match self {
            CliError::CannotInferYapmDir => {
                "The Yapm directory was not set, and it cannot be inferred to it's default, `~/.yapm`, because the `$HOME` env variable is not set. To resolve, set either the $YAPM_DIR or $HOME environment variables.".to_owned()
            },
            CliError::InvalidPath(path) => {
                let mut text = "Invalid path: \"".to_owned();
                text.append(path.as_str());
                text.append("\"");
                text
            },
            CliError::InvalidResolver(path) => {
                let mut text = "Resolver could not be spawned from ".to_owned();
                text.append(path.as_str());
                text
            },
            CliError::UnexpectedProcessFailure { program, message } => {
                let mut text = "Subprocess \"".to_owned();
                text.append(program.as_str());
                text.append("\" encountered an unexpected error: ");
                text.append(message.as_str());
                text
            },
            CliError::ResolverErrored(path) => {
                let mut text = "Failed to resolve using resolver \"".to_owned();
                text.append(path.as_str());
                text.append("\"");
                text
            },
            CliError::DecompressError { id, message } => {
                let mut text = "Failed to decompress \"".to_owned();
                text.append(id.as_str());
                text.append("\": ");
                text.append(message.as_str());
                text
            },
            CliError::WorkerAborted { id } => {
                let mut text = "The worker decompressing \"".to_owned();
                text.append(id.as_str());
                text.append("\" stopped before it reported a result");
                text
            },
        }
    }
}

} // verus!
