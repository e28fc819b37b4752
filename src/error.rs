use vstd::prelude::*;

use crate::output::OutputError;

verus! {

/// Failures of the compilation pipeline.
#[derive(Debug, Clone, PartialEq)]
pub enum Error {
    /// A profile name other than `debug` or `release`.
    UnknownProfileType,
    /// The running machine is not one of the supported platforms.
    NoTargetPlatform,
    /// The source path has no file name.
    FailedToParseFileName,
    /// Fetching the manifest or downloading a compiler build failed, or a
    /// build has no mirror to download from.
    NetworkError,
    /// The build manifest has no entry for the requested version and platform.
    VersionNotFound,
    /// The compiler reported at least one error-severity diagnostic; all of
    /// the response's diagnostics are kept.
    CompileDiagnosticError(Vec<OutputError>),
    /// A response lacks a part that the request selected.
    ParseError,
    /// The project configuration handed in is not usable.
    ConfigError,
}

} // verus!
