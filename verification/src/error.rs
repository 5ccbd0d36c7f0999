//! The failures that the library's decisions can surface.

use vstd::prelude::*;

use crate::resolve::Runtime;

verus! {

/// The step of a lifecycle verb whose external invocation failed.
#[derive(Debug, Clone, Copy, PartialEq, Eq, Structural)]
pub enum Step {
    Build,
    Run,
    Exec,
    Remove,
}

/// Every error the library can report. All of them are fatal to the
/// invocation that raised them.
#[derive(Debug, Clone, Copy, PartialEq, Eq, Structural)]
pub enum Error {
    /// A `-v`/`-p` value lacks a colon, or one of its sides is empty.
    MalformedMount,
    /// An explicitly selected runtime binary is not invocable.
    RuntimeUnavailable(Runtime),
    /// Automatic selection found neither runtime binary invocable.
    NoRuntimeFound,
    /// An external invocation returned a failure status.
    CommandFailed(Step),
}

impl Error {
    /// The text that `message` returns for each error.
    pub open spec fn spec_message(self) -> Seq<char> {
        match self {
            Error::MalformedMount => "mount must have the form `host:container` with both sides non-empty"@,
            Error::RuntimeUnavailable(Runtime::Podman) => "`podman` selected as container runtime, but does not exist in $PATH"@,
            Error::RuntimeUnavailable(Runtime::Docker) => "`docker` selected as container runtime, but does not exist in $PATH"@,
            Error::NoRuntimeFound => "neither `podman` nor `docker` found in local environment"@,
            Error::CommandFailed(Step::Build) => "the build command failed"@,
            Error::CommandFailed(Step::Run) => "the run command failed"@,
            Error::CommandFailed(Step::Exec) => "the exec command failed"@,
            Error::CommandFailed(Step::Remove) => "the container could not be removed"@,
        }
    }

    /// A human-readable description of the failure.
    pub fn message(&self) -> (r: &'static str)
        ensures
            r@ == self.spec_message(),
    {
        match self {
            Error::MalformedMount => "mount must have the form `host:container` with both sides non-empty",
            Error::RuntimeUnavailable(Runtime::Podman) => "`podman` selected as container runtime, but does not exist in $PATH",
            Error::RuntimeUnavailable(Runtime::Docker) => "`docker` selected as container runtime, but does not exist in $PATH",
            Error::NoRuntimeFound => "neither `podman` nor `docker` found in local environment",
            Error::CommandFailed(Step::Build) => "the build command failed",
            Error::CommandFailed(Step::Run) => "the run command failed",
            Error::CommandFailed(Step::Exec) => "the exec command failed",
            Error::CommandFailed(Step::Remove) => "the container could not be removed",
        }
    }
}

} // verus!
