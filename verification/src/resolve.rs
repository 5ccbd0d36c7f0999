//! Selection of the container-runtime binary.
//!
//! Probing whether `podman` or `docker` is invocable is the caller's
//! business; the outcome of each probe enters here as a plain boolean,
//! and the decision which runtime to use is made and verified here.

use vstd::prelude::*;

use crate::error::Error;

verus! {

/// The user's runtime preference; `Auto` when none was given.
#[derive(Debug, Clone, Copy, PartialEq, Eq, Structural)]
pub enum RuntimeChoice {
    Podman,
    Docker,
    Auto,
}

/// The concrete runtime binary chosen for one invocation.
#[derive(Debug, Clone, Copy, PartialEq, Eq, Structural)]
pub enum Runtime {
    Podman,
    Docker,
}

impl Runtime {
    /// The name of the runtime binary on the host.
    pub open spec fn spec_name(self) -> Seq<char> {
        match self {
            Runtime::Podman => "podman"@,
            Runtime::Docker => "docker"@,
        }
    }

    /// The executable form of `spec_name`.
    pub fn name(&self) -> (r: &'static str)
        ensures
            r@ == self.spec_name(),
    {
        match self {
            Runtime::Podman => "podman",
            Runtime::Docker => "docker",
        }
    }
}

/// The full decision table of runtime resolution: an explicit preference
/// is honoured or reported unavailable; `Auto` prefers podman, falls back
/// to docker, and fails only when neither probe succeeded.
pub open spec fn resolution(
    preference: RuntimeChoice,
    podman_available: bool,
    docker_available: bool,
) -> Result<Runtime, Error> {
    match preference {
        RuntimeChoice::Podman => if podman_available {
            Ok(Runtime::Podman)
        } else {
            Err(Error::RuntimeUnavailable(Runtime::Podman))
        },
        RuntimeChoice::Docker => if docker_available {
            Ok(Runtime::Docker)
        } else {
            Err(Error::RuntimeUnavailable(Runtime::Docker))
        },
        RuntimeChoice::Auto => if podman_available {
            Ok(Runtime::Podman)
        } else if docker_available {
            Ok(Runtime::Docker)
        } else {
            Err(Error::NoRuntimeFound)
        },
    }
}

/// Chooses the runtime binary for this invocation from the preference and
/// the two probe outcomes.
pub fn determine_runtime(
    preference: RuntimeChoice,
    podman_available: bool,
    docker_available: bool,
) -> (r: Result<Runtime, Error>)
    ensures
        r == resolution(preference, podman_available, docker_available),
{
    match preference {
        RuntimeChoice::Podman => if podman_available {
            Ok(Runtime::Podman)
        } else {
            Err(Error::RuntimeUnavailable(Runtime::Podman))
        },
        RuntimeChoice::Docker => if docker_available {
            Ok(Runtime::Docker)
        } else {
            Err(Error::RuntimeUnavailable(Runtime::Docker))
        },
        RuntimeChoice::Auto => if podman_available {
            Ok(Runtime::Podman)
        } else if docker_available {
            Ok(Runtime::Docker)
        } else {
            Err(Error::NoRuntimeFound)
        },
    }
}

/// With automatic selection, docker alone suffices: resolution selects
/// docker and does not fail.
pub proof fn lemma_auto_falls_back_to_docker()
    ensures
        resolution(RuntimeChoice::Auto, false, true) == Ok::<Runtime, Error>(Runtime::Docker),
{
}

/// With automatic selection and both binaries invocable, podman is
/// always preferred.
pub proof fn lemma_auto_prefers_podman(docker_available: bool)
    ensures
        resolution(RuntimeChoice::Auto, true, docker_available) == Ok::<Runtime, Error>(
            Runtime::Podman,
        ),
{
}

/// With neither binary invocable, automatic selection reports that no
/// runtime was found, and an explicit preference reports that binary as
/// unavailable.
pub proof fn lemma_nothing_available_fails()
    ensures
        resolution(RuntimeChoice::Auto, false, false) == Err::<Runtime, Error>(
            Error::NoRuntimeFound,
        ),
        resolution(RuntimeChoice::Podman, false, false) == Err::<Runtime, Error>(
            Error::RuntimeUnavailable(Runtime::Podman),
        ),
        resolution(RuntimeChoice::Docker, false, false) == Err::<Runtime, Error>(
            Error::RuntimeUnavailable(Runtime::Docker),
        ),
{
}

} // verus!
