use devcon::error::Error;
use devcon::resolve::{determine_runtime, Runtime, RuntimeChoice};

#[test]
fn auto_prefers_podman_when_both_available() {
    assert_eq!(
        determine_runtime(RuntimeChoice::Auto, true, true),
        Ok(Runtime::Podman)
    );
}

#[test]
fn auto_selects_podman_when_alone() {
    assert_eq!(
        determine_runtime(RuntimeChoice::Auto, true, false),
        Ok(Runtime::Podman)
    );
}

#[test]
fn auto_falls_back_to_docker() {
    assert_eq!(
        determine_runtime(RuntimeChoice::Auto, false, true),
        Ok(Runtime::Docker)
    );
}

#[test]
fn auto_fails_when_nothing_available() {
    assert_eq!(
        determine_runtime(RuntimeChoice::Auto, false, false),
        Err(Error::NoRuntimeFound)
    );
}

#[test]
fn explicit_podman_honoured() {
    assert_eq!(
        determine_runtime(RuntimeChoice::Podman, true, true),
        Ok(Runtime::Podman)
    );
    assert_eq!(
        determine_runtime(RuntimeChoice::Podman, true, false),
        Ok(Runtime::Podman)
    );
}

#[test]
fn explicit_podman_unavailable_fails() {
    assert_eq!(
        determine_runtime(RuntimeChoice::Podman, false, true),
        Err(Error::RuntimeUnavailable(Runtime::Podman))
    );
}

#[test]
fn explicit_docker_honoured() {
    assert_eq!(
        determine_runtime(RuntimeChoice::Docker, false, true),
        Ok(Runtime::Docker)
    );
}

#[test]
fn explicit_docker_unavailable_fails() {
    assert_eq!(
        determine_runtime(RuntimeChoice::Docker, true, false),
        Err(Error::RuntimeUnavailable(Runtime::Docker))
    );
}

#[test]
fn runtime_binary_names() {
    assert_eq!(Runtime::Podman.name(), "podman");
    assert_eq!(Runtime::Docker.name(), "docker");
}

#[test]
fn error_messages_name_the_failure() {
    assert!(Error::RuntimeUnavailable(Runtime::Podman)
        .message()
        .contains("podman"));
    assert!(Error::RuntimeUnavailable(Runtime::Docker)
        .message()
        .contains("docker"));
    assert!(Error::NoRuntimeFound.message().contains("neither"));
    assert!(Error::MalformedMount.message().contains("host:container"));
}
