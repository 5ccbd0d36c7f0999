use devcon::command::{build, command_outcome, exec, mount_arg, run, stop, stop_outcome, terminal};
use devcon::error::{Error, Step};
use devcon::mount::Mount;
use devcon::resolve::Runtime;

fn mount(host: &str, container: &str) -> Mount {
    Mount {
        host: host.into(),
        container: container.into(),
    }
}

#[test]
fn terminal_default_is_fish() {
    assert_eq!(terminal(false), "fish");
    assert_eq!(terminal(true), "bash");
}

#[test]
fn build_arguments() {
    let inv = build(&Runtime::Docker, &"box".to_string());
    assert_eq!(inv.program, "docker");
    assert_eq!(inv.args, vec!["build", ".", "-t", "box"]);
}

#[test]
fn run_arguments_keep_declaration_order() {
    let volumes = vec![mount("a", "b"), mount("c", "d")];
    let ports = vec![mount("1", "2")];
    let inv = run(&Runtime::Podman, &"box".to_string(), &volumes, &ports);
    assert_eq!(inv.program, "podman");
    assert_eq!(
        inv.args,
        vec![
            "run", "-itd", "--name", "box", "-v", "a:b", "-v", "c:d", "-p", "1:2", "box", "bash"
        ]
    );
}

#[test]
fn run_arguments_without_mounts() {
    let inv = run(&Runtime::Docker, &"box".to_string(), &vec![], &vec![]);
    assert_eq!(inv.args, vec!["run", "-itd", "--name", "box", "box", "bash"]);
}

#[test]
fn exec_arguments_default_fish() {
    let inv = exec(&Runtime::Podman, &"box".to_string(), false);
    assert_eq!(inv.program, "podman");
    assert_eq!(inv.args, vec!["exec", "-it", "box", "fish"]);
}

#[test]
fn exec_arguments_with_bash() {
    let inv = exec(&Runtime::Podman, &"box".to_string(), true);
    assert_eq!(inv.args, vec!["exec", "-it", "box", "bash"]);
}

#[test]
fn stop_plan_holds_both_invocations() {
    let plan = stop(&Runtime::Docker, &"box".to_string());
    assert_eq!(plan.stop.program, "docker");
    assert_eq!(plan.stop.args, vec!["stop", "box", "--time", "1"]);
    assert_eq!(plan.remove.program, "docker");
    assert_eq!(plan.remove.args, vec!["rm", "box"]);
}

#[test]
fn stop_first_failure_is_ignored() {
    assert_eq!(stop_outcome(false, true), Ok(()));
    assert_eq!(stop_outcome(true, true), Ok(()));
}

#[test]
fn stop_remove_failure_is_fatal() {
    assert_eq!(
        stop_outcome(true, false),
        Err(Error::CommandFailed(Step::Remove))
    );
    assert_eq!(
        stop_outcome(false, false),
        Err(Error::CommandFailed(Step::Remove))
    );
}

#[test]
fn single_command_outcomes() {
    assert_eq!(command_outcome(Step::Build, true), Ok(()));
    assert_eq!(
        command_outcome(Step::Build, false),
        Err(Error::CommandFailed(Step::Build))
    );
    assert_eq!(
        command_outcome(Step::Run, false),
        Err(Error::CommandFailed(Step::Run))
    );
    assert_eq!(
        command_outcome(Step::Exec, false),
        Err(Error::CommandFailed(Step::Exec))
    );
}

#[test]
fn mount_arg_round_trips_parsed_text() {
    let m: Mount = "$PWD:/path".parse().unwrap();
    assert_eq!(mount_arg(&m), "$PWD:/path");
}
