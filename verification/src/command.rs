//! Translation of lifecycle verbs into runtime argument lists.
//!
//! Each verb becomes one `Invocation` (two for `stop`): the runtime
//! binary to start and the ordered arguments to hand it. Actually
//! spawning the process is the caller's business.

use vstd::prelude::*;

use crate::error::{Error, Step};
use crate::mount::{mount_of, Mount};
use crate::resolve::Runtime;

verus! {

/// One external process invocation: the program to start and its
/// arguments, in order.
pub struct Invocation {
    pub program: String,
    pub args: Vec<String>,
}

/// The two sequential invocations of the stop verb. The first is best
/// effort — its failure is deliberately ignored — while the second is
/// mandatory.
pub struct StopPlan {
    /// `stop <name> --time 1`; a failure here is swallowed (the
    /// container may already be stopped or absent).
    pub stop: Invocation,
    /// `rm <name>`; a failure here is fatal.
    pub remove: Invocation,
}

/// The textual form `host:container` of a mount pair.
pub open spec fn mount_text(m: (Seq<char>, Seq<char>)) -> Seq<char> {
    m.0 + seq![':'] + m.1
}

/// The flag/value arguments contributed by a list of mounts, in
/// declaration order: `flag h:c` for each pair.
pub open spec fn mount_flag_args(flag: Seq<char>, ms: Seq<(Seq<char>, Seq<char>)>) -> Seq<
    Seq<char>,
>
    decreases ms.len(),
{
    if ms.len() == 0 {
        Seq::empty()
    } else {
        mount_flag_args(flag, ms.drop_last()) + seq![flag, mount_text(ms.last())]
    }
}

/// Arguments of the build verb: `build . -t <name>`.
pub open spec fn build_args(name: Seq<char>) -> Seq<Seq<char>> {
    seq!["build"@, "."@, "-t"@, name]
}

/// Arguments of the run verb: `run -itd --name <name>`, the volume
/// flags in declaration order, the port flags in declaration order,
/// then the container name and the fixed `bash` entrypoint.
pub open spec fn run_args(
    name: Seq<char>,
    volumes: Seq<(Seq<char>, Seq<char>)>,
    ports: Seq<(Seq<char>, Seq<char>)>,
) -> Seq<Seq<char>> {
    seq!["run"@, "-itd"@, "--name"@, name] + mount_flag_args("-v"@, volumes) + mount_flag_args(
        "-p"@,
        ports,
    ) + seq![name, "bash"@]
}

/// Arguments of the exec verb: `exec -it <name> <terminal>`.
pub open spec fn exec_args(name: Seq<char>, use_bash: bool) -> Seq<Seq<char>> {
    seq!["exec"@, "-it"@, name, if use_bash {
        "bash"@
    } else {
        "fish"@
    }]
}

/// Arguments of the best-effort stop step: `stop <name> --time 1`.
pub open spec fn stop_args(name: Seq<char>) -> Seq<Seq<char>> {
    seq!["stop"@, name, "--time"@, "1"@]
}

/// Arguments of the mandatory removal step: `rm <name>`.
pub open spec fn remove_args(name: Seq<char>) -> Seq<Seq<char>> {
    seq!["rm"@, name]
}

/// The shell started inside the container: `bash` when asked for,
/// otherwise `fish`.
pub fn terminal(is_bash: bool) -> (r: &'static str)
    ensures
        is_bash ==> r@ == "bash"@,
        !is_bash ==> r@ == "fish"@,
{
    if is_bash {
        "bash"
    } else {
        "fish"
    }
}

/// The executable form of `mount_text`: joins the two sides of a parsed
/// mount back with a colon.
pub fn mount_arg(m: &Mount) -> (r: String)
    ensures
        r@ == mount_text(m@),
{
    proof {
        reveal_strlit(":");
        assert(":"@ =~= seq![':']);
    }
    let mut joined = m.host.clone();
    joined.append(":");
    joined.append(m.container.as_str());
    joined
}

/// Appends `flag h:c` to `args` for each mount, in declaration order.
fn push_mount_flags(args: &mut Vec<String>, flag: &str, mounts: &Vec<Mount>)
    ensures
        final(args).deep_view() == old(args).deep_view() + mount_flag_args(
            flag@,
            mounts.deep_view(),
        ),
{
    let ghost orig = args.deep_view();
    let mut i: usize = 0;
    while i < mounts.len()
        invariant
            i <= mounts.len(),
            args.deep_view() == orig + mount_flag_args(flag@, mounts.deep_view().take(i as int)),
        decreases mounts.len() - i,
    {
        let ghost pre = args.deep_view();
        args.push(flag.to_owned());
        proof {
            assert(args.deep_view() =~= pre.push(flag@));
        }
        let ghost mid = args.deep_view();
        args.push(mount_arg(&mounts[i]));
        proof {
            let mv = mounts.deep_view();
            assert(args.deep_view() =~= mid.push(mount_text(mv[i as int])));
            assert(mv.take(i + 1).drop_last() =~= mv.take(i as int));
            assert(mv.take(i + 1).last() == mv[i as int]);
            assert(mount_flag_args(flag@, mv.take(i + 1)) == mount_flag_args(flag@, mv.take(i as int)) + seq![flag@, mount_text(mv[i as int])]);
            assert(args.deep_view() =~= orig + mount_flag_args(flag@, mv.take(i + 1)));
        }
        i = i + 1;
    }
    proof {
        assert(mounts.deep_view().take(mounts.len() as int) =~= mounts.deep_view());
    }
}

/// The single invocation of the build verb, building an image tagged
/// with the container name from the current directory.
pub fn build(runtime: &Runtime, name: &String) -> (inv: Invocation)
    ensures
        inv.program@ == runtime.spec_name(),
        inv.args.deep_view() == build_args(name@),
{
    let mut args: Vec<String> = Vec::new();
    args.push("build".to_owned());
    args.push(".".to_owned());
    args.push("-t".to_owned());
    args.push(name.clone());
    proof {
        assert(args.deep_view() =~= build_args(name@));
    }
    Invocation { program: runtime.name().to_owned(), args }
}

/// The single invocation of the run verb: a detached interactive
/// container with the given volume and port mounts, in the order they
/// were declared, and `bash` as its fixed entrypoint.
pub fn run(runtime: &Runtime, name: &String, volumes: &Vec<Mount>, ports: &Vec<Mount>) -> (inv:
    Invocation)
    ensures
        inv.program@ == runtime.spec_name(),
        inv.args.deep_view() == run_args(name@, volumes.deep_view(), ports.deep_view()),
{
    let mut args: Vec<String> = Vec::new();
    args.push("run".to_owned());
    args.push("-itd".to_owned());
    args.push("--name".to_owned());
    args.push(name.clone());
    proof {
        assert(args.deep_view() =~= seq!["run"@, "-itd"@, "--name"@, name@]);
    }
    push_mount_flags(&mut args, "-v", volumes);
    push_mount_flags(&mut args, "-p", ports);
    args.push(name.clone());
    args.push("bash".to_owned());
    proof {
        assert(args.deep_view() =~= run_args(name@, volumes.deep_view(), ports.deep_view()));
    }
    Invocation { program: runtime.name().to_owned(), args }
}

/// The single interactive invocation of the exec verb; the terminal is
/// `bash` when the bash flag was set, else the default `fish`.
pub fn exec(runtime: &Runtime, name: &String, use_bash: bool) -> (inv: Invocation)
    ensures
        inv.program@ == runtime.spec_name(),
        inv.args.deep_view() == exec_args(name@, use_bash),
{
    let mut args: Vec<String> = Vec::new();
    args.push("exec".to_owned());
    args.push("-it".to_owned());
    args.push(name.clone());
    args.push(terminal(use_bash).to_owned());
    proof {
        assert(args.deep_view() =~= exec_args(name@, use_bash));
    }
    Invocation { program: runtime.name().to_owned(), args }
}

/// The two invocations of the stop verb. Both are always produced:
/// whatever becomes of the best-effort stop step, the removal step is
/// there to be attempted next.
pub fn stop(runtime: &Runtime, name: &String) -> (plan: StopPlan)
    ensures
        plan.stop.program@ == runtime.spec_name(),
        plan.stop.args.deep_view() == stop_args(name@),
        plan.remove.program@ == runtime.spec_name(),
        plan.remove.args.deep_view() == remove_args(name@),
{
    let mut first: Vec<String> = Vec::new();
    first.push("stop".to_owned());
    first.push(name.clone());
    first.push("--time".to_owned());
    first.push("1".to_owned());
    proof {
        assert(first.deep_view() =~= stop_args(name@));
    }
    let mut second: Vec<String> = Vec::new();
    second.push("rm".to_owned());
    second.push(name.clone());
    proof {
        assert(second.deep_view() =~= remove_args(name@));
    }
    StopPlan {
        stop: Invocation { program: runtime.name().to_owned(), args: first },
        remove: Invocation { program: runtime.name().to_owned(), args: second },
    }
}

/// The outcome of the whole stop verb from the outcomes of its two
/// steps: the best-effort step is ignored, the removal step decides.
pub open spec fn stop_outcome_spec(stop_ok: bool, remove_ok: bool) -> Result<(), Error> {
    if remove_ok {
        Ok(())
    } else {
        Err(Error::CommandFailed(Step::Remove))
    }
}

/// Folds the exit statuses of the two stop steps into the verb's
/// result.
pub fn stop_outcome(stop_ok: bool, remove_ok: bool) -> (r: Result<(), Error>)
    ensures
        r == stop_outcome_spec(stop_ok, remove_ok),
{
    if remove_ok {
        Ok(())
    } else {
        Err(Error::CommandFailed(Step::Remove))
    }
}

/// The stop verb's asymmetry: the best-effort step's outcome never
/// changes the verb's result, while a failed removal is always fatal.
pub proof fn lemma_stop_best_effort(a: bool, b: bool, remove_ok: bool)
    ensures
        stop_outcome_spec(a, remove_ok) == stop_outcome_spec(b, remove_ok),
        stop_outcome_spec(a, false) == Err::<(), Error>(Error::CommandFailed(Step::Remove)),
        stop_outcome_spec(a, true) == Ok::<(), Error>(()),
{
}

/// The outcome of a single-invocation verb (build, run, exec): success
/// exactly when the invocation succeeded, the named step's failure
/// otherwise.
pub fn command_outcome(step: Step, ok: bool) -> (r: Result<(), Error>)
    ensures
        ok ==> r == Ok::<(), Error>(()),
        !ok ==> r == Err::<(), Error>(Error::CommandFailed(step)),
{
    if ok {
        Ok(())
    } else {
        Err(Error::CommandFailed(step))
    }
}

/// A parsed mount contributes to the run arguments exactly the text it
/// was parsed from: splitting at the first colon and joining with a
/// colon round-trip.
pub proof fn lemma_mount_round_trip(s: Seq<char>, m: (Seq<char>, Seq<char>))
    requires
        mount_of(s) == Some(m),
    ensures
        mount_text(m) == s,
{
    let i = choose|i: int| crate::mount::is_first_colon(s, i);
    assert(mount_text(m) =~= s);
}

} // verus!
