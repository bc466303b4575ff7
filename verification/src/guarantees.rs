//! What holds of every setup and of every run, whatever the host reports.

use vstd::prelude::*;
use vstd::utf8::{decode_utf8, valid_utf8};

use crate::error::{not_ready_error, ErrorKind, ErrorView};
use crate::layout::{executable_path, BuildMode, Platform};
use crate::process::{answers, ActionView, EventView, OutputView};
use crate::python_env::{
    consistent, described, ready, run_action, run_next, setup_action, setup_next, EnvView,
    Launcher, RunView, SetupView,
};

verus! {

/// How far a setup has come, as a number that only grows.
pub open spec fn setup_rank(state: SetupView) -> nat {
    match state {
        SetupView::AwaitReadiness => 0,
        SetupView::AwaitProbe => 1,
        SetupView::AwaitCreate(_) => 2,
        SetupView::AwaitManifest => 3,
        SetupView::AwaitInstall => 4,
        SetupView::Succeeded => 5,
        SetupView::Failed(_) => 5,
    }
}

/// Whether the action starts a process.
pub open spec fn spawns(action: ActionView) -> bool {
    action is Spawn
}

/// Whether a setup is over.
pub open spec fn setup_over(state: SetupView) -> bool {
    state is Succeeded || state is Failed
}

/// Whether a run is over.
pub open spec fn run_over(state: RunView) -> bool {
    state is Succeeded || state is Failed
}

/// The state of a setup after a series of events.
pub open spec fn setup_after(state: SetupView, events: Seq<EventView>) -> SetupView
    decreases events.len(),
{
    if events.len() == 0 {
        state
    } else {
        setup_next(setup_after(state, events.drop_last()), events.last())
    }
}

/// The state of a run after a series of events.
pub open spec fn run_after(mode: BuildMode, state: RunView, events: Seq<EventView>) -> RunView
    decreases events.len(),
{
    if events.len() == 0 {
        state
    } else {
        run_next(mode, run_after(mode, state, events.drop_last()), events.last())
    }
}

/// Every environment that is described from a root and an interpreter name
/// has both executables in the one directory the platform gives.
pub proof fn described_is_consistent(
    root: Seq<char>,
    interpreter_name: Seq<char>,
    platform: Platform,
)
    ensures
        consistent(described(root, interpreter_name, platform)),
        described(root, interpreter_name, platform).root == root,
{
}

/// A setup that finds the environment in place succeeds at once and asks for
/// nothing more: no process is started, whatever the requirements file.
pub proof fn setup_of_ready_environment_is_noop(
    env: EnvView,
    requirements_file: Seq<char>,
    root_exists: bool,
    interpreter_exists: bool,
)
    requires
        ready(root_exists, interpreter_exists),
    ensures
        ({
            let next = setup_next(
                SetupView::AwaitReadiness,
                EventView::Paths { root_exists, interpreter_exists },
            );
            next == SetupView::Succeeded && setup_action(env, requirements_file, next)
                == ActionView::Finish
        }),
{
}

/// A setup that is over stays over with the same result, and asks for
/// nothing, whatever is reported to it afterwards.
pub proof fn finished_setup_stays(
    env: EnvView,
    requirements_file: Seq<char>,
    state: SetupView,
    events: Seq<EventView>,
)
    requires
        setup_over(state),
    ensures
        setup_after(state, events) == state,
        setup_action(env, requirements_file, setup_after(state, events)) == ActionView::Finish,
    decreases events.len(),
{
    if events.len() > 0 {
        finished_setup_stays(env, requirements_file, state, events.drop_last());
    }
}

/// Once the host has seen the environment in place, the whole setup, however
/// long the host goes on reporting, ends in success without one process
/// started: each action handed out on the way is the one that ends it.
pub proof fn repeated_setup_starts_nothing(
    env: EnvView,
    requirements_file: Seq<char>,
    events: Seq<EventView>,
)
    requires
        events.len() > 0,
        events[0] == (EventView::Paths { root_exists: true, interpreter_exists: true }),
    ensures
        setup_after(SetupView::AwaitReadiness, events) == SetupView::Succeeded,
        !spawns(
            setup_action(env, requirements_file, setup_after(SetupView::AwaitReadiness, events)),
        ),
    decreases events.len(),
{
    if events.len() == 1 {
        assert(events.drop_last().len() == 0);
    } else {
        assert(events.drop_last()[0] == events[0]);
        repeated_setup_starts_nothing(env, requirements_file, events.drop_last());
    }
}

/// A setup only moves forward: an event either leaves the state as it is or
/// takes it to a later one. So each of its requests is answered at most once,
/// and the environment is created at most once.
pub proof fn setup_only_advances(state: SetupView, event: EventView)
    ensures
        setup_next(state, event) == state || setup_rank(setup_next(state, event)) > setup_rank(
            state,
        ),
{
}

/// An answer to what a setup asks for takes it one step further; anything
/// else leaves it waiting. So a host that answers each request ends every
/// setup within five answers.
pub proof fn answered_setup_advances(
    env: EnvView,
    requirements_file: Seq<char>,
    state: SetupView,
    event: EventView,
)
    ensures
        answers(setup_action(env, requirements_file, state), event) ==> setup_rank(
            setup_next(state, event),
        ) > setup_rank(state),
        !answers(setup_action(env, requirements_file, state), event) ==> setup_next(state, event)
            == state,
        setup_rank(state) <= 5,
        setup_rank(state) == 5 <==> setup_over(state),
{
}

/// The creating process is asked for only after the environment was seen
/// to be missing and the launcher was probed.
pub proof fn creation_follows_probe(state: SetupView, event: EventView)
    requires
        setup_next(state, event) is AwaitCreate,
        !(state is AwaitCreate),
    ensures
        state == SetupView::AwaitProbe,
        event is Exited || event is SpawnFailed,
        event is Exited <==> setup_next(state, event) == SetupView::AwaitCreate(
            Launcher::Python3,
        ),
{
}

/// A script is not run in an environment that is not in place: the run
/// fails with the error that names the missing call, and no process is
/// asked for.
pub proof fn run_needs_ready_environment(
    env: EnvView,
    script_path: Seq<char>,
    args: Seq<Seq<char>>,
    mode: BuildMode,
    root_exists: bool,
    interpreter_exists: bool,
)
    requires
        !ready(root_exists, interpreter_exists),
    ensures
        ({
            let next = run_next(
                mode,
                RunView::AwaitReadiness,
                EventView::Paths { root_exists, interpreter_exists },
            );
            &&& next == RunView::Failed(not_ready_error())
            &&& run_action(env, script_path, args, mode, next) == ActionView::Finish
        }),
{
}

/// Once the host has seen that the environment is not in place, the whole
/// run, however long the host goes on reporting, ends in the not-ready
/// failure and never asks for a process.
pub proof fn run_without_environment_starts_nothing(
    env: EnvView,
    script_path: Seq<char>,
    args: Seq<Seq<char>>,
    mode: BuildMode,
    events: Seq<EventView>,
)
    requires
        events.len() > 0,
        events[0] matches EventView::Paths { root_exists, interpreter_exists } && !ready(
            root_exists,
            interpreter_exists,
        ),
    ensures
        run_after(mode, RunView::AwaitReadiness, events) == RunView::Failed(not_ready_error()),
        !spawns(
            run_action(
                env,
                script_path,
                args,
                mode,
                run_after(mode, RunView::AwaitReadiness, events),
            ),
        ),
    decreases events.len(),
{
    if events.len() == 1 {
        assert(events.drop_last().len() == 0);
    } else {
        assert(events.drop_last()[0] == events[0]);
        run_without_environment_starts_nothing(env, script_path, args, mode, events.drop_last());
    }
}

/// How far a run has come, as a number that only grows.
pub open spec fn run_rank(state: RunView) -> nat {
    match state {
        RunView::AwaitReadiness => 0,
        RunView::AwaitScript => 1,
        RunView::Succeeded(_) => 2,
        RunView::Failed(_) => 2,
    }
}

/// A run only moves forward, and the report on the script's process ends
/// it: one process per run, with no second attempt.
pub proof fn run_only_advances(mode: BuildMode, state: RunView, event: EventView)
    ensures
        run_next(mode, state, event) == state || run_rank(run_next(mode, state, event))
            > run_rank(state),
        state == RunView::AwaitScript && (event is Exited || event is SpawnFailed) ==> run_over(
            run_next(mode, state, event),
        ),
{
}

/// An answer to what a run asks for takes it one step further; anything else
/// leaves it waiting. So a host that answers each request ends every run
/// within two answers.
pub proof fn answered_run_advances(
    env: EnvView,
    script_path: Seq<char>,
    args: Seq<Seq<char>>,
    mode: BuildMode,
    state: RunView,
    event: EventView,
)
    ensures
        answers(run_action(env, script_path, args, mode, state), event) ==> run_rank(
            run_next(mode, state, event),
        ) > run_rank(state),
        !answers(run_action(env, script_path, args, mode, state), event) ==> run_next(
            mode,
            state,
            event,
        ) == state,
        run_rank(state) <= 2,
        run_rank(state) == 2 <==> run_over(state),
{
}

/// A run that is over stays over with the same result, whatever is reported
/// to it afterwards: no second process is ever asked for.
pub proof fn finished_run_stays(
    env: EnvView,
    script_path: Seq<char>,
    args: Seq<Seq<char>>,
    mode: BuildMode,
    state: RunView,
    events: Seq<EventView>,
)
    requires
        run_over(state),
    ensures
        run_after(mode, state, events) == state,
        run_action(env, script_path, args, mode, run_after(mode, state, events))
            == ActionView::Finish,
    decreases events.len(),
{
    if events.len() > 0 {
        finished_run_stays(env, script_path, args, mode, state, events.drop_last());
    }
}

/// Where the requirements file does not exist the setup succeeds, and the
/// installer is not started.
pub proof fn missing_requirements_are_skipped(env: EnvView, requirements_file: Seq<char>)
    ensures
        ({
            let next = setup_next(SetupView::AwaitManifest, EventView::File { exists: false });
            next == SetupView::Succeeded && setup_action(env, requirements_file, next)
                == ActionView::Finish
        }),
{
}

/// Where the requirements file exists the environment's own installer is
/// run on it, and the setup succeeds only if the installer does.
pub proof fn present_requirements_are_installed(
    env: EnvView,
    requirements_file: Seq<char>,
    output: OutputView,
)
    requires
        consistent(env),
    ensures
        ({
            let next = setup_next(SetupView::AwaitManifest, EventView::File { exists: true });
            &&& next == SetupView::AwaitInstall
            &&& setup_action(env, requirements_file, next) matches ActionView::Spawn(command)
            &&& command.program == executable_path(
                env.root,
                env.platform,
                env.platform.spec_installer_name(),
            )
            &&& command.args == seq!["install"@, "-r"@, requirements_file]
            &&& (setup_next(next, EventView::Exited(output)) == SetupView::Succeeded
                <==> output.success)
        }),
{
}

/// A creating process that exits unsuccessfully fails the setup, and what
/// it wrote to its error stream, where that is UTF-8, ends the message.
pub proof fn failed_creation_reports_stderr(launcher: Launcher, output: OutputView)
    requires
        !output.success,
        valid_utf8(output.stderr),
    ensures
        setup_next(SetupView::AwaitCreate(launcher), EventView::Exited(output))
            == SetupView::Failed(
            ErrorView {
                kind: ErrorKind::Exit,
                message: "Failed to create virtual environment"@ + ": "@ + decode_utf8(
                    output.stderr,
                ),
            },
        ),
{
}

/// A script that succeeds and prints UTF-8 has its run end with exactly the
/// text it printed.
pub proof fn script_output_comes_back(mode: BuildMode, output: OutputView)
    requires
        output.success,
        valid_utf8(output.stdout),
    ensures
        run_next(mode, RunView::AwaitScript, EventView::Exited(output)) == RunView::Succeeded(
            decode_utf8(output.stdout),
        ),
{
}

/// A script that succeeds and prints bytes that are not UTF-8 has its run
/// end in a decode failure, never in a text.
pub proof fn undecodable_output_fails(mode: BuildMode, output: OutputView)
    requires
        output.success,
        !valid_utf8(output.stdout),
    ensures
        ({
            let next = run_next(mode, RunView::AwaitScript, EventView::Exited(output));
            next matches RunView::Failed(e) && e.kind == ErrorKind::Decode
        }),
{
}

/// A script whose process fails, by not starting or by its exit, has its
/// run end in that failure whatever it printed.
pub proof fn failed_script_fails_run(mode: BuildMode, event: EventView)
    requires
        event is SpawnFailed || (event matches EventView::Exited(output) && !output.success),
    ensures
        ({
            let next = run_next(mode, RunView::AwaitScript, event);
            &&& next is Failed
            &&& event is SpawnFailed ==> next->Failed_0.kind == ErrorKind::Spawn
            &&& event is Exited ==> next->Failed_0.kind == ErrorKind::Exit
        }),
{
}

} // verus!
