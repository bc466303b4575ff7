use python_env::error::{EnvError, ErrorKind};
use python_env::layout::Platform;
use python_env::process::{
    process_result, validate_output, Action, Command, Event, ProcessOutput,
};
use python_env::python_env::{Launcher, PythonEnv, SetupState};

fn posix() -> PythonEnv {
    PythonEnv::new(Platform::Posix).unwrap()
}

fn exited(success: bool, stdout: &[u8], stderr: &[u8]) -> Event {
    Event::Exited(ProcessOutput { success, stdout: stdout.to_vec(), stderr: stderr.to_vec() })
}

fn missing() -> Event {
    Event::Paths { root_exists: false, interpreter_exists: false }
}

fn spawned(action: Action) -> Command {
    match action {
        Action::Spawn(command) => command,
        other => panic!("expected a process, got {:?}", other),
    }
}

fn failure(state: SetupState) -> EnvError {
    match state {
        SetupState::Failed(e) => e,
        other => panic!("expected a failure, got {:?}", other),
    }
}

#[test]
fn setup_begins_by_checking_the_environment() {
    let env = posix();
    let (state, action) = env.setup(SetupState::new(), Event::Begin);
    assert!(matches!(state, SetupState::AwaitReadiness));
    match action {
        Action::CheckEnvironment { root, interpreter } => {
            assert_eq!(root, "./venv");
            assert_eq!(interpreter, "./venv/bin/python");
        }
        other => panic!("unexpected {:?}", other),
    }
}

#[test]
fn setup_of_existing_environment_does_nothing() {
    let env = posix();
    let (state, action) = env.setup(
        SetupState::AwaitReadiness,
        Event::Paths { root_exists: true, interpreter_exists: true },
    );
    assert!(matches!(state, SetupState::Succeeded));
    assert!(matches!(action, Action::Finish));
}

#[test]
fn second_setup_after_success_starts_no_process() {
    let env = posix();
    let mut spawns = 0;
    // first setup: nothing exists yet, no requirements file
    let mut state = SetupState::new();
    let mut event = Event::Begin;
    loop {
        let (next, action) = env.setup(state, event);
        state = next;
        event = match action {
            Action::CheckEnvironment { .. } => missing(),
            Action::CheckFile(_) => Event::File { exists: false },
            Action::Spawn(_) => {
                spawns += 1;
                exited(true, b"", b"")
            }
            Action::Finish => break,
        };
    }
    assert!(matches!(state, SetupState::Succeeded));
    assert_eq!(spawns, 2);
    // second setup: the environment is there now
    let mut state = SetupState::new();
    let mut event = Event::Begin;
    loop {
        let (next, action) = env.setup(state, event);
        state = next;
        event = match action {
            Action::CheckEnvironment { .. } => {
                Event::Paths { root_exists: true, interpreter_exists: true }
            }
            Action::CheckFile(_) => Event::File { exists: false },
            Action::Spawn(_) => {
                spawns += 1;
                exited(true, b"", b"")
            }
            Action::Finish => break,
        };
    }
    assert!(matches!(state, SetupState::Succeeded));
    assert_eq!(spawns, 2);
}

#[test]
fn half_present_environment_is_created_anew() {
    let env = posix();
    let (state, action) = env.setup(
        SetupState::AwaitReadiness,
        Event::Paths { root_exists: true, interpreter_exists: false },
    );
    assert!(matches!(state, SetupState::AwaitProbe));
    let probe = spawned(action);
    assert_eq!(probe.program, "python3");
    assert_eq!(probe.args, vec!["--version".to_string()]);
    assert!(!probe.from_current_dir);
    assert_eq!(probe.working_dir, None);
}

#[test]
fn probe_that_starts_selects_python3() {
    let env = PythonEnv::new(Platform::Windows).unwrap();
    // even an unsuccessful exit shows that the launcher can be started
    let (state, action) = env.setup(SetupState::AwaitProbe, exited(false, b"", b"no"));
    assert!(matches!(state, SetupState::AwaitCreate(Launcher::Python3)));
    let create = spawned(action);
    assert_eq!(create.program, "python3");
    assert_eq!(create.args, vec!["-m".to_string(), "venv".to_string(), "./venv".to_string()]);
    assert!(!create.from_current_dir);
    assert_eq!(create.working_dir, None);
}

#[test]
fn probe_that_cannot_start_falls_back_to_python() {
    let env = posix();
    let (state, action) =
        env.setup(SetupState::AwaitProbe, Event::SpawnFailed("not found".to_string()));
    assert!(matches!(state, SetupState::AwaitCreate(Launcher::Python)));
    let create = spawned(action);
    assert_eq!(create.program, "python");
    assert_eq!(create.args, vec!["-m".to_string(), "venv".to_string(), "./venv".to_string()]);
}

#[test]
fn created_environment_asks_for_the_requirements_file() {
    let env = posix();
    let (state, action) = env.setup_with_requirements(
        "deps/list.txt",
        SetupState::AwaitCreate(Launcher::Python3),
        exited(true, b"", b"warning"),
    );
    assert!(matches!(state, SetupState::AwaitManifest));
    match action {
        Action::CheckFile(path) => assert_eq!(path, "deps/list.txt"),
        other => panic!("unexpected {:?}", other),
    }
    let (state, action) = env.setup(SetupState::AwaitCreate(Launcher::Python), exited(true, b"", b""));
    assert!(matches!(state, SetupState::AwaitManifest));
    match action {
        Action::CheckFile(path) => assert_eq!(path, "requirements.txt"),
        other => panic!("unexpected {:?}", other),
    }
}

#[test]
fn missing_requirements_file_is_no_error() {
    let env = posix();
    let (state, action) = env.setup_with_requirements(
        "absent.txt",
        SetupState::AwaitManifest,
        Event::File { exists: false },
    );
    assert!(matches!(state, SetupState::Succeeded));
    assert!(matches!(action, Action::Finish));
}

#[test]
fn present_requirements_file_is_installed() {
    let env = posix();
    let (state, action) = env.setup_with_requirements(
        "deps.txt",
        SetupState::AwaitManifest,
        Event::File { exists: true },
    );
    assert!(matches!(state, SetupState::AwaitInstall));
    let install = spawned(action);
    assert_eq!(install.program, "./venv/bin/pip");
    assert_eq!(install.args, vec!["install".to_string(), "-r".to_string(), "deps.txt".to_string()]);
    assert!(!install.from_current_dir);
    assert_eq!(install.working_dir, None);
    let (state, action) =
        env.setup_with_requirements("deps.txt", state, exited(true, b"done", b""));
    assert!(matches!(state, SetupState::Succeeded));
    assert!(matches!(action, Action::Finish));
}

#[test]
fn windows_installer_is_pip_exe() {
    let env = PythonEnv::new(Platform::Windows).unwrap();
    let (_, action) = env.setup(SetupState::AwaitManifest, Event::File { exists: true });
    assert_eq!(spawned(action).program, "./venv/Scripts/pip.exe");
}

#[test]
fn failed_creation_reports_stderr() {
    let env = posix();
    let (state, action) =
        env.setup(SetupState::AwaitCreate(Launcher::Python3), exited(false, b"", b"boom"));
    assert!(matches!(action, Action::Finish));
    let e = failure(state);
    assert_eq!(e.kind(), ErrorKind::Exit);
    assert_eq!(e.message(), "Failed to create virtual environment: boom");
    assert!(e.message().contains("boom"));
}

#[test]
fn creation_that_cannot_start_reports_the_cause() {
    let env = posix();
    let (state, action) = env.setup(
        SetupState::AwaitCreate(Launcher::Python),
        Event::SpawnFailed("No such file or directory (os error 2)".to_string()),
    );
    assert!(matches!(action, Action::Finish));
    let e = failure(state);
    assert_eq!(e.kind(), ErrorKind::Spawn);
    assert_eq!(
        e.message(),
        "Failed to execute python command: No such file or directory (os error 2)"
    );
}

#[test]
fn failed_install_reports_stderr() {
    let env = posix();
    let (state, _) = env.setup(SetupState::AwaitInstall, exited(false, b"out", b"no such package"));
    let e = failure(state);
    assert_eq!(e.kind(), ErrorKind::Exit);
    assert_eq!(e.message(), "Failed to install requirements: no such package");
    let (state, _) =
        env.setup(SetupState::AwaitInstall, Event::SpawnFailed("denied".to_string()));
    let e = failure(state);
    assert_eq!(e.kind(), ErrorKind::Spawn);
    assert_eq!(e.message(), "Failed to execute pip install: denied");
}

#[test]
fn undecodable_stderr_is_reported_lossily() {
    let env = posix();
    let (state, _) = env.setup(
        SetupState::AwaitCreate(Launcher::Python3),
        exited(false, b"", &[b'b', 0xff, b'm']),
    );
    assert_eq!(failure(state).message(), "Failed to create virtual environment: b\u{FFFD}m");
}

#[test]
fn non_ascii_stderr_is_decoded() {
    let env = posix();
    let (state, _) = env.setup(
        SetupState::AwaitInstall,
        exited(false, b"", "d\u{e9}pendance \u{2713}".as_bytes()),
    );
    assert_eq!(
        failure(state).message(),
        "Failed to install requirements: d\u{e9}pendance \u{2713}"
    );
}

#[test]
fn unrelated_events_change_nothing() {
    let env = posix();
    let (state, action) = env.setup(SetupState::AwaitProbe, Event::File { exists: true });
    assert!(matches!(state, SetupState::AwaitProbe));
    assert_eq!(spawned(action).program, "python3");
    let (state, action) = env.setup(SetupState::AwaitManifest, exited(true, b"", b""));
    assert!(matches!(state, SetupState::AwaitManifest));
    assert!(matches!(action, Action::CheckFile(_)));
    let (state, action) = env.setup(SetupState::AwaitCreate(Launcher::Python), Event::Begin);
    assert!(matches!(state, SetupState::AwaitCreate(Launcher::Python)));
    assert_eq!(spawned(action).program, "python");
    let (state, _) = env.setup(SetupState::AwaitInstall, missing());
    assert!(matches!(state, SetupState::AwaitInstall));
}

#[test]
fn finished_setup_stays_finished() {
    let env = posix();
    let (state, action) = env.setup(SetupState::Succeeded, missing());
    assert!(matches!(state, SetupState::Succeeded));
    assert!(matches!(action, Action::Finish));
    let failed = SetupState::Failed(EnvError::wrap(ErrorKind::Exit, "stage", "cause"));
    let (state, action) = env.setup(failed, exited(true, b"", b""));
    assert!(matches!(action, Action::Finish));
    assert_eq!(failure(state).message(), "stage: cause");
}

#[test]
fn successful_output_passes_validation() {
    let output = ProcessOutput { success: true, stdout: b"a".to_vec(), stderr: b"b".to_vec() };
    let checked = validate_output(output, "stage").unwrap();
    assert!(checked.success);
    assert_eq!(checked.stdout, b"a".to_vec());
    assert_eq!(checked.stderr, b"b".to_vec());
}

#[test]
fn unsuccessful_output_fails_validation() {
    let output = ProcessOutput { success: false, stdout: b"a".to_vec(), stderr: b"b".to_vec() };
    let e = validate_output(output, "stage").unwrap_err();
    assert_eq!(e.kind(), ErrorKind::Exit);
    assert_eq!(e.message(), "stage: b");
}

#[test]
fn only_process_events_have_a_process_result() {
    assert!(process_result(Event::Begin, "s", "x").is_none());
    assert!(process_result(Event::File { exists: true }, "s", "x").is_none());
    assert!(process_result(missing(), "s", "x").is_none());
    let ok = process_result(exited(true, b"o", b""), "s", "x").unwrap().unwrap();
    assert_eq!(ok.stdout, b"o".to_vec());
    let e = process_result(exited(false, b"o", b"bad"), "s", "x").unwrap().unwrap_err();
    assert_eq!(e.message(), "x: bad");
    let e = process_result(Event::SpawnFailed("gone".to_string()), "s", "x").unwrap().unwrap_err();
    assert_eq!(e.kind(), ErrorKind::Spawn);
    assert_eq!(e.message(), "s: gone");
}

#[test]
fn launcher_commands() {
    assert_eq!(Launcher::Python3.command(), "python3");
    assert_eq!(Launcher::Python.command(), "python");
}
