//! The environment's descriptor and the operations on it: the readiness
//! check, setup, and running a script.

use vstd::prelude::*;
use vstd::string::*;
use vstd::utf8::{decode_utf8, valid_utf8};

use crate::config::PythonConfig;
use crate::error::{not_ready_error, wrapped, EnvError, ErrorKind, ErrorView};
use crate::layout::{
    executable_path, executables_prefix, join_executable, scripts_dir, spec_scripts_dir,
    BuildMode, Platform,
};
use crate::process::{
    process_result, spec_process_result, texts, Action, ActionView, Command, CommandView, Event,
    EventView,
};
use crate::text::{decode_strict, utf8_error_text};

verus! {

/// An environment: its root and the paths of the executables inside it.
/// Fixed once built.
#[derive(Debug)]
pub struct PythonEnv {
    venv_path: String,
    python_exe: String,
    pip_exe: String,
    python_alias: String,
    platform: Platform,
}

/// A [`PythonEnv`] as a mathematical value.
pub struct EnvView {
    pub root: Seq<char>,
    pub interpreter: Seq<char>,
    pub installer: Seq<char>,
    pub alias: Seq<char>,
    pub platform: Platform,
}

impl PythonEnv {
    /// Holds of every environment from the moment it is built.
    #[verifier::type_invariant]
    spec fn laid_out(&self) -> bool {
        consistent(self@)
    }
}

impl View for PythonEnv {
    type V = EnvView;

    closed spec fn view(&self) -> EnvView {
        EnvView {
            root: self.venv_path@,
            interpreter: self.python_exe@,
            installer: self.pip_exe@,
            alias: self.python_alias@,
            platform: self.platform,
        }
    }
}

/// The environment at `root` whose interpreter is called `interpreter_name`,
/// laid out as `platform` has it.
pub open spec fn described(root: Seq<char>, interpreter_name: Seq<char>, platform: Platform)
    -> EnvView {
    EnvView {
        root,
        interpreter: executable_path(root, platform, interpreter_name),
        installer: executable_path(root, platform, platform.spec_installer_name()),
        alias: "python"@,
        platform,
    }
}

/// Both executables lie in the one directory that the root and the platform
/// give, and the installer carries the platform's name for it.
pub open spec fn consistent(env: EnvView) -> bool {
    &&& executables_prefix(env.root, env.platform).is_prefix_of(env.interpreter)
    &&& env.installer == executable_path(
        env.root,
        env.platform,
        env.platform.spec_installer_name(),
    )
}

/// The environment is usable exactly when its root and its interpreter exist.
pub open spec fn ready(root_exists: bool, interpreter_exists: bool) -> bool {
    root_exists && interpreter_exists
}

/// A host command that can create an environment.
#[derive(Clone, Copy, Debug, PartialEq, Eq, Structural)]
pub enum Launcher {
    /// The version 3 interpreter, preferred where it can be started.
    Python3,
    /// The generic interpreter, the fallback.
    Python,
}

impl Launcher {
    /// The name by which the host finds the launcher.
    pub open spec fn spec_command(self) -> Seq<char> {
        match self {
            Launcher::Python3 => "python3"@,
            Launcher::Python => "python"@,
        }
    }

    /// The command's name.
    pub fn command(self) -> (name: &'static str)
        ensures
            name@ == self.spec_command(),
    {
        match self {
            Launcher::Python3 => "python3",
            Launcher::Python => "python",
        }
    }
}

/// How far a setup has come. It names the answer that is awaited.
#[derive(Debug)]
pub enum SetupState {
    /// Awaiting whether the environment exists already. A setup starts here.
    AwaitReadiness,
    /// Awaiting whether the preferred launcher can be started.
    AwaitProbe,
    /// Awaiting the creation of the environment by the launcher.
    AwaitCreate(Launcher),
    /// Awaiting whether the requirements file exists.
    AwaitManifest,
    /// Awaiting the installation of the requirements.
    AwaitInstall,
    /// Over: the environment is usable.
    Succeeded,
    /// Over: a step failed. Nothing is rolled back.
    Failed(EnvError),
}

/// A [`SetupState`] as a mathematical value.
pub enum SetupView {
    AwaitReadiness,
    AwaitProbe,
    AwaitCreate(Launcher),
    AwaitManifest,
    AwaitInstall,
    Succeeded,
    Failed(ErrorView),
}

impl View for SetupState {
    type V = SetupView;

    open spec fn view(&self) -> SetupView {
        match self {
            SetupState::AwaitReadiness => SetupView::AwaitReadiness,
            SetupState::AwaitProbe => SetupView::AwaitProbe,
            SetupState::AwaitCreate(launcher) => SetupView::AwaitCreate(*launcher),
            SetupState::AwaitManifest => SetupView::AwaitManifest,
            SetupState::AwaitInstall => SetupView::AwaitInstall,
            SetupState::Succeeded => SetupView::Succeeded,
            SetupState::Failed(e) => SetupView::Failed(e@),
        }
    }
}

/// How far the run of a script has come.
#[derive(Debug)]
pub enum RunState {
    /// Awaiting whether the environment exists. A run starts here.
    AwaitReadiness,
    /// Awaiting the script's process.
    AwaitScript,
    /// Over: the script succeeded and this is what it printed.
    Succeeded(String),
    /// Over: the run failed.
    Failed(EnvError),
}

/// A [`RunState`] as a mathematical value.
pub enum RunView {
    AwaitReadiness,
    AwaitScript,
    Succeeded(Seq<char>),
    Failed(ErrorView),
}

impl View for RunState {
    type V = RunView;

    open spec fn view(&self) -> RunView {
        match self {
            RunState::AwaitReadiness => RunView::AwaitReadiness,
            RunState::AwaitScript => RunView::AwaitScript,
            RunState::Succeeded(output) => RunView::Succeeded(output@),
            RunState::Failed(e) => RunView::Failed(e@),
        }
    }
}

/// The state of a setup after `event`. An event that does not answer what the
/// state awaits changes nothing, and a setup that is over stays as it is.
pub open spec fn setup_next(state: SetupView, event: EventView) -> SetupView {
    match state {
        SetupView::AwaitReadiness => match event {
            EventView::Paths { root_exists, interpreter_exists } => if ready(
                root_exists,
                interpreter_exists,
            ) {
                SetupView::Succeeded
            } else {
                SetupView::AwaitProbe
            },
            _ => state,
        },
        SetupView::AwaitProbe => match event {
            EventView::Exited(_) => SetupView::AwaitCreate(Launcher::Python3),
            EventView::SpawnFailed(_) => SetupView::AwaitCreate(Launcher::Python),
            _ => state,
        },
        SetupView::AwaitCreate(_) => match spec_process_result(
            event,
            "Failed to execute python command"@,
            "Failed to create virtual environment"@,
        ) {
            Some(Ok(_)) => SetupView::AwaitManifest,
            Some(Err(e)) => SetupView::Failed(e),
            None => state,
        },
        SetupView::AwaitManifest => match event {
            EventView::File { exists } => if exists {
                SetupView::AwaitInstall
            } else {
                SetupView::Succeeded
            },
            _ => state,
        },
        SetupView::AwaitInstall => match spec_process_result(
            event,
            "Failed to execute pip install"@,
            "Failed to install requirements"@,
        ) {
            Some(Ok(_)) => SetupView::Succeeded,
            Some(Err(e)) => SetupView::Failed(e),
            None => state,
        },
        SetupView::Succeeded => state,
        SetupView::Failed(_) => state,
    }
}

/// A command that runs in the host's own directory and is found by name or
/// by the path as given.
pub open spec fn plain_command(program: Seq<char>, args: Seq<Seq<char>>) -> CommandView {
    CommandView { program, from_current_dir: false, args, working_dir: None }
}

/// What the host must do for a setup in `state`.
pub open spec fn setup_action(env: EnvView, requirements_file: Seq<char>, state: SetupView)
    -> ActionView {
    match state {
        SetupView::AwaitReadiness => ActionView::CheckEnvironment {
            root: env.root,
            interpreter: env.interpreter,
        },
        SetupView::AwaitProbe => ActionView::Spawn(
            plain_command(Launcher::Python3.spec_command(), seq!["--version"@]),
        ),
        SetupView::AwaitCreate(launcher) => ActionView::Spawn(
            plain_command(launcher.spec_command(), seq!["-m"@, "venv"@, env.root]),
        ),
        SetupView::AwaitManifest => ActionView::CheckFile(requirements_file),
        SetupView::AwaitInstall => ActionView::Spawn(
            plain_command(env.installer, seq!["install"@, "-r"@, requirements_file]),
        ),
        SetupView::Succeeded => ActionView::Finish,
        SetupView::Failed(_) => ActionView::Finish,
    }
}

/// What the captured output of a successful script amounts to: its text
/// where it is UTF-8, a decode failure where it is not.
pub open spec fn script_outcome(stdout: Seq<u8>) -> RunView {
    if valid_utf8(stdout) {
        RunView::Succeeded(decode_utf8(stdout))
    } else {
        RunView::Failed(
            ErrorView {
                kind: ErrorKind::Decode,
                message: wrapped(
                    "Failed to parse script output as UTF-8"@,
                    utf8_error_text(stdout),
                ),
            },
        )
    }
}

/// The state of a run after `event`. An event that does not answer what the
/// state awaits changes nothing, and a run that is over stays as it is.
pub open spec fn run_next(mode: BuildMode, state: RunView, event: EventView) -> RunView {
    match state {
        RunView::AwaitReadiness => match event {
            EventView::Paths { root_exists, interpreter_exists } => if ready(
                root_exists,
                interpreter_exists,
            ) {
                RunView::AwaitScript
            } else {
                RunView::Failed(not_ready_error())
            },
            _ => state,
        },
        RunView::AwaitScript => match spec_process_result(
            event,
            wrapped("Failed to execute Python script from directory"@, spec_scripts_dir(mode)),
            "Python script failed"@,
        ) {
            Some(Ok(output)) => script_outcome(output.stdout),
            Some(Err(e)) => RunView::Failed(e),
            None => state,
        },
        RunView::Succeeded(_) => state,
        RunView::Failed(_) => state,
    }
}

/// What the host must do for a run in `state`: the script is started by the
/// environment's own interpreter, found from the host's current directory,
/// and runs in the scripts directory.
pub open spec fn run_action(
    env: EnvView,
    script_path: Seq<char>,
    args: Seq<Seq<char>>,
    mode: BuildMode,
    state: RunView,
) -> ActionView {
    match state {
        RunView::AwaitReadiness => ActionView::CheckEnvironment {
            root: env.root,
            interpreter: env.interpreter,
        },
        RunView::AwaitScript => ActionView::Spawn(
            CommandView {
                program: env.interpreter,
                from_current_dir: true,
                args: seq![script_path] + args,
                working_dir: Some(spec_scripts_dir(mode)),
            },
        ),
        RunView::Succeeded(_) => ActionView::Finish,
        RunView::Failed(_) => ActionView::Finish,
    }
}

/// The texts of a list of string slices.
pub open spec fn slice_texts(items: Seq<&str>) -> Seq<Seq<char>> {
    items.map_values(|s: &str| s@)
}

/// Turns the decoded output of a script into the final state of its run.
pub fn script_text(decoded: Result<String, String>) -> (state: RunState)
    ensures
        decoded matches Ok(text) ==> state@ == RunView::Succeeded(text@),
        decoded matches Err(why) ==> state@ == RunView::Failed(
            ErrorView {
                kind: ErrorKind::Decode,
                message: wrapped("Failed to parse script output as UTF-8"@, why@),
            },
        ),
{
    match decoded {
        Ok(text) => RunState::Succeeded(text),
        Err(why) => RunState::Failed(
            EnvError::wrap(
                ErrorKind::Decode,
                "Failed to parse script output as UTF-8",
                why.as_str(),
            ),
        ),
    }
}

fn plain(program: &str, args: Vec<String>) -> (command: Command)
    ensures
        command@ == plain_command(program@, texts(args@)),
{
    Command { program: String::from_str(program), from_current_dir: false, args, working_dir: None }
}

impl SetupState {
    /// The state in which every setup starts.
    pub fn new() -> (state: SetupState)
        ensures
            state@ == SetupView::AwaitReadiness,
    {
        SetupState::AwaitReadiness
    }
}

impl RunState {
    /// The state in which every run starts.
    pub fn new() -> (state: RunState)
        ensures
            state@ == RunView::AwaitReadiness,
    {
        RunState::AwaitReadiness
    }
}

impl PythonEnv {
    /// The environment at `./venv` with the interpreter `python`.
    pub fn new(platform: Platform) -> (env: Result<PythonEnv, EnvError>)
        ensures
            env is Ok,
            env->Ok_0@ == described("./venv"@, "python"@, platform),
            consistent(env->Ok_0@),
    {
        let config = PythonConfig::default();
        PythonEnv::new_with_config(&config, platform)
    }

    /// The environment that `config` names. Only composes paths: nothing is
    /// looked up on disk, and it never fails.
    pub fn new_with_config(config: &PythonConfig, platform: Platform) -> (env: Result<
        PythonEnv,
        EnvError,
    >)
        ensures
            env is Ok,
            env->Ok_0@ == described(config.venv_path@, config.python_exe@, platform),
            consistent(env->Ok_0@),
    {
        let python_exe = join_executable(
            config.venv_path.as_str(),
            platform,
            config.python_exe.as_str(),
        );
        let pip_exe = join_executable(
            config.venv_path.as_str(),
            platform,
            platform.installer_name(),
        );
        Ok(
            PythonEnv {
                venv_path: config.venv_path.clone(),
                python_exe,
                pip_exe,
                python_alias: String::from_str("python"),
                platform,
            },
        )
    }

    /// Root directory of the environment.
    pub fn venv_path(&self) -> (path: &str)
        ensures
            path@ == self@.root,
    {
        self.venv_path.as_str()
    }

    /// Path of the environment's interpreter. It lies in the directory of
    /// executables that the root and the platform give.
    pub fn python_exe(&self) -> (path: &str)
        ensures
            path@ == self@.interpreter,
            consistent(self@),
    {
        proof {
            use_type_invariant(self);
        }
        self.python_exe.as_str()
    }

    /// Path of the environment's package installer: the platform's name for
    /// it, in the same directory as the interpreter.
    pub fn pip_exe(&self) -> (path: &str)
        ensures
            path@ == self@.installer,
            consistent(self@),
    {
        proof {
            use_type_invariant(self);
        }
        self.pip_exe.as_str()
    }

    /// The convention the paths were laid out by.
    pub fn platform(&self) -> (platform: Platform)
        ensures
            platform == self@.platform,
    {
        self.platform
    }

    /// Whether the environment is usable, given what the host saw of its
    /// root and of its interpreter. Existence is all that counts.
    pub fn is_setup(&self, root_exists: bool, interpreter_exists: bool) -> (usable: bool)
        ensures
            usable == ready(root_exists, interpreter_exists),
    {
        root_exists && interpreter_exists
    }

    fn readiness_check(&self) -> (action: Action)
        ensures
            action@ == (ActionView::CheckEnvironment {
                root: self@.root,
                interpreter: self@.interpreter,
            }),
    {
        Action::CheckEnvironment {
            root: self.venv_path.clone(),
            interpreter: self.python_exe.clone(),
        }
    }

    fn setup_advance(&self, state: SetupState, event: Event) -> (next: SetupState)
        ensures
            next@ == setup_next(state@, event@),
    {
        match state {
            SetupState::AwaitReadiness => match event {
                Event::Paths { root_exists, interpreter_exists } => {
                    if self.is_setup(root_exists, interpreter_exists) {
                        SetupState::Succeeded
                    } else {
                        SetupState::AwaitProbe
                    }
                },
                _ => SetupState::AwaitReadiness,
            },
            SetupState::AwaitProbe => match event {
                Event::Exited(_) => SetupState::AwaitCreate(Launcher::Python3),
                Event::SpawnFailed(_) => SetupState::AwaitCreate(Launcher::Python),
                _ => SetupState::AwaitProbe,
            },
            SetupState::AwaitCreate(launcher) => match process_result(
                event,
                "Failed to execute python command",
                "Failed to create virtual environment",
            ) {
                Some(Ok(_)) => SetupState::AwaitManifest,
                Some(Err(e)) => SetupState::Failed(e),
                None => SetupState::AwaitCreate(launcher),
            },
            SetupState::AwaitManifest => match event {
                Event::File { exists } => {
                    if exists {
                        SetupState::AwaitInstall
                    } else {
                        SetupState::Succeeded
                    }
                },
                _ => SetupState::AwaitManifest,
            },
            SetupState::AwaitInstall => match process_result(
                event,
                "Failed to execute pip install",
                "Failed to install requirements",
            ) {
                Some(Ok(_)) => SetupState::Succeeded,
                Some(Err(e)) => SetupState::Failed(e),
                None => SetupState::AwaitInstall,
            },
            SetupState::Succeeded => SetupState::Succeeded,
            SetupState::Failed(e) => SetupState::Failed(e),
        }
    }

    fn setup_request(&self, requirements_file: &str, state: &SetupState) -> (action: Action)
        ensures
            action@ == setup_action(self@, requirements_file@, state@),
    {
        match state {
            SetupState::AwaitReadiness => self.readiness_check(),
            SetupState::AwaitProbe => {
                let mut args: Vec<String> = Vec::new();
                args.push(String::from_str("--version"));
                assert(texts(args@) =~= seq!["--version"@]);
                Action::Spawn(plain(Launcher::Python3.command(), args))
            },
            SetupState::AwaitCreate(launcher) => {
                let mut args: Vec<String> = Vec::new();
                args.push(String::from_str("-m"));
                args.push(String::from_str("venv"));
                args.push(self.venv_path.clone());
                assert(texts(args@) =~= seq!["-m"@, "venv"@, self@.root]);
                Action::Spawn(plain(launcher.command(), args))
            },
            SetupState::AwaitManifest => Action::CheckFile(String::from_str(requirements_file)),
            SetupState::AwaitInstall => {
                let mut args: Vec<String> = Vec::new();
                args.push(String::from_str("install"));
                args.push(String::from_str("-r"));
                args.push(String::from_str(requirements_file));
                assert(texts(args@) =~= seq!["install"@, "-r"@, requirements_file@]);
                Action::Spawn(plain(self.pip_exe.as_str(), args))
            },
            SetupState::Succeeded => Action::Finish,
            SetupState::Failed(_) => Action::Finish,
        }
    }

    /// One step of a setup that installs from `requirements.txt`.
    pub fn setup(&self, state: SetupState, event: Event) -> (step: (SetupState, Action))
        ensures
            step.0@ == setup_next(state@, event@),
            step.1@ == setup_action(self@, "requirements.txt"@, step.0@),
    {
        self.setup_with_requirements("requirements.txt", state, event)
    }

    /// One step of a setup: takes what the host reports and gives the state
    /// that follows and what the host must do next.
    ///
    /// An environment that exists already is left alone. Otherwise the
    /// preferred launcher is probed, the environment is created by the
    /// launcher that could be started, and the requirements are installed
    /// where their file exists. The first failure ends the setup.
    pub fn setup_with_requirements(
        &self,
        requirements_file: &str,
        state: SetupState,
        event: Event,
    ) -> (step: (SetupState, Action))
        ensures
            step.0@ == setup_next(state@, event@),
            step.1@ == setup_action(self@, requirements_file@, step.0@),
    {
        let next = self.setup_advance(state, event);
        let action = self.setup_request(requirements_file, &next);
        (next, action)
    }

    fn run_advance(&self, mode: BuildMode, state: RunState, event: Event) -> (next: RunState)
        ensures
            next@ == run_next(mode, state@, event@),
    {
        match state {
            RunState::AwaitReadiness => match event {
                Event::Paths { root_exists, interpreter_exists } => {
                    if self.is_setup(root_exists, interpreter_exists) {
                        RunState::AwaitScript
                    } else {
                        RunState::Failed(EnvError::not_ready())
                    }
                },
                _ => RunState::AwaitReadiness,
            },
            RunState::AwaitScript => {
                let mut spawn_msg = String::from_str(
                    "Failed to execute Python script from directory",
                );
                spawn_msg.append(": ");
                spawn_msg.append(scripts_dir(mode));
                match process_result(event, spawn_msg.as_str(), "Python script failed") {
                    Some(Ok(output)) => script_text(decode_strict(output.stdout)),
                    Some(Err(e)) => RunState::Failed(e),
                    None => RunState::AwaitScript,
                }
            },
            RunState::Succeeded(output) => RunState::Succeeded(output),
            RunState::Failed(e) => RunState::Failed(e),
        }
    }

    fn run_request(&self, script_path: &str, args: &[&str], mode: BuildMode, state: &RunState)
        -> (action: Action)
        ensures
            action@ == run_action(self@, script_path@, slice_texts(args@), mode, state@),
    {
        match state {
            RunState::AwaitReadiness => self.readiness_check(),
            RunState::AwaitScript => {
                let mut list: Vec<String> = Vec::new();
                list.push(String::from_str(script_path));
                let mut i: usize = 0;
                while i < args.len()
                    invariant
                        i <= args.len(),
                        list@.len() == i + 1,
                        list@[0]@ == script_path@,
                        forall|k: int| 1 <= k <= i ==> (#[trigger] list@[k])@ == args@[k - 1]@,
                    decreases args.len() - i,
                {
                    list.push(String::from_str(args[i]));
                    i += 1;
                }
                assert(texts(list@) =~= seq![script_path@] + slice_texts(args@));
                Action::Spawn(
                    Command {
                        program: self.python_exe.clone(),
                        from_current_dir: true,
                        args: list,
                        working_dir: Some(String::from_str(scripts_dir(mode))),
                    },
                )
            },
            RunState::Succeeded(_) => Action::Finish,
            RunState::Failed(_) => Action::Finish,
        }
    }

    /// One step of running a script: takes what the host reports and gives
    /// the state that follows and what the host must do next.
    ///
    /// The script runs only in an environment that exists; one process is
    /// started, never again. What it printed comes back as text where it
    /// succeeded and printed UTF-8.
    pub fn run_script(
        &self,
        script_path: &str,
        args: &[&str],
        mode: BuildMode,
        state: RunState,
        event: Event,
    ) -> (step: (RunState, Action))
        ensures
            step.0@ == run_next(mode, state@, event@),
            step.1@ == run_action(self@, script_path@, slice_texts(args@), mode, step.0@),
    {
        let next = self.run_advance(mode, state, event);
        let action = self.run_request(script_path, args, mode, &next);
        (next, action)
    }
}

} // verus!
