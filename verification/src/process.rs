//! What the library asks of its host, and what the host reports back.

use vstd::prelude::*;

use crate::error::{wrapped, EnvError, ErrorKind, ErrorView};
use crate::text::{captured_text, decode_lossy};

verus! {

/// The texts of a list of strings.
pub open spec fn texts(items: Seq<String>) -> Seq<Seq<char>> {
    items.map_values(|s: String| s@)
}

/// A program to start, with its arguments.
#[derive(Debug)]
pub struct Command {
    /// The program: a command name or a path.
    pub program: String,
    /// Whether `program` is a path to be joined to the host's current
    /// directory before the program starts.
    pub from_current_dir: bool,
    /// The arguments, in order.
    pub args: Vec<String>,
    /// The directory the program runs in; the host's own when absent.
    pub working_dir: Option<String>,
}

/// A [`Command`] as a mathematical value.
pub struct CommandView {
    pub program: Seq<char>,
    pub from_current_dir: bool,
    pub args: Seq<Seq<char>>,
    pub working_dir: Option<Seq<char>>,
}

impl View for Command {
    type V = CommandView;

    open spec fn view(&self) -> CommandView {
        CommandView {
            program: self.program@,
            from_current_dir: self.from_current_dir,
            args: texts(self.args@),
            working_dir: match self.working_dir {
                Some(dir) => Some(dir@),
                None => None,
            },
        }
    }
}

/// What a finished process left behind.
#[derive(Debug)]
pub struct ProcessOutput {
    /// Whether it exited with status zero.
    pub success: bool,
    /// Everything it wrote to its output stream.
    pub stdout: Vec<u8>,
    /// Everything it wrote to its error stream.
    pub stderr: Vec<u8>,
}

/// A [`ProcessOutput`] as a mathematical value.
pub struct OutputView {
    pub success: bool,
    pub stdout: Seq<u8>,
    pub stderr: Seq<u8>,
}

impl View for ProcessOutput {
    type V = OutputView;

    open spec fn view(&self) -> OutputView {
        OutputView { success: self.success, stdout: self.stdout@, stderr: self.stderr@ }
    }
}

/// What the host must do next.
#[derive(Debug)]
pub enum Action {
    /// Look whether the two paths exist; answer with [`Event::Paths`].
    CheckEnvironment { root: String, interpreter: String },
    /// Look whether the file exists; answer with [`Event::File`].
    CheckFile(String),
    /// Run the command to its end, capturing its output; answer with
    /// [`Event::Exited`] or [`Event::SpawnFailed`].
    Spawn(Command),
    /// Nothing: the operation is over and the state holds its result.
    Finish,
}

/// An [`Action`] as a mathematical value.
pub enum ActionView {
    CheckEnvironment { root: Seq<char>, interpreter: Seq<char> },
    CheckFile(Seq<char>),
    Spawn(CommandView),
    Finish,
}

impl View for Action {
    type V = ActionView;

    open spec fn view(&self) -> ActionView {
        match self {
            Action::CheckEnvironment { root, interpreter } => ActionView::CheckEnvironment {
                root: root@,
                interpreter: interpreter@,
            },
            Action::CheckFile(path) => ActionView::CheckFile(path@),
            Action::Spawn(command) => ActionView::Spawn(command@),
            Action::Finish => ActionView::Finish,
        }
    }
}

/// What the host reports.
#[derive(Debug)]
pub enum Event {
    /// Nothing yet: the operation is to begin.
    Begin,
    /// Whether the environment's root and its interpreter exist.
    Paths { root_exists: bool, interpreter_exists: bool },
    /// Whether the file exists.
    File { exists: bool },
    /// The process ran to its end.
    Exited(ProcessOutput),
    /// The process could not be started; the text says why.
    SpawnFailed(String),
}

/// An [`Event`] as a mathematical value.
pub enum EventView {
    Begin,
    Paths { root_exists: bool, interpreter_exists: bool },
    File { exists: bool },
    Exited(OutputView),
    SpawnFailed(Seq<char>),
}

impl View for Event {
    type V = EventView;

    open spec fn view(&self) -> EventView {
        match self {
            Event::Begin => EventView::Begin,
            Event::Paths { root_exists, interpreter_exists } => EventView::Paths {
                root_exists: *root_exists,
                interpreter_exists: *interpreter_exists,
            },
            Event::File { exists } => EventView::File { exists: *exists },
            Event::Exited(output) => EventView::Exited(output@),
            Event::SpawnFailed(why) => EventView::SpawnFailed(why@),
        }
    }
}

/// Whether `event` is the answer that `action` asks for.
pub open spec fn answers(action: ActionView, event: EventView) -> bool {
    match action {
        ActionView::CheckEnvironment { .. } => event is Paths,
        ActionView::CheckFile(_) => event is File,
        ActionView::Spawn(_) => event is Exited || event is SpawnFailed,
        ActionView::Finish => false,
    }
}

/// The failure that a process which could not start stands for.
pub open spec fn spawn_error(stage: Seq<char>, why: Seq<char>) -> ErrorView {
    ErrorView { kind: ErrorKind::Spawn, message: wrapped(stage, why) }
}

/// The failure that a process which exited unsuccessfully stands for: the
/// stage's description, then what the process wrote to its error stream.
pub open spec fn exit_error(stage: Seq<char>, output: OutputView) -> ErrorView {
    ErrorView { kind: ErrorKind::Exit, message: wrapped(stage, captured_text(output.stderr)) }
}

/// Accepts the output of a process that succeeded, and turns that of one that
/// did not into a failure carrying its error stream.
pub fn validate_output(output: ProcessOutput, error_msg: &str) -> (checked: Result<
    ProcessOutput,
    EnvError,
>)
    ensures
        output.success ==> checked == Ok::<ProcessOutput, EnvError>(output),
        !output.success ==> checked is Err && checked->Err_0@ == exit_error(error_msg@, output@),
{
    if !output.success {
        let stderr = decode_lossy(&output.stderr);
        return Err(EnvError::wrap(ErrorKind::Exit, error_msg, stderr.as_str()));
    }
    Ok(output)
}

/// What a report on a process amounts to: its output where it ran and
/// succeeded, a failure where it did not, nothing where the event reports no
/// process at all.
pub open spec fn spec_process_result(
    event: EventView,
    spawn_msg: Seq<char>,
    exit_msg: Seq<char>,
) -> Option<Result<OutputView, ErrorView>> {
    match event {
        EventView::Exited(output) => Some(
            if output.success {
                Ok(output)
            } else {
                Err(exit_error(exit_msg, output))
            },
        ),
        EventView::SpawnFailed(why) => Some(Err(spawn_error(spawn_msg, why))),
        _ => None,
    }
}

/// The mathematical value of what [`process_result`] returns.
pub open spec fn result_view(result: Option<Result<ProcessOutput, EnvError>>) -> Option<
    Result<OutputView, ErrorView>,
> {
    match result {
        Some(Ok(output)) => Some(Ok(output@)),
        Some(Err(e)) => Some(Err(e@)),
        None => None,
    }
}

/// Reads a report on a process: a failed start is wrapped by `spawn_msg`, an
/// unsuccessful exit by `exit_msg`.
pub fn process_result(event: Event, spawn_msg: &str, exit_msg: &str) -> (result: Option<
    Result<ProcessOutput, EnvError>,
>)
    ensures
        result_view(result) == spec_process_result(event@, spawn_msg@, exit_msg@),
{
    match event {
        Event::Exited(output) => Some(validate_output(output, exit_msg)),
        Event::SpawnFailed(why) => Some(
            Err(EnvError::wrap(ErrorKind::Spawn, spawn_msg, why.as_str())),
        ),
        _ => None,
    }
}

} // verus!
