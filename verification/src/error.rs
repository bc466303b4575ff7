//! The one failure value that every operation reports.

use vstd::prelude::*;
use vstd::string::*;

verus! {

/// What went wrong, by kind.
#[derive(Clone, Copy, Debug, PartialEq, Eq, Structural)]
pub enum ErrorKind {
    /// The operating system could not start the requested program.
    Spawn,
    /// The program ran and reported failure.
    Exit,
    /// A script was to run in an environment that is not set up.
    NotReady,
    /// The script's output is not UTF-8.
    Decode,
}

/// A failure: its kind and a message for people.
#[derive(Debug)]
pub struct EnvError {
    pub kind: ErrorKind,
    pub message: String,
}

/// An [`EnvError`] as a mathematical value.
pub struct ErrorView {
    pub kind: ErrorKind,
    pub message: Seq<char>,
}

impl View for EnvError {
    type V = ErrorView;

    open spec fn view(&self) -> ErrorView {
        ErrorView { kind: self.kind, message: self.message@ }
    }
}

/// A cause wrapped by the stage that met it: `{stage}: {cause}`.
pub open spec fn wrapped(stage: Seq<char>, cause: Seq<char>) -> Seq<char> {
    stage + ": "@ + cause
}

/// The message of the failure to run a script before the environment exists.
pub open spec fn not_ready_message() -> Seq<char> {
    "Python environment not set up. Call setup() first."@
}

/// The failure to run a script before the environment exists.
pub open spec fn not_ready_error() -> ErrorView {
    ErrorView { kind: ErrorKind::NotReady, message: not_ready_message() }
}

impl EnvError {
    /// A failure of `kind` whose message is the cause, prefixed by the stage.
    pub fn wrap(kind: ErrorKind, stage: &str, cause: &str) -> (e: EnvError)
        ensures
            e@ == (ErrorView { kind, message: wrapped(stage@, cause@) }),
    {
        let mut message = String::from_str(stage);
        message.append(": ");
        message.append(cause);
        EnvError { kind, message }
    }

    /// The failure to run a script before the environment exists. Its message
    /// names the call that is missing.
    pub fn not_ready() -> (e: EnvError)
        ensures
            e@ == not_ready_error(),
    {
        EnvError {
            kind: ErrorKind::NotReady,
            message: String::from_str("Python environment not set up. Call setup() first."),
        }
    }

    /// The kind of the failure.
    pub fn kind(&self) -> (kind: ErrorKind)
        ensures
            kind == self@.kind,
    {
        self.kind
    }

    /// The message, as the host prints it.
    pub fn message(&self) -> (text: &str)
        ensures
            text@ == self@.message,
    {
        self.message.as_str()
    }
}

} // verus!
