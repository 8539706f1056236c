use vstd::prelude::*;

verus! {

/// How a finished process ended: its exit code, or `None` when a signal
/// terminated it.
#[derive(Clone, Copy, Debug)]
pub struct Status {
    pub code: Option<i32>,
}

impl Status {
    pub open spec fn spec_success(&self) -> bool {
        self.code == Some(0i32)
    }

    /// Termination was successful: the process exited with code zero.
    pub fn success(&self) -> (r: bool)
        ensures
            r == self.spec_success(),
    {
        match self.code {
            Some(c) => c == 0,
            None => false,
        }
    }
}

/// An operating-system error, as reported when starting a process or
/// writing to its input.
#[derive(Debug)]
pub struct OsError {
    pub raw_os_error: Option<i32>,
    /// The name of the error's kind, such as `NotFound`.
    pub kind: String,
    pub message: String,
}

/// What a process that ran to completion left behind.
#[derive(Debug)]
pub struct Output {
    pub status: Status,
    pub stdout: Vec<u8>,
    pub stderr: Vec<u8>,
}

/// A process that was started and is still running.
#[derive(Debug)]
pub struct Running<H> {
    pub handle: H,
}

#[derive(Debug)]
pub enum CommandError {
    UnableToSpawn(OsError),
    NonZeroExitStatus(Option<i32>),
}

pub type CommandResult<T> = Result<T, CommandError>;

impl From<OsError> for CommandError {
    fn from(e: OsError) -> (r: CommandError)
        ensures
            r == CommandError::UnableToSpawn(e),
    {
        CommandError::UnableToSpawn(e)
    }
}

impl vstd::std_specs::convert::FromSpecImpl<OsError> for CommandError {
    open spec fn obeys_from_spec() -> bool {
        true
    }

    open spec fn from_spec(e: OsError) -> CommandError {
        CommandError::UnableToSpawn(e)
    }
}

impl From<Option<i32>> for CommandError {
    fn from(code: Option<i32>) -> (r: CommandError)
        ensures
            r == CommandError::NonZeroExitStatus(code),
    {
        CommandError::NonZeroExitStatus(code)
    }
}

impl vstd::std_specs::convert::FromSpecImpl<Option<i32>> for CommandError {
    open spec fn obeys_from_spec() -> bool {
        true
    }

    open spec fn from_spec(code: Option<i32>) -> CommandError {
        CommandError::NonZeroExitStatus(code)
    }
}

/// Collapses one shape of process outcome into a `Result`.
pub trait IntoResult<T, E>: Sized {
    spec fn spec_into_result(self) -> Result<T, E>;

    fn into_result(self) -> (r: Result<T, E>)
        ensures
            r == self.spec_into_result(),
    ;
}

impl IntoResult<(), ()> for bool {
    open spec fn spec_into_result(self) -> Result<(), ()> {
        if self {
            Ok(())
        } else {
            Err(())
        }
    }

    fn into_result(self) -> (r: Result<(), ()>) {
        if self {
            Ok(())
        } else {
            Err(())
        }
    }
}

impl IntoResult<(), CommandError> for Status {
    /// Success on exit code zero; otherwise the code, absent after a signal.
    open spec fn spec_into_result(self) -> CommandResult<()> {
        if self.spec_success() {
            Ok(())
        } else {
            Err(CommandError::NonZeroExitStatus(self.code))
        }
    }

    fn into_result(self) -> (r: CommandResult<()>) {
        match self.success().into_result() {
            Ok(()) => Ok(()),
            Err(()) => Err(CommandError::NonZeroExitStatus(self.code)),
        }
    }
}

impl IntoResult<(), CommandError> for Result<Status, OsError> {
    open spec fn spec_into_result(self) -> CommandResult<()> {
        match self {
            Err(e) => Err(CommandError::UnableToSpawn(e)),
            Ok(status) => status.spec_into_result(),
        }
    }

    fn into_result(self) -> (r: CommandResult<()>) {
        match self {
            Err(e) => Err(CommandError::UnableToSpawn(e)),
            Ok(status) => status.into_result(),
        }
    }
}

impl IntoResult<Output, CommandError> for Result<Output, OsError> {
    /// The whole output, but only when the process exited with code zero.
    open spec fn spec_into_result(self) -> CommandResult<Output> {
        match self {
            Err(e) => Err(CommandError::UnableToSpawn(e)),
            Ok(output) => if output.status.spec_success() {
                Ok(output)
            } else {
                Err(CommandError::NonZeroExitStatus(output.status.code))
            },
        }
    }

    fn into_result(self) -> (r: CommandResult<Output>) {
        match self {
            Err(e) => Err(CommandError::UnableToSpawn(e)),
            Ok(output) => match output.status.into_result() {
                Ok(()) => Ok(output),
                Err(e) => Err(e),
            },
        }
    }
}

impl<H> IntoResult<Running<H>, CommandError> for Result<Running<H>, OsError> {
    /// A started process is handed back unchanged.
    open spec fn spec_into_result(self) -> CommandResult<Running<H>> {
        match self {
            Err(e) => Err(CommandError::UnableToSpawn(e)),
            Ok(child) => Ok(child),
        }
    }

    fn into_result(self) -> (r: CommandResult<Running<H>>) {
        match self {
            Err(e) => Err(CommandError::UnableToSpawn(e)),
            Ok(child) => Ok(child),
        }
    }
}

} // verus!
