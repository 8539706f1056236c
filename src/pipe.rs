use vstd::prelude::*;
use crate::outcome::{CommandError, IntoResult, OsError, Output};

verus! {

/// Where a two-process pipe failed.
#[derive(Debug)]
pub enum PipeError {
    /// The first process failed to start or exited unsuccessfully.
    TxCommandError(CommandError),
    /// The second process failed to start.
    RxCommandError(CommandError),
    /// Writing the first process's output into the second's input failed.
    PipeError(OsError),
}

impl From<OsError> for PipeError {
    fn from(e: OsError) -> (r: PipeError)
        ensures
            r == PipeError::PipeError(e),
    {
        PipeError::PipeError(e)
    }
}

impl vstd::std_specs::convert::FromSpecImpl<OsError> for PipeError {
    open spec fn obeys_from_spec() -> bool {
        true
    }

    open spec fn from_spec(e: OsError) -> PipeError {
        PipeError::PipeError(e)
    }
}

/// Progress of a pipe. It starts at `AwaitFirst`: the caller runs the first
/// process to completion and reports its output.
#[derive(Debug)]
pub enum PipeStage {
    AwaitFirst,
    /// The first process succeeded; `pending` is its captured stdout.
    AwaitSpawn { pending: Vec<u8> },
    AwaitWrite,
    Done,
}

/// What the caller observed after carrying out the last action.
#[derive(Debug)]
pub enum PipeEvent {
    FirstFinished(Result<Output, OsError>),
    SecondSpawned(Result<(), OsError>),
    InputWritten(Result<(), OsError>),
}

/// What the caller does next.
#[derive(Debug)]
pub enum PipeAction {
    /// Start the second process with its input open for writing.
    SpawnSecond,
    /// Write these bytes, all of them, into the second process's input.
    WriteInput(Vec<u8>),
    /// Stop with this result; the second process is not awaited.
    Finish(Result<(), PipeError>),
}

/// The event is the one that the stage waits for.
pub open spec fn expects(stage: PipeStage, event: PipeEvent) -> bool {
    match (stage, event) {
        (PipeStage::AwaitFirst, PipeEvent::FirstFinished(_)) => true,
        (PipeStage::AwaitSpawn { .. }, PipeEvent::SecondSpawned(_)) => true,
        (PipeStage::AwaitWrite, PipeEvent::InputWritten(_)) => true,
        _ => false,
    }
}

/// The next stage and action of a pipe; only the pairs that `expects`
/// admits are ever stepped.
pub open spec fn spec_pipe_step(stage: PipeStage, event: PipeEvent) -> (PipeStage, PipeAction) {
    match (stage, event) {
        (PipeStage::AwaitFirst, PipeEvent::FirstFinished(out)) => match out.spec_into_result() {
            Err(e) => (PipeStage::Done, PipeAction::Finish(Err(PipeError::TxCommandError(e)))),
            Ok(o) => (PipeStage::AwaitSpawn { pending: o.stdout }, PipeAction::SpawnSecond),
        },
        (PipeStage::AwaitSpawn { pending }, PipeEvent::SecondSpawned(r)) => match r {
            Err(e) => (
                PipeStage::Done,
                PipeAction::Finish(Err(PipeError::RxCommandError(CommandError::UnableToSpawn(e)))),
            ),
            Ok(()) => (PipeStage::AwaitWrite, PipeAction::WriteInput(pending)),
        },
        (PipeStage::AwaitWrite, PipeEvent::InputWritten(r)) => match r {
            Err(e) => (PipeStage::Done, PipeAction::Finish(Err(PipeError::PipeError(e)))),
            Ok(()) => (PipeStage::Done, PipeAction::Finish(Ok(()))),
        },
        (_, PipeEvent::FirstFinished(_)) => (PipeStage::Done, PipeAction::SpawnSecond),
        (_, PipeEvent::SecondSpawned(_)) => (PipeStage::Done, PipeAction::SpawnSecond),
        (_, PipeEvent::InputWritten(_)) => (PipeStage::Done, PipeAction::SpawnSecond),
    }
}

/// Decides the next step of a pipe from its stage and the event that the
/// stage waits for.
pub fn pipe_step(stage: PipeStage, event: PipeEvent) -> (r: (PipeStage, PipeAction))
    requires
        expects(stage, event),
    ensures
        r == spec_pipe_step(stage, event),
{
    match stage {
        PipeStage::AwaitFirst => match event {
            PipeEvent::FirstFinished(out) => match out.into_result() {
                Err(e) => (PipeStage::Done, PipeAction::Finish(Err(PipeError::TxCommandError(e)))),
                Ok(o) => (PipeStage::AwaitSpawn { pending: o.stdout }, PipeAction::SpawnSecond),
            },
            _ => (PipeStage::Done, PipeAction::SpawnSecond),
        },
        PipeStage::AwaitSpawn { pending } => match event {
            PipeEvent::SecondSpawned(Err(e)) => (
                PipeStage::Done,
                PipeAction::Finish(Err(PipeError::RxCommandError(CommandError::UnableToSpawn(e)))),
            ),
            PipeEvent::SecondSpawned(Ok(())) => (PipeStage::AwaitWrite, PipeAction::WriteInput(pending)),
            _ => (PipeStage::Done, PipeAction::SpawnSecond),
        },
        PipeStage::AwaitWrite => match event {
            PipeEvent::InputWritten(Err(e)) => (PipeStage::Done, PipeAction::Finish(Err(PipeError::PipeError(e)))),
            PipeEvent::InputWritten(Ok(())) => (PipeStage::Done, PipeAction::Finish(Ok(()))),
            _ => (PipeStage::Done, PipeAction::SpawnSecond),
        },
        PipeStage::Done => (PipeStage::Done, PipeAction::SpawnSecond),
    }
}

/// A pipe's three stages fail apart and pass the bytes on whole: when the
/// first process fails, the second is never started and the first stage's
/// error is returned; when the second cannot start, the second stage's
/// error is returned; when both start, exactly the first process's captured
/// stdout is written to the second one's input.
pub proof fn lemma_pipe_stages(out: Result<Output, OsError>, spawned: Result<(), OsError>)
    ensures
        ({
            let (s1, a1) = spec_pipe_step(PipeStage::AwaitFirst, PipeEvent::FirstFinished(out));
            match out.spec_into_result() {
                Err(e) => s1 == PipeStage::Done && a1 == PipeAction::Finish(
                    Err(PipeError::TxCommandError(e)),
                ),
                Ok(o) => {
                    &&& o == out->Ok_0
                    &&& a1 == PipeAction::SpawnSecond
                    &&& expects(s1, PipeEvent::SecondSpawned(spawned))
                    &&& spec_pipe_step(s1, PipeEvent::SecondSpawned(spawned)) == match spawned {
                        Err(e) => (
                            PipeStage::Done,
                            PipeAction::Finish(
                                Err(PipeError::RxCommandError(CommandError::UnableToSpawn(e))),
                            ),
                        ),
                        Ok(()) => (PipeStage::AwaitWrite, PipeAction::WriteInput(o.stdout)),
                    }
                },
            }
        }),
{
}

} // verus!
