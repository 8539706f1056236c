use toolkit_util::outcome::{CommandError, OsError, Output, Status};
use toolkit_util::pipe::{pipe_step, PipeAction, PipeError, PipeEvent, PipeStage};

fn output(code: Option<i32>, stdout: &[u8]) -> Result<Output, OsError> {
    Ok(Output { status: Status { code }, stdout: stdout.to_vec(), stderr: vec![] })
}

fn os_error(message: &str) -> OsError {
    OsError { raw_os_error: None, kind: "Other".to_string(), message: message.to_string() }
}

#[test]
fn first_nonzero_stops_before_second() {
    let (stage, action) = pipe_step(PipeStage::AwaitFirst, PipeEvent::FirstFinished(output(Some(3), b"x")));
    assert!(matches!(stage, PipeStage::Done));
    assert!(matches!(
        action,
        PipeAction::Finish(Err(PipeError::TxCommandError(CommandError::NonZeroExitStatus(Some(3)))))
    ));
}

#[test]
fn first_spawn_failure_is_first_stage_error() {
    let (stage, action) =
        pipe_step(PipeStage::AwaitFirst, PipeEvent::FirstFinished(Err(os_error("missing"))));
    assert!(matches!(stage, PipeStage::Done));
    assert!(matches!(
        action,
        PipeAction::Finish(Err(PipeError::TxCommandError(CommandError::UnableToSpawn(_))))
    ));
}

#[test]
fn second_spawn_failure_is_second_stage_error() {
    let (stage, action) =
        pipe_step(PipeStage::AwaitFirst, PipeEvent::FirstFinished(output(Some(0), b"data")));
    assert!(matches!(action, PipeAction::SpawnSecond));
    let (stage, action) = pipe_step(stage, PipeEvent::SecondSpawned(Err(os_error("no such file"))));
    assert!(matches!(stage, PipeStage::Done));
    match action {
        PipeAction::Finish(Err(PipeError::RxCommandError(CommandError::UnableToSpawn(e)))) => {
            assert_eq!(e.message, "no such file")
        }
        other => panic!("unexpected {:?}", other),
    }
}

#[test]
fn all_bytes_are_written_to_second() {
    let bytes: Vec<u8> = (0..=255u8).chain(0..=255u8).collect();
    let (stage, _) = pipe_step(PipeStage::AwaitFirst, PipeEvent::FirstFinished(output(Some(0), &bytes)));
    let (stage, action) = pipe_step(stage, PipeEvent::SecondSpawned(Ok(())));
    match action {
        PipeAction::WriteInput(input) => assert_eq!(input, bytes),
        other => panic!("unexpected {:?}", other),
    }
    let (stage, action) = pipe_step(stage, PipeEvent::InputWritten(Ok(())));
    assert!(matches!(stage, PipeStage::Done));
    assert!(matches!(action, PipeAction::Finish(Ok(()))));
}

#[test]
fn write_failure_is_transfer_error() {
    let (stage, _) = pipe_step(PipeStage::AwaitFirst, PipeEvent::FirstFinished(output(Some(0), b"")));
    let (stage, action) = pipe_step(stage, PipeEvent::SecondSpawned(Ok(())));
    assert!(matches!(action, PipeAction::WriteInput(ref v) if v.is_empty()));
    let (_, action) = pipe_step(stage, PipeEvent::InputWritten(Err(os_error("broken pipe"))));
    assert!(matches!(action, PipeAction::Finish(Err(PipeError::PipeError(_)))));
}

#[test]
fn pipe_error_from_os_error() {
    match PipeError::from(os_error("closed")) {
        PipeError::PipeError(e) => assert_eq!(e.message, "closed"),
        other => panic!("unexpected {:?}", other),
    }
}
