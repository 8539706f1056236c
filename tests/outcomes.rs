use toolkit_util::outcome::{CommandError, IntoResult, OsError, Output, Running, Status};

fn os_error(message: &str) -> OsError {
    OsError { raw_os_error: Some(2), kind: "NotFound".to_string(), message: message.to_string() }
}

#[test]
fn bool_into_result() {
    assert_eq!(true.into_result(), Ok(()));
    assert_eq!(false.into_result(), Err(()));
}

#[test]
fn status_zero_is_success() {
    assert!(matches!(Status { code: Some(0) }.into_result(), Ok(())));
    assert!(Status { code: Some(0) }.success());
}

#[test]
fn status_two_is_nonzero() {
    assert!(matches!(
        Status { code: Some(2) }.into_result(),
        Err(CommandError::NonZeroExitStatus(Some(2)))
    ));
    assert!(!Status { code: Some(2) }.success());
}

#[test]
fn status_signal_has_no_code() {
    assert!(matches!(
        Status { code: None }.into_result(),
        Err(CommandError::NonZeroExitStatus(None))
    ));
}

#[test]
fn spawn_failure_is_unable_to_spawn() {
    let r: Result<Status, OsError> = Err(os_error("not found"));
    match r.into_result() {
        Err(CommandError::UnableToSpawn(e)) => assert_eq!(e.message, "not found"),
        other => panic!("unexpected {:?}", other),
    }
    let ok: Result<Status, OsError> = Ok(Status { code: Some(1) });
    assert!(matches!(ok.into_result(), Err(CommandError::NonZeroExitStatus(Some(1)))));
}

#[test]
fn output_kept_only_on_success() {
    let good: Result<Output, OsError> =
        Ok(Output { status: Status { code: Some(0) }, stdout: vec![1, 2, 3], stderr: vec![] });
    match good.into_result() {
        Ok(o) => assert_eq!(o.stdout, vec![1, 2, 3]),
        other => panic!("unexpected {:?}", other),
    }
    let bad: Result<Output, OsError> =
        Ok(Output { status: Status { code: Some(7) }, stdout: vec![1], stderr: vec![9] });
    assert!(matches!(bad.into_result(), Err(CommandError::NonZeroExitStatus(Some(7)))));
    let failed: Result<Output, OsError> = Err(os_error("denied"));
    assert!(matches!(failed.into_result(), Err(CommandError::UnableToSpawn(_))));
}

#[test]
fn running_handle_passes_through() {
    let started: Result<Running<u32>, OsError> = Ok(Running { handle: 42 });
    match started.into_result() {
        Ok(r) => assert_eq!(r.handle, 42),
        other => panic!("unexpected {:?}", other),
    }
    let failed: Result<Running<u32>, OsError> = Err(os_error("busy"));
    assert!(matches!(failed.into_result(), Err(CommandError::UnableToSpawn(_))));
}

#[test]
fn command_error_from_parts() {
    match CommandError::from(os_error("gone")) {
        CommandError::UnableToSpawn(e) => {
            assert_eq!(e.message, "gone");
            assert_eq!(e.kind, "NotFound");
        }
        other => panic!("unexpected {:?}", other),
    }
    assert!(matches!(CommandError::from(Some(5)), CommandError::NonZeroExitStatus(Some(5))));
    assert!(matches!(CommandError::from(None), CommandError::NonZeroExitStatus(None)));
}
