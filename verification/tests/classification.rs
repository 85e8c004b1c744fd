use embree4_rs::error::{
    creation_outcome, decode_error, operation_message, operation_outcome, Error, ErrorCode,
    Operation,
};

#[test]
fn decode_clear_state_is_none() {
    assert_eq!(decode_error(0), None);
}

#[test]
fn decode_known_codes() {
    assert_eq!(decode_error(1), Some(ErrorCode::Unknown));
    assert_eq!(decode_error(2), Some(ErrorCode::InvalidArgument));
    assert_eq!(decode_error(3), Some(ErrorCode::InvalidOperation));
    assert_eq!(decode_error(4), Some(ErrorCode::OutOfMemory));
    assert_eq!(decode_error(5), Some(ErrorCode::UnsupportedCpu));
    assert_eq!(decode_error(6), Some(ErrorCode::Cancelled));
}

#[test]
fn decode_unrecognized_code_is_still_an_error() {
    assert_eq!(decode_error(99), Some(ErrorCode::Unknown));
    assert_eq!(decode_error(u32::MAX), Some(ErrorCode::Unknown));
}

#[test]
fn creation_with_null_handle_is_creation_failure() {
    let r = creation_outcome(Operation::CreateDevice, true, 2);
    assert_eq!(
        r,
        Err(Error::CreationFailure { op: Operation::CreateDevice, raw_error: 2 })
    );
}

#[test]
fn creation_with_null_handle_and_clear_state_still_fails() {
    let r = creation_outcome(Operation::CreateScene, true, 0);
    assert_eq!(
        r,
        Err(Error::CreationFailure { op: Operation::CreateScene, raw_error: 0 })
    );
    assert_eq!(r.unwrap_err().error_code(), None);
}

#[test]
fn creation_with_live_handle_succeeds() {
    assert_eq!(creation_outcome(Operation::CreateGeometry, false, 0), Ok(()));
}

#[test]
fn operation_with_clear_state_succeeds() {
    assert_eq!(operation_outcome(Operation::CommitScene, 0), Ok(()));
}

#[test]
fn operation_with_error_state_is_operation_failure() {
    let r = operation_outcome(Operation::SetBuildQuality, 2);
    assert_eq!(
        r,
        Err(Error::OperationFailure { op: Operation::SetBuildQuality, raw_error: 2 })
    );
    let e = r.unwrap_err();
    assert_eq!(e.operation(), Operation::SetBuildQuality);
    assert_eq!(e.raw_error(), 2);
    assert_eq!(e.error_code(), Some(ErrorCode::InvalidArgument));
}

#[test]
fn errors_name_the_operation_they_came_from() {
    let first = operation_outcome(Operation::SetFlags, 3).unwrap_err();
    let second = operation_outcome(Operation::AttachGeometry, 3).unwrap_err();
    assert_eq!(first.operation(), Operation::SetFlags);
    assert_eq!(second.operation(), Operation::AttachGeometry);
    assert_ne!(first, second);
}

#[test]
fn messages_name_the_operation() {
    assert_eq!(operation_message(Operation::CreateDevice), "Failed to create device");
    assert_eq!(operation_message(Operation::CommitScene), "Could not commit scene");
    assert_eq!(operation_message(Operation::Intersect), "Could not intersect ray");
    assert_eq!(operation_message(Operation::QueryBounds), "Could not get bounds");
    assert_eq!(
        operation_message(Operation::CreateBuffer),
        "Failed to create sphere vertex buffer"
    );
}
