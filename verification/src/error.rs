//! Classification of the native kernel's error reports.
//!
//! The native kernel reports failures in two ways: a creation call hands back
//! a null handle, and every other call records a nonzero error value in the
//! device's global error state. The binding polls that state immediately
//! after each fallible call, so an error raised by one call is never
//! misattributed to the next. The functions here turn those raw observations
//! into typed results; the unverified shell that makes the native calls does
//! no classification of its own.

use vstd::prelude::*;

verus! {

/// The error values the native kernel records in a device's error state,
/// decoded from their raw representation by [`decode_error`].
#[derive(Clone, Copy, Debug, PartialEq, Eq, Structural)]
pub enum ErrorCode {
    /// An unknown error occurred, or the raw value was not a known code.
    Unknown,
    /// An argument to a native call was invalid.
    InvalidArgument,
    /// A native call was made in a state that does not allow it.
    InvalidOperation,
    /// The native kernel could not allocate memory.
    OutOfMemory,
    /// The machine does not support the instruction sets the kernel needs.
    UnsupportedCpu,
    /// The operation was cancelled from a progress callback.
    Cancelled,
}

/// The operations after which the device error state is polled. An [`Error`]
/// names the operation it was observed after, so a caller can tell which
/// step of a multi-step construction failed.
#[derive(Clone, Copy, Debug, PartialEq, Eq, Structural)]
pub enum Operation {
    /// Creation of a device (the owning native context).
    CreateDevice,
    /// Creation of a scene bound to a device.
    CreateScene,
    /// Setting a scene's build quality hint.
    SetBuildQuality,
    /// Setting a scene's flags.
    SetFlags,
    /// Attaching a geometry to a scene.
    AttachGeometry,
    /// Committing a scene into its query-ready form.
    CommitScene,
    /// A single-ray intersection query on a committed scene.
    Intersect,
    /// Querying the bounding box of a committed scene.
    QueryBounds,
    /// Creation of a geometry object.
    CreateGeometry,
    /// Allocation of a geometry's vertex buffer.
    CreateBuffer,
    /// Committing a geometry's internal state.
    CommitGeometry,
}

/// A failure of one native operation, carrying the raw error value the
/// device reported at that moment ([`Error::error_code`] decodes it).
#[derive(Clone, Copy, Debug, PartialEq, Eq, Structural)]
pub enum Error {
    /// A creation call returned a null handle. `raw_error` is the value the
    /// device error state held right after; it may be zero when the native
    /// kernel recorded no detail.
    CreationFailure { op: Operation, raw_error: u32 },
    /// A call went through but left a nonzero value in the device error
    /// state. `raw_error` is that value, always nonzero.
    OperationFailure { op: Operation, raw_error: u32 },
}

/// What [`decode_error`] returns: zero is a clear state, the known nonzero
/// values map to their code, and any other value reads as [`ErrorCode::Unknown`].
pub open spec fn decode_error_spec(raw: u32) -> Option<ErrorCode> {
    if raw == 0 {
        None
    } else if raw == 2 {
        Some(ErrorCode::InvalidArgument)
    } else if raw == 3 {
        Some(ErrorCode::InvalidOperation)
    } else if raw == 4 {
        Some(ErrorCode::OutOfMemory)
    } else if raw == 5 {
        Some(ErrorCode::UnsupportedCpu)
    } else if raw == 6 {
        Some(ErrorCode::Cancelled)
    } else {
        Some(ErrorCode::Unknown)
    }
}

/// Decodes a raw device error value. `None` means the error state was clear;
/// any nonzero value is an error, so a clear state can never be mistaken for
/// a failure nor a failure for a clear state.
pub fn decode_error(raw: u32) -> (r: Option<ErrorCode>)
    ensures
        r == decode_error_spec(raw),
        r is None <==> raw == 0,
{
    if raw == 0 {
        None
    } else if raw == 2 {
        Some(ErrorCode::InvalidArgument)
    } else if raw == 3 {
        Some(ErrorCode::InvalidOperation)
    } else if raw == 4 {
        Some(ErrorCode::OutOfMemory)
    } else if raw == 5 {
        Some(ErrorCode::UnsupportedCpu)
    } else if raw == 6 {
        Some(ErrorCode::Cancelled)
    } else {
        Some(ErrorCode::Unknown)
    }
}

/// What [`creation_outcome`] returns: a creation call failed exactly when the
/// handle it returned was null.
pub open spec fn creation_outcome_spec(op: Operation, handle_is_null: bool, raw_error: u32) -> Result<
    (),
    Error,
> {
    if handle_is_null {
        Err(Error::CreationFailure { op, raw_error })
    } else {
        Ok(())
    }
}

/// Classifies a creation call from the two observations the shell makes: was
/// the returned handle null, and what did the device error state hold right
/// after. Succeeds if and only if the handle was not null.
pub fn creation_outcome(op: Operation, handle_is_null: bool, raw_error: u32) -> (r: Result<
    (),
    Error,
>)
    ensures
        r == creation_outcome_spec(op, handle_is_null, raw_error),
        r is Ok <==> !handle_is_null,
{
    if handle_is_null {
        Err(Error::CreationFailure { op, raw_error })
    } else {
        Ok(())
    }
}

/// What [`operation_outcome`] returns: an operation failed exactly when the
/// device error state polled right after it was nonzero.
pub open spec fn operation_outcome_spec(op: Operation, raw_error: u32) -> Result<(), Error> {
    if raw_error == 0 {
        Ok(())
    } else {
        Err(Error::OperationFailure { op, raw_error })
    }
}

/// Classifies a mutating or query call from the device error state polled
/// immediately after it. Succeeds if and only if the state was clear; a
/// failure names the operation it was observed after, so an error from one
/// call is never attributed to another.
pub fn operation_outcome(op: Operation, raw_error: u32) -> (r: Result<(), Error>)
    ensures
        r == operation_outcome_spec(op, raw_error),
        r is Ok <==> raw_error == 0,
{
    if raw_error == 0 {
        Ok(())
    } else {
        Err(Error::OperationFailure { op, raw_error })
    }
}

/// What [`operation_message`] returns for each operation.
pub open spec fn operation_message_spec(op: Operation) -> Seq<char> {
    match op {
        Operation::CreateDevice => "Failed to create device"@,
        Operation::CreateScene => "Could not create scene"@,
        Operation::SetBuildQuality => "Could not set scene build quality"@,
        Operation::SetFlags => "Could not set scene flags"@,
        Operation::AttachGeometry => "Could not attach geometry"@,
        Operation::CommitScene => "Could not commit scene"@,
        Operation::Intersect => "Could not intersect ray"@,
        Operation::QueryBounds => "Could not get bounds"@,
        Operation::CreateGeometry => "Failed to create geometry"@,
        Operation::CreateBuffer => "Failed to create sphere vertex buffer"@,
        Operation::CommitGeometry => "Failed to commit sphere geometry"@,
    }
}

/// The short contextual message naming the operation a failure was observed
/// after, for reporting alongside the raw error value.
pub fn operation_message(op: Operation) -> (r: &'static str)
    ensures
        r@ == operation_message_spec(op),
{
    match op {
        Operation::CreateDevice => "Failed to create device",
        Operation::CreateScene => "Could not create scene",
        Operation::SetBuildQuality => "Could not set scene build quality",
        Operation::SetFlags => "Could not set scene flags",
        Operation::AttachGeometry => "Could not attach geometry",
        Operation::CommitScene => "Could not commit scene",
        Operation::Intersect => "Could not intersect ray",
        Operation::QueryBounds => "Could not get bounds",
        Operation::CreateGeometry => "Failed to create geometry",
        Operation::CreateBuffer => "Failed to create sphere vertex buffer",
        Operation::CommitGeometry => "Failed to commit sphere geometry",
    }
}

impl Error {
    /// The operation this error was observed after.
    pub fn operation(&self) -> (r: Operation)
        ensures
            r == match *self {
                Error::CreationFailure { op, .. } => op,
                Error::OperationFailure { op, .. } => op,
            },
    {
        match *self {
            Error::CreationFailure { op, .. } => op,
            Error::OperationFailure { op, .. } => op,
        }
    }

    /// The raw error value the device reported with this failure.
    pub fn raw_error(&self) -> (r: u32)
        ensures
            r == match *self {
                Error::CreationFailure { raw_error, .. } => raw_error,
                Error::OperationFailure { raw_error, .. } => raw_error,
            },
    {
        match *self {
            Error::CreationFailure { raw_error, .. } => raw_error,
            Error::OperationFailure { raw_error, .. } => raw_error,
        }
    }

    /// The decoded error code, or `None` for a creation failure after which
    /// the device recorded no detail.
    pub fn error_code(&self) -> (r: Option<ErrorCode>)
        ensures
            r == decode_error_spec(
                match *self {
                    Error::CreationFailure { raw_error, .. } => raw_error,
                    Error::OperationFailure { raw_error, .. } => raw_error,
                },
            ),
    {
        let raw = self.raw_error();
        decode_error(raw)
    }
}

} // verus!
