//! The error taxonomy. Failures inside the sandboxed child are carried back
//! over the result pipe as a `ChildError`; failures of the supervisor itself
//! surface as `SupervisorProcessDiedError`. Verdicts (time, memory, wall,
//! signal, exit) are results, never errors.
//!
//! Path and file names inside errors are held as raw bytes, since OS paths
//! need not be valid text.

use vstd::prelude::*;

verus! {

/// A kernel primitive failed, with the errno the call reported.
#[derive(Debug, PartialEq, Eq, Clone)]
pub enum FFIError {
    CloneError { errno: i32 },
    MountError { errno: i32 },
    PivotRootError { errno: i32 },
    UidGidMapError { errno: i32 },
    RedirectError { errno: i32 },
    ExecError { path: Vec<u8>, errno: i32 },
    WaitError { errno: i32 },
    SignalHandlerError { errno: i32 },
}

/// A cgroup filesystem operation failed.
#[derive(Debug, PartialEq, Eq, Clone)]
pub enum CgroupError {
    ControllerUnavailable,
    WriteError { file: Vec<u8> },
    ReadError { file: Vec<u8> },
    LeafBusy,
}

/// A failure observed inside the sandboxed child during setup, serialized
/// back through the result pipe.
#[derive(Debug, PartialEq, Eq, Clone)]
pub enum ChildError {
    FFIError(FFIError),
    CgroupError(CgroupError),
}

/// A failure of the whole invocation as seen by the caller.
#[derive(Debug, PartialEq, Eq, Clone)]
pub enum Error {
    FFIError(FFIError),
    ChildError(ChildError),
    SupervisorProcessDiedError,
    SerializationError,
}

/// The mathematical image of an `FFIError`: byte vectors become sequences.
pub enum FFIErrorV {
    CloneError { errno: i32 },
    MountError { errno: i32 },
    PivotRootError { errno: i32 },
    UidGidMapError { errno: i32 },
    RedirectError { errno: i32 },
    ExecError { path: Seq<u8>, errno: i32 },
    WaitError { errno: i32 },
    SignalHandlerError { errno: i32 },
}

/// The mathematical image of a `CgroupError`.
pub enum CgroupErrorV {
    ControllerUnavailable,
    WriteError { file: Seq<u8> },
    ReadError { file: Seq<u8> },
    LeafBusy,
}

/// The mathematical image of a `ChildError`.
pub enum ChildErrorV {
    FFIError(FFIErrorV),
    CgroupError(CgroupErrorV),
}

/// The mathematical image of an `Error`.
pub enum ErrorV {
    FFIError(FFIErrorV),
    ChildError(ChildErrorV),
    SupervisorProcessDiedError,
    SerializationError,
}

impl View for FFIError {
    type V = FFIErrorV;

    open spec fn view(&self) -> FFIErrorV {
        match self {
            FFIError::CloneError { errno } => FFIErrorV::CloneError { errno: *errno },
            FFIError::MountError { errno } => FFIErrorV::MountError { errno: *errno },
            FFIError::PivotRootError { errno } => FFIErrorV::PivotRootError { errno: *errno },
            FFIError::UidGidMapError { errno } => FFIErrorV::UidGidMapError { errno: *errno },
            FFIError::RedirectError { errno } => FFIErrorV::RedirectError { errno: *errno },
            FFIError::ExecError { path, errno } => FFIErrorV::ExecError {
                path: path@,
                errno: *errno,
            },
            FFIError::WaitError { errno } => FFIErrorV::WaitError { errno: *errno },
            FFIError::SignalHandlerError { errno } => FFIErrorV::SignalHandlerError {
                errno: *errno,
            },
        }
    }
}

impl View for CgroupError {
    type V = CgroupErrorV;

    open spec fn view(&self) -> CgroupErrorV {
        match self {
            CgroupError::ControllerUnavailable => CgroupErrorV::ControllerUnavailable,
            CgroupError::WriteError { file } => CgroupErrorV::WriteError { file: file@ },
            CgroupError::ReadError { file } => CgroupErrorV::ReadError { file: file@ },
            CgroupError::LeafBusy => CgroupErrorV::LeafBusy,
        }
    }
}

impl View for ChildError {
    type V = ChildErrorV;

    open spec fn view(&self) -> ChildErrorV {
        match self {
            ChildError::FFIError(e) => ChildErrorV::FFIError(e@),
            ChildError::CgroupError(e) => ChildErrorV::CgroupError(e@),
        }
    }
}

impl View for Error {
    type V = ErrorV;

    open spec fn view(&self) -> ErrorV {
        match self {
            Error::FFIError(e) => ErrorV::FFIError(e@),
            Error::ChildError(e) => ErrorV::ChildError(e@),
            Error::SupervisorProcessDiedError => ErrorV::SupervisorProcessDiedError,
            Error::SerializationError => ErrorV::SerializationError,
        }
    }
}

} // verus!
