//! Status codes and the mapping from errors.

use crate::error::{ErrorView, UdaError};
use vstd::prelude::*;

verus! {

/// Status code returned by every exported function.
pub type UdaStatus = i32;

/// The call succeeded.
pub const UDA_OK: UdaStatus = 0;

/// A caller-supplied argument was null, not UTF-8, or out of range.
pub const UDA_ERR_INVALID_ARGUMENT: UdaStatus = -1;

/// The current platform or session cannot provide the requested feature.
pub const UDA_ERR_NOT_SUPPORTED: UdaStatus = -2;

/// Detecting the environment or OS release failed.
pub const UDA_ERR_DETECTION_FAILED: UdaStatus = -3;

/// An I/O or process-spawn error occurred.
pub const UDA_ERR_IO: UdaStatus = -4;

/// An unexpected internal failure occurred.
pub const UDA_ERR_INTERNAL: UdaStatus = -5;

/// A panic was contained by the boundary.
pub const UDA_ERR_PANIC: UdaStatus = -6;

/// A failure of an exported call.
///
/// A caller that violates the contract of a call is told apart from a backend
/// that fails: only the former is an invalid argument.
#[derive(Debug)]
pub enum Failure {
    /// The caller violated the contract of the call.
    InvalidArgument(String),
    /// A typed error surfaced from a platform backend.
    Uda(UdaError),
}

/// What a [`Failure`] says.
#[verifier::ext_equal]
pub enum FailureView {
    InvalidArgument(Seq<char>),
    Uda(ErrorView),
}

impl View for Failure {
    type V = FailureView;

    open spec fn view(&self) -> FailureView {
        match *self {
            Failure::InvalidArgument(message) => FailureView::InvalidArgument(message@),
            Failure::Uda(error) => FailureView::Uda(error@),
        }
    }
}

/// The status code of an error.
pub open spec fn error_status(error: ErrorView) -> UdaStatus {
    match error {
        ErrorView::NotSupported(_) => UDA_ERR_NOT_SUPPORTED,
        ErrorView::DetectionFailed(_) => UDA_ERR_DETECTION_FAILED,
        ErrorView::CommandFailed(_) => UDA_ERR_INTERNAL,
        ErrorView::Io(_) => UDA_ERR_IO,
        ErrorView::Internal(_) => UDA_ERR_INTERNAL,
    }
}

impl FailureView {
    /// The status code of the failure.
    pub open spec fn code(self) -> UdaStatus {
        match self {
            FailureView::InvalidArgument(_) => UDA_ERR_INVALID_ARGUMENT,
            FailureView::Uda(error) => error_status(error),
        }
    }

    /// The description of the failure.
    pub open spec fn shown(self) -> Seq<char> {
        match self {
            FailureView::InvalidArgument(message) => message,
            FailureView::Uda(error) => error.shown(),
        }
    }
}

impl Failure {
    /// The status code to hand back to the caller.
    pub fn status(&self) -> (status: UdaStatus)
        ensures
            status == self@.code(),
    {
        match self {
            Failure::InvalidArgument(_) => UDA_ERR_INVALID_ARGUMENT,
            Failure::Uda(error) => status_of_uda_error(error),
        }
    }

    /// A human-readable description.
    pub fn message(&self) -> (message: String)
        ensures
            message@ == self@.shown(),
    {
        match self {
            Failure::InvalidArgument(message) => message.clone(),
            Failure::Uda(error) => error.message(),
        }
    }
}

impl From<UdaError> for Failure {
    fn from(error: UdaError) -> (failure: Self) {
        Failure::Uda(error)
    }
}

impl vstd::std_specs::convert::FromSpecImpl<UdaError> for Failure {
    open spec fn obeys_from_spec() -> bool {
        true
    }

    open spec fn from_spec(error: UdaError) -> Self {
        Failure::Uda(error)
    }
}

/// Map a typed error onto its status code.
pub fn status_of_uda_error(error: &UdaError) -> (status: UdaStatus)
    ensures
        status == error_status(error@),
{
    match error {
        UdaError::NotSupported(_) => UDA_ERR_NOT_SUPPORTED,
        UdaError::DetectionFailed(_) => UDA_ERR_DETECTION_FAILED,
        UdaError::CommandFailed(_) => UDA_ERR_INTERNAL,
        UdaError::Io(_) => UDA_ERR_IO,
        UdaError::Internal(_) => UDA_ERR_INTERNAL,
    }
}

/// The description of a status code. Codes it does not know are described as
/// such.
pub open spec fn status_text(status: UdaStatus) -> Seq<char> {
    if status == UDA_OK {
        "success"@
    } else if status == UDA_ERR_INVALID_ARGUMENT {
        "invalid argument"@
    } else if status == UDA_ERR_NOT_SUPPORTED {
        "feature not supported on this platform"@
    } else if status == UDA_ERR_DETECTION_FAILED {
        "environment detection failed"@
    } else if status == UDA_ERR_IO {
        "I/O error"@
    } else if status == UDA_ERR_INTERNAL {
        "internal error"@
    } else if status == UDA_ERR_PANIC {
        "panic contained at the FFI boundary"@
    } else {
        "unrecognized status code"@
    }
}

/// Describe a status code.
pub fn status_message(status: UdaStatus) -> (message: &'static str)
    ensures
        message@ == status_text(status),
{
    if status == UDA_OK {
        "success"
    } else if status == UDA_ERR_INVALID_ARGUMENT {
        "invalid argument"
    } else if status == UDA_ERR_NOT_SUPPORTED {
        "feature not supported on this platform"
    } else if status == UDA_ERR_DETECTION_FAILED {
        "environment detection failed"
    } else if status == UDA_ERR_IO {
        "I/O error"
    } else if status == UDA_ERR_INTERNAL {
        "internal error"
    } else if status == UDA_ERR_PANIC {
        "panic contained at the FFI boundary"
    } else {
        "unrecognized status code"
    }
}

/// A failure is never reported as success nor as a panic, its code is negative,
/// and the code of an invalid argument is reserved for one.
pub proof fn failures_have_negative_codes(failure: FailureView)
    ensures
        failure.code() < 0,
        failure.code() != UDA_OK,
        failure.code() != UDA_ERR_PANIC,
        failure.code() == UDA_ERR_INVALID_ARGUMENT <==> failure is InvalidArgument,
{
}

/// An error always has a description.
pub proof fn errors_are_never_silent(error: ErrorView)
    ensures
        FailureView::Uda(error).shown().len() > 0,
{
    reveal_strlit("Feature not supported: ");
    reveal_strlit("Detection failed: ");
    reveal_strlit("Command failed: ");
    reveal_strlit("IO error: ");
    reveal_strlit("Internal error: ");
}

/// Every kind of failure has its number: -1 for an invalid argument, -2 for what
/// is not supported, -3 for a failed detection, -4 for input and output, and -5
/// for a failed command and for anything else.
pub proof fn failures_are_numbered_by_kind(failure: FailureView)
    ensures
        failure.code() == -1 <==> failure is InvalidArgument,
        failure.code() == -2 <==> failure is Uda && failure->Uda_0 is NotSupported,
        failure.code() == -3 <==> failure is Uda && failure->Uda_0 is DetectionFailed,
        failure.code() == -4 <==> failure is Uda && failure->Uda_0 is Io,
        failure.code() == -5 <==> failure is Uda && (failure->Uda_0 is Internal || failure->Uda_0
            is CommandFailed),
{
}

/// An invalid argument is described in its own words, and an error as it is shown
/// to a person.
pub proof fn failures_are_described_as_they_are(message: Seq<char>, error: ErrorView)
    ensures
        FailureView::InvalidArgument(message).shown() == message,
        FailureView::Uda(error).shown() == error.shown(),
{
}

/// No two of the codes from 0 to -6 are described alike, and every other code is
/// described as unknown.
pub proof fn codes_are_described_differently(a: UdaStatus, b: UdaStatus)
    ensures
        -6 <= a <= 0 && status_text(a) == status_text(b) ==> a == b,
        a < -6 || a > 0 ==> status_text(a) == "unrecognized status code"@,
        a == 0 ==> status_text(a) == "success"@,
        a == -1 ==> status_text(a) == "invalid argument"@,
        a == -2 ==> status_text(a) == "feature not supported on this platform"@,
        a == -3 ==> status_text(a) == "environment detection failed"@,
        a == -4 ==> status_text(a) == "I/O error"@,
        a == -5 ==> status_text(a) == "internal error"@,
        a == -6 ==> status_text(a) == "panic contained at the FFI boundary"@,
{
    reveal_strlit("success");
    reveal_strlit("invalid argument");
    reveal_strlit("feature not supported on this platform");
    reveal_strlit("environment detection failed");
    reveal_strlit("I/O error");
    reveal_strlit("internal error");
    reveal_strlit("panic contained at the FFI boundary");
    reveal_strlit("unrecognized status code");
    assert("success"@.len() == 7);
    assert("invalid argument"@.len() == 16);
    assert("feature not supported on this platform"@.len() == 38);
    assert("environment detection failed"@.len() == 28);
    assert("I/O error"@.len() == 9);
    assert("internal error"@.len() == 14);
    assert("panic contained at the FFI boundary"@.len() == 35);
    assert("unrecognized status code"@.len() == 24);
    assert(-6 <= a <= 0 && status_text(a) == status_text(b) ==> status_text(a).len()
        == status_text(b).len());
}

} // verus!
