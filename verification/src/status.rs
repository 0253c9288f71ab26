//! Status words of the foreign protocol, and the errors the library surfaces.

use crate::foreign::is_ok;
use vstd::prelude::*;

verus! {

/// The status of a call that did all that was asked.
pub const S_OK: i32 = 0;

/// The success status with which a fetch says that the sequence has ended: it
/// delivered fewer values than were asked for.
pub const S_FALSE: i32 = 1;

/// A status word reports success exactly when it is not negative.
pub open spec fn succeeded(status: i32) -> bool {
    status >= 0
}

/// Whether `status` reports success.
pub fn is_success(status: i32) -> (ok: bool)
    ensures
        ok == succeeded(status),
{
    is_ok(status)
}

/// Why a foreign call is reported to the caller as failed.
#[derive(Clone, Copy, Debug, PartialEq, Eq, Structural)]
pub enum ForeignCallError {
    /// Acquisition: the source object refused one of the two interfaces that
    /// lead to its enumerator.
    UnsupportedInterface,
    /// The protocol answered a call with this failure status.
    Status(i32),
}

/// What acquisition makes of one narrowing step: the narrowed reference where
/// the object granted it, `UnsupportedInterface` where it refused, whatever the
/// refusal said.
pub fn supported<H, E>(narrowing: Result<H, E>) -> (r: Result<H, ForeignCallError>)
    ensures
        r == match narrowing {
            Ok(reference) => Ok::<H, ForeignCallError>(reference),
            Err(_) => Err(ForeignCallError::UnsupportedInterface),
        },
{
    match narrowing {
        Ok(reference) => Ok(reference),
        Err(_) => Err(ForeignCallError::UnsupportedInterface),
    }
}

/// What the library makes of a call that hands back nothing but its outcome:
/// a failure status is surfaced as it came.
pub fn surfaced(outcome: Result<(), i32>) -> (r: Result<(), ForeignCallError>)
    ensures
        r == match outcome {
            Ok(_) => Ok::<(), ForeignCallError>(()),
            Err(status) => Err(ForeignCallError::Status(status)),
        },
{
    match outcome {
        Ok(_) => Ok(()),
        Err(status) => Err(ForeignCallError::Status(status)),
    }
}

} // verus!
