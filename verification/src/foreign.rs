//! What the library takes on trust from the `windows` crate: the foreign types
//! it carries, and the two calls it makes.

use vstd::prelude::*;

verus! {

/// `windows::Win32::System::Ole::IEnumVARIANT`, a counted reference to a
/// foreign enumerator. Opaque: nothing is known of the object behind it.
#[verifier::external_type_specification]
#[verifier::external_body]
pub struct ExIEnumVARIANT(windows::Win32::System::Ole::IEnumVARIANT);

/// `windows::core::IUnknown`, a counted reference to any foreign object. Opaque.
#[verifier::external_type_specification]
#[verifier::external_body]
pub struct ExIUnknown(windows::core::IUnknown);

/// `windows::Win32::System::Com::IDispatch`, a counted reference to a
/// dispatchable foreign object. Opaque.
#[verifier::external_type_specification]
#[verifier::external_body]
pub struct ExIDispatch(windows::Win32::System::Com::IDispatch);

/// `windows::core::Error`, the status and the description of a failed foreign
/// call. Opaque: the library never looks inside one.
#[verifier::external_type_specification]
#[verifier::external_body]
pub struct ExError(windows::core::Error);

/// `ComInterface::cast`: asks the object behind `source` for its interface `T`
/// through `QueryInterface`. The answer is the object's own, so nothing is
/// claimed of it: either a reference of type `T`, or the error of the refusal.
#[verifier::external_body]
pub(crate) fn query<S: windows::core::ComInterface, T: windows::core::ComInterface>(
    source: &S,
) -> Result<T, windows::core::Error> {
    source.cast::<T>()
}

/// `HRESULT::is_ok`: a status word is a success code exactly when it is not
/// negative.
#[verifier::external_body]
pub(crate) fn is_ok(status: i32) -> (ok: bool)
    ensures
        ok == (status >= 0),
{
    windows::core::HRESULT(status).is_ok()
}

} // verus!
