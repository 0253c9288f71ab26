//! The typed adapter and its acquisition.
//!
//! An adapter owns one reference to a foreign enumerator and remembers, in its
//! type alone, which item type it yields. It keeps no other state: where the
//! enumeration stands is the enumerator's own business. The adapter never calls
//! the enumerator itself. Its driver does, and the adapter says what each
//! answer comes to.

use crate::foreign::query;
use crate::pull::Pull;
use crate::status::{supported, surfaced, ForeignCallError};
use std::marker::PhantomData;
use vstd::prelude::*;
use windows::Win32::System::Ole::IEnumVARIANT;

verus! {

/// A pull adapter over a foreign enumerator, yielding items of type `T`.
///
/// It is not `Clone`: a second reference to the same enumerator would share its
/// place in the sequence. A copy that stands on its own comes from
/// [`IEnumIterator::duplicate`].
pub struct IEnumIterator<T> {
    i_enum: IEnumVARIANT,
    phantom: PhantomData<T>,
}

impl<T> IEnumIterator<T> {
    /// The enumerator that the adapter owns.
    pub closed spec fn handle(&self) -> IEnumVARIANT {
        self.i_enum
    }

    /// Wraps an enumerator.
    fn new(i_enum: IEnumVARIANT) -> (adapter: Self)
        ensures
            adapter.handle() == i_enum,
    {
        IEnumIterator { i_enum, phantom: PhantomData }
    }

    /// The enumerator to make the protocol's calls on.
    pub fn enumerator(&self) -> (handle: &IEnumVARIANT)
        ensures
            *handle == self.handle(),
    {
        &self.i_enum
    }

    /// Begins a pull of the next item. Each pull uses up one place of the
    /// sequence, whatever it yields.
    pub fn pull(&mut self) -> (pull: Pull<T>)
        ensures
            pull == Pull::<T>::Fetching,
            *final(self) == *old(self),
    {
        Pull::begin()
    }

    /// Says what the enumerator's answer to a restart comes to. `outcome` is
    /// `Ok`, or the failure status of the protocol's `Reset`, and is surfaced
    /// as it came. A restart is best effort: the enumerator need not bring the
    /// same values again, nor in the same order.
    pub fn reset(&mut self, outcome: Result<(), i32>) -> (r: Result<(), ForeignCallError>)
        ensures
            r == match outcome {
                Ok(_) => Ok::<(), ForeignCallError>(()),
                Err(status) => Err(ForeignCallError::Status(status)),
            },
            *final(self) == *old(self),
    {
        surfaced(outcome)
    }

    /// Wraps the enumerator that the protocol's `Clone` made of this one: a
    /// second adapter for the same item type, with a place of its own in the
    /// sequence. `Clone` fails only for want of memory, and then there is
    /// nothing to go on with: the caller must not come here with a failure.
    pub fn duplicate(&self, cloned: Result<IEnumVARIANT, i32>) -> (copy: Self)
        requires
            cloned is Ok,
        ensures
            Ok::<IEnumVARIANT, i32>(copy.handle()) == cloned,
    {
        IEnumIterator::new(cloned.unwrap())
    }
}

/// Obtains an adapter from any foreign object that offers an enumerator.
///
/// The object is narrowed twice, first to the plain object interface and from
/// there to the enumerator interface. A refusal at either step ends the
/// attempt with `UnsupportedInterface`; nothing is tried twice.
pub fn acquire<S: windows::core::ComInterface, T: windows::core::ComInterface>(source: S) -> (r:
    Result<IEnumIterator<T>, ForeignCallError>)
    ensures
        r matches Err(e) ==> e == ForeignCallError::UnsupportedInterface,
{
    let unknown = match supported(query::<S, windows::core::IUnknown>(&source)) {
        Ok(unknown) => unknown,
        Err(e) => {
            return Err(e);
        },
    };
    match supported(query::<windows::core::IUnknown, IEnumVARIANT>(&unknown)) {
        Ok(i_enum) => Ok(IEnumIterator::new(i_enum)),
        Err(e) => Err(e),
    }
}

/// A foreign interface whose objects offer an enumerator of `Item`.
pub trait CastIterator: Sized {
    /// The type of the items that the enumerator brings.
    type Item;

    /// Obtains the adapter over this object's enumerator.
    fn cast_iter(self) -> (r: Result<IEnumIterator<Self::Item>, ForeignCallError>) where
        Self: windows::core::ComInterface,
        Self::Item: windows::core::ComInterface,

        default_ensures
            r matches Err(e) ==> e == ForeignCallError::UnsupportedInterface,
    {
        acquire(self)
    }
}

} // verus!
