//! A typed pull adapter over the automation enumeration protocol
//! (`IEnumVARIANT`).
//!
//! A foreign enumerator hands out loosely typed values, one batch at a time,
//! and can be restarted and cloned. The adapter turns it into a sequence of
//! items of one foreign interface type. It pulls one value at a time, coerces
//! it to an object reference and narrows that to the item type; whatever goes
//! wrong on the way ends the sequence for the caller.
//!
//! The library decides and its driver talks to the foreign enumerator:
//!
//! - [`acquire`] narrows a source object to its enumerator and wraps it as an
//!   [`IEnumIterator`];
//! - [`IEnumIterator::pull`] begins a [`Pull`], which names each protocol call
//!   to make as a [`Request`] and takes its outcome as an [`Answer`];
//! - [`IEnumIterator::reset`] and [`IEnumIterator::duplicate`] say what the
//!   outcomes of the protocol's `Reset` and `Clone` come to.
//!
//! The module [`source`] holds the theorems about whole enumerations.

pub mod adapter;
pub mod foreign;
pub mod pull;
pub mod source;
pub mod status;

pub use adapter::{acquire, CastIterator, IEnumIterator};
pub use pull::{Answer, Pull, Request};
pub use status::ForeignCallError;
