//! One pull of the adapter, as a state machine.
//!
//! A pull asks the foreign protocol up to three questions in turn: fetch one
//! value, coerce it to an object reference, narrow that reference to the item
//! type. The machine says which question comes next and takes the answer. Any
//! answer that is not a plain success ends the pull without an item: a failed
//! fetch, the end of the sequence, a value that is no object, a reference to
//! nothing and an object of another type all look the same to the caller.

use crate::foreign::query;
use crate::status::{is_success, succeeded, S_FALSE};
use vstd::prelude::*;

verus! {

/// How many values a pull asks the enumerator for. The protocol can fetch in
/// batches; a pull never does.
pub const FETCH_COUNT: u32 = 1;

/// The kind of value that a pull has the fetched value coerced to: a reference
/// to a dispatchable object.
pub const VT_DISPATCH: u16 = 9;

/// The flags that a pull has the coercion run with: none.
pub const COERCION_FLAGS: u16 = 0;

/// The call that a pull waits for its driver to make.
#[derive(Clone, Copy, Debug, PartialEq, Eq, Structural)]
pub enum Request {
    /// Fetch the next `count` values from the enumerator.
    Fetch { count: u32 },
    /// Coerce the fetched value, in place, to the kind `kind` under `flags`.
    Coerce { kind: u16, flags: u16 },
    /// Narrow the object reference that the coerced value holds to the item
    /// type.
    Narrow,
}

/// The foreign protocol's answer to one request.
#[derive(Debug, PartialEq, Eq)]
pub enum Answer<T> {
    /// The status with which the enumerator answered a fetch.
    Fetched { status: i32 },
    /// The outcome of the coercion: `Ok` where the value is an object
    /// reference now, the failure status where it cannot be read as one.
    Coerced(Result<(), i32>),
    /// The item, where the reference narrows to the item type; `None` where
    /// it refers to nothing or its object refused.
    Narrowed(Option<T>),
}

/// Where a pull stands.
#[derive(Debug, PartialEq, Eq)]
pub enum Pull<T> {
    /// The fetch has not been answered yet.
    Fetching,
    /// A value was delivered; its coercion has not been answered yet.
    Coercing,
    /// The value is an object reference; its narrowing has not been answered
    /// yet.
    Narrowing,
    /// The pull is over and yields this.
    Done(Option<T>),
}

/// A fetch delivered a value exactly when its status reports success and is not
/// the status that marks the end of the sequence. How many values the
/// enumerator says it fetched plays no part.
pub open spec fn delivered(status: i32) -> bool {
    succeeded(status) && status != S_FALSE
}

/// Whether a fetch that came back with `status` delivered a value.
pub fn has_delivered(status: i32) -> (yes: bool)
    ensures
        yes == delivered(status),
{
    is_success(status) && status != S_FALSE
}

impl<T> Pull<T> {
    /// The request that the pull waits on; `None` once it is over.
    pub open spec fn pending(self) -> Option<Request> {
        match self {
            Pull::Fetching => Some(Request::Fetch { count: FETCH_COUNT }),
            Pull::Coercing => Some(Request::Coerce { kind: VT_DISPATCH, flags: COERCION_FLAGS }),
            Pull::Narrowing => Some(Request::Narrow),
            Pull::Done(_) => None,
        }
    }

    /// The pull after `answer`. An answer to a request that the pull does not
    /// wait on ends it without an item; a pull that is over stays as it is.
    pub open spec fn after(self, answer: Answer<T>) -> Pull<T> {
        match self {
            Pull::Fetching => match answer {
                Answer::Fetched { status } => if delivered(status) {
                    Pull::Coercing
                } else {
                    Pull::Done(None)
                },
                _ => Pull::Done(None),
            },
            Pull::Coercing => match answer {
                Answer::Coerced(Ok(_)) => Pull::Narrowing,
                _ => Pull::Done(None),
            },
            Pull::Narrowing => match answer {
                Answer::Narrowed(item) => Pull::Done(item),
                _ => Pull::Done(None),
            },
            Pull::Done(item) => Pull::Done(item),
        }
    }

    /// What the pull yields: its item once it is over, nothing before.
    pub open spec fn yielded(self) -> Option<T> {
        match self {
            Pull::Done(item) => item,
            _ => None,
        }
    }

    /// A new pull. It opens with the fetch of one value.
    pub fn begin() -> (pull: Self)
        ensures
            pull == Pull::<T>::Fetching,
            pull.pending() == Some(Request::Fetch { count: 1 }),
    {
        Pull::Fetching
    }

    /// The call to make next, or `None` when the pull is over.
    pub fn request(&self) -> (request: Option<Request>)
        ensures
            request == self.pending(),
    {
        match self {
            Pull::Fetching => Some(Request::Fetch { count: FETCH_COUNT }),
            Pull::Coercing => Some(Request::Coerce { kind: VT_DISPATCH, flags: COERCION_FLAGS }),
            Pull::Narrowing => Some(Request::Narrow),
            Pull::Done(_) => None,
        }
    }

    /// Whether the pull is over.
    pub fn is_done(&self) -> (done: bool)
        ensures
            done == (self.pending() is None),
            done == (*self is Done),
    {
        match self {
            Pull::Done(_) => true,
            _ => false,
        }
    }

    /// Takes the answer to the pending request and moves on.
    pub fn advance(self, answer: Answer<T>) -> (next: Self)
        ensures
            next == self.after(answer),
    {
        match self {
            Pull::Fetching => match answer {
                Answer::Fetched { status } => if has_delivered(status) {
                    Pull::Coercing
                } else {
                    Pull::Done(None)
                },
                _ => Pull::Done(None),
            },
            Pull::Coercing => match answer {
                Answer::Coerced(Ok(_)) => Pull::Narrowing,
                _ => Pull::Done(None),
            },
            Pull::Narrowing => match answer {
                Answer::Narrowed(item) => Pull::Done(item),
                _ => Pull::Done(None),
            },
            Pull::Done(item) => Pull::Done(item),
        }
    }

    /// Ends the pull and hands out what it yields.
    pub fn item(self) -> (item: Option<T>)
        ensures
            item == self.yielded(),
    {
        match self {
            Pull::Done(item) => item,
            _ => None,
        }
    }
}

/// Where `pull` stands once its driver has put at most `steps` requests to
/// `world` and brought each answer back. `world` is whatever stands behind the
/// driver: it answers every request, rightly or not.
pub open spec fn driven<T>(
    pull: Pull<T>,
    world: spec_fn(Request) -> Answer<T>,
    steps: nat,
) -> Pull<T>
    decreases steps,
{
    match pull.pending() {
        Some(request) => if steps == 0 {
            pull
        } else {
            driven(pull.after(world(request)), world, (steps - 1) as nat)
        },
        None => pull,
    }
}

/// What a pull yields when `world` answers its requests. Three are the most it
/// makes.
pub open spec fn outcome<T>(world: spec_fn(Request) -> Answer<T>) -> Option<T> {
    driven(Pull::Fetching, world, 3).yielded()
}

/// A pull is over after three requests at most, whatever the answers were, and
/// more patience changes nothing.
pub proof fn lemma_pull_ends<T>(world: spec_fn(Request) -> Answer<T>, steps: nat)
    requires
        steps >= 3,
    ensures
        driven(Pull::Fetching, world, steps) is Done,
        driven(Pull::Fetching, world, steps) == driven(Pull::Fetching, world, 3),
{
    reveal_with_fuel(driven, 5);
}

/// A pull puts its requests in one order and none of them twice: the fetch,
/// then the coercion, then the narrowing. Nothing is tried again, and a pull
/// that is over stays over with what it yielded.
pub proof fn lemma_requests_in_order<T>(pull: Pull<T>, answer: Answer<T>)
    ensures
        pull is Fetching ==> pull.after(answer) is Coercing || pull.after(answer) == Pull::<T>::Done(
            None,
        ),
        pull is Coercing ==> pull.after(answer) is Narrowing || pull.after(answer) == Pull::<
            T,
        >::Done(None),
        pull is Narrowing ==> pull.after(answer) is Done,
        pull is Done ==> pull.after(answer) == pull,
{
}

/// A pull yields an item on one path only: the fetch delivered a value, the
/// value was coerced to an object reference, and the reference narrowed to the
/// item type. The item is then the one that the narrowing gave. No item is ever
/// yielded that did not come out of a successful narrowing.
pub proof fn lemma_item_needs_narrowing<T>(world: spec_fn(Request) -> Answer<T>, item: T)
    ensures
        outcome(world) == Some(item) <==> {
            &&& world(Request::Fetch { count: 1 }) matches Answer::Fetched { status }
            &&& delivered(status)
            &&& world(Request::Coerce { kind: 9, flags: 0 }) matches Answer::Coerced(Ok(_))
            &&& world(Request::Narrow) == Answer::Narrowed(Some(item))
        },
{
    reveal_with_fuel(driven, 5);
}

impl<T> Answer<T> {
    /// The answer that a narrowing with this outcome gives: the item where the
    /// object granted the item type, none where it refused, whatever the
    /// refusal said.
    pub fn narrowed<E>(narrowing: Result<T, E>) -> (answer: Self)
        ensures
            answer == match narrowing {
                Ok(item) => Answer::Narrowed(Some(item)),
                Err(_) => Answer::<T>::Narrowed(None),
            },
    {
        match narrowing {
            Ok(item) => Answer::Narrowed(Some(item)),
            Err(_) => Answer::Narrowed(None),
        }
    }
}

/// Narrows the object reference that the coercion left and gives the answer to
/// the pull's last request. A reference to nothing narrows to nothing. An
/// object is asked for the item type, and whether it grants it is the object's
/// to say.
pub fn narrow<T: windows::core::ComInterface>(
    object: Option<&windows::Win32::System::Com::IDispatch>,
) -> (answer: Answer<T>)
    ensures
        answer is Narrowed,
        object is None ==> answer == Answer::<T>::Narrowed(None),
{
    match object {
        Some(object) => Answer::narrowed(
            query::<windows::Win32::System::Com::IDispatch, T>(object),
        ),
        None => Answer::Narrowed(None),
    }
}

} // verus!
