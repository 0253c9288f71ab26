//! A model of a source that keeps still while it is enumerated, and what the
//! adapter is proved to do over such a source.
//!
//! The foreign protocol promises little: a live collection may bring other
//! values after a restart, or more values after it said that it had none. The
//! model here is the well-behaved source: a fixed sequence of elements. Each
//! adapter has, through its enumerator, a place in that sequence; every pull
//! moves it one place on, and a place behind the last element is the end.
//! Nothing in this module runs: it is the ground on which the theorems about
//! whole enumerations stand.

use crate::pull::{outcome, Answer, Request};
use crate::status::{S_FALSE, S_OK};
use vstd::prelude::*;

verus! {

/// The status with which the coercion turns down a value of another kind.
pub const DISP_E_TYPEMISMATCH: i32 = -2147352571;

/// One element of a source, as far as a pull can tell elements apart.
pub enum Element<T> {
    /// A value that cannot be coerced to an object reference.
    Plain,
    /// An object reference that does not narrow to the item type: it refers
    /// to nothing, or to an object of another type.
    Stranger,
    /// An object that offers the item type, with the item it narrows to.
    Item(T),
}

impl<T> Element<T> {
    /// What the coercion of this element to an object reference gives.
    pub open spec fn coercion(self) -> Result<(), i32> {
        match self {
            Element::Plain => Err(DISP_E_TYPEMISMATCH),
            _ => Ok(()),
        }
    }

    /// What narrowing this element to the item type gives.
    pub open spec fn narrowing(self) -> Option<T> {
        match self {
            Element::Item(item) => Some(item),
            _ => None,
        }
    }
}

/// The answers that a driver gets while its enumerator stands at `place` of
/// `elements`.
pub open spec fn world_at<T>(elements: Seq<Element<T>>, place: nat) -> spec_fn(Request) -> Answer<
    T,
> {
    |request: Request|
        match request {
            Request::Fetch { count } => Answer::Fetched {
                status: if place < elements.len() {
                    S_OK
                } else {
                    S_FALSE
                },
            },
            Request::Coerce { kind, flags } => Answer::Coerced(elements[place as int].coercion()),
            Request::Narrow => Answer::Narrowed(elements[place as int].narrowing()),
        }
}

/// What a pull yields while its enumerator stands at `place` of `elements`.
pub open spec fn pull_at<T>(elements: Seq<Element<T>>, place: nat) -> Option<T> {
    outcome(world_at(elements, place))
}

/// Whether, from `place` on, no item of `elements` stands behind an element
/// that is none.
pub open spec fn items_first<T>(elements: Seq<Element<T>>, place: nat) -> bool {
    forall|i: int, j: int|
        #![trigger elements[i], elements[j]]
        place <= i < j < elements.len() && !(elements[i] is Item) ==> !(elements[j] is Item)
}

/// Whether, from `place` on, `elements` holds items only.
pub open spec fn items_only<T>(elements: Seq<Element<T>>, place: nat) -> bool {
    forall|i: int| place <= i < elements.len() ==> (#[trigger] elements[i]) is Item
}

/// A source with the adapters that enumerate it. Adapter `k` stands at
/// `places[k]`.
pub struct Session<T> {
    pub elements: Seq<Element<T>>,
    pub places: Seq<nat>,
}

impl<T> Session<T> {
    /// Whether `adapter` is one of the session's adapters.
    pub open spec fn has(self, adapter: int) -> bool {
        0 <= adapter < self.places.len()
    }

    /// The place that lies `pulls` places ahead of where `adapter` stands.
    pub open spec fn ahead(self, adapter: int, pulls: nat) -> int {
        (self.places[adapter] + pulls) as int
    }

    /// What the next pull of `adapter` yields.
    pub open spec fn yields(self, adapter: int) -> Option<T> {
        pull_at(self.elements, self.places[adapter])
    }

    /// The session after one pull of `adapter`: the pull used up one place,
    /// whatever it yielded.
    pub open spec fn pulled(self, adapter: int) -> Session<T> {
        Session {
            elements: self.elements,
            places: self.places.update(adapter, self.places[adapter] + 1),
        }
    }

    /// The session after `times` pulls of `adapter` in a row.
    pub open spec fn pulled_times(self, adapter: int, times: nat) -> Session<T>
        decreases times,
    {
        if times == 0 {
            self
        } else {
            self.pulled(adapter).pulled_times(adapter, (times - 1) as nat)
        }
    }

    /// The session after a restart of `adapter`.
    pub open spec fn restarted(self, adapter: int) -> Session<T> {
        Session { elements: self.elements, places: self.places.update(adapter, 0) }
    }

    /// The session after `adapter` was duplicated: one adapter more, the last,
    /// which stands where `adapter` stands.
    pub open spec fn duplicated(self, adapter: int) -> Session<T> {
        Session { elements: self.elements, places: self.places.push(self.places[adapter]) }
    }
}

/// Over a still source a pull yields the item at its enumerator's place, and
/// nothing where that place holds no item or lies behind the last element.
pub proof fn lemma_pull_at<T>(elements: Seq<Element<T>>, place: nat)
    ensures
        pull_at(elements, place) == if place < elements.len() {
            elements[place as int].narrowing()
        } else {
            None
        },
{
    reveal_with_fuel(crate::pull::driven, 5);
}

/// A run of pulls moves the adapter that makes them as many places on, and
/// leaves every other adapter where it stood.
pub proof fn lemma_pulled_times<T>(session: Session<T>, adapter: int, times: nat)
    requires
        session.has(adapter),
    ensures
        session.pulled_times(adapter, times).elements == session.elements,
        session.pulled_times(adapter, times).places == session.places.update(
            adapter,
            session.places[adapter] + times,
        ),
    decreases times,
{
    if times == 0 {
        assert(session.places.update(adapter, session.places[adapter] + 0) =~= session.places);
    } else {
        let next = session.pulled(adapter);
        lemma_pulled_times(next, adapter, (times - 1) as nat);
        assert(next.places.update(adapter, next.places[adapter] + (times - 1) as nat)
            =~= session.places.update(adapter, session.places[adapter] + times));
    }
}

/// Once a pull has yielded nothing, no later pull of the same adapter yields
/// an item, as long as the adapter is not restarted in between.
///
/// This holds where, from the adapter's place on, no item stands behind an
/// element that is none. Elsewhere it fails: a pull that ends at an element of
/// another kind has used up that element's place, and the next pull goes on
/// behind it.
pub proof fn lemma_end_is_final<T>(session: Session<T>, adapter: int, earlier: nat, later: nat)
    requires
        session.has(adapter),
        items_first(session.elements, session.places[adapter]),
        earlier <= later,
        session.pulled_times(adapter, earlier).yields(adapter) is None,
    ensures
        session.pulled_times(adapter, later).yields(adapter) is None,
{
    let start = session.places[adapter];
    lemma_pulled_times(session, adapter, earlier);
    lemma_pulled_times(session, adapter, later);
    lemma_pull_at(session.elements, start + earlier);
    lemma_pull_at(session.elements, start + later);
    if start + later < session.elements.len() && earlier < later {
        assert(!(session.elements[(start + earlier) as int] is Item));
        assert(!(session.elements[(start + later) as int] is Item));
    }
}

/// Where the source holds items only from the adapter's place on, the adapter
/// yields them one by one in their order, and nothing from then on.
pub proof fn lemma_items_in_order<T>(session: Session<T>, adapter: int, pulls: nat)
    requires
        session.has(adapter),
        items_only(session.elements, session.places[adapter]),
    ensures
        session.pulled_times(adapter, pulls).yields(adapter) == if session.ahead(adapter, pulls)
            < session.elements.len() {
            Some(session.elements[session.ahead(adapter, pulls)]->Item_0)
        } else {
            None
        },
{
    lemma_pulled_times(session, adapter, pulls);
    lemma_pull_at(session.elements, session.places[adapter] + pulls);
}

/// An adapter yields the items up to the first element that is none, and
/// nothing at that element, whatever stands behind it.
pub proof fn lemma_ends_at_first_other<T>(session: Session<T>, adapter: int, pulls: nat)
    requires
        session.has(adapter),
        session.ahead(adapter, pulls) < session.elements.len(),
        forall|i: int|
            session.places[adapter] <= i < session.ahead(adapter, pulls) ==> (
            #[trigger] session.elements[i]) is Item,
        !(session.elements[session.ahead(adapter, pulls)] is Item),
    ensures
        forall|k: nat|
            k < pulls ==> #[trigger] session.pulled_times(adapter, k).yields(adapter) == Some(
                session.elements[session.ahead(adapter, k)]->Item_0,
            ),
        session.pulled_times(adapter, pulls).yields(adapter) is None,
{
    let start = session.places[adapter];
    assert forall|k: nat| k < pulls implies #[trigger] session.pulled_times(adapter, k).yields(
        adapter,
    ) == Some(session.elements[session.ahead(adapter, k)]->Item_0) by {
        lemma_pulled_times(session, adapter, k);
        lemma_pull_at(session.elements, start + k);
        assert(session.elements[session.ahead(adapter, k)] is Item);
    }
    lemma_pulled_times(session, adapter, pulls);
    lemma_pull_at(session.elements, start + pulls);
}

/// A duplicate stands on its own. It starts where the adapter it was made of
/// stands, and however far that adapter goes on, to its end or beyond, the
/// duplicate still yields what was next when it was made. The same holds the
/// other way round.
pub proof fn lemma_duplicate_is_independent<T>(session: Session<T>, adapter: int, pulls: nat)
    requires
        session.has(adapter),
    ensures
        ({
            let both = session.duplicated(adapter);
            let copy = session.places.len() as int;
            &&& both.has(adapter) && both.has(copy)
            &&& both.yields(copy) == session.yields(adapter)
            &&& both.pulled_times(adapter, pulls).yields(copy) == session.yields(adapter)
            &&& both.pulled_times(copy, pulls).yields(adapter) == session.yields(adapter)
        }),
{
    let both = session.duplicated(adapter);
    let copy = session.places.len() as int;
    lemma_pulled_times(both, adapter, pulls);
    lemma_pulled_times(both, copy, pulls);
}

/// A restart brings an adapter back to the first element of a still source,
/// whatever it had yielded before.
pub proof fn lemma_restart_begins_anew<T>(session: Session<T>, adapter: int, pulls: nat)
    requires
        session.has(adapter),
    ensures
        session.pulled_times(adapter, pulls).restarted(adapter).yields(adapter) == pull_at(
            session.elements,
            0,
        ),
{
    lemma_pulled_times(session, adapter, pulls);
}

} // verus!
