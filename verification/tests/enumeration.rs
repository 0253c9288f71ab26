use enum_variant_iter::pull::{Answer, Pull, Request};
use enum_variant_iter::status::{surfaced, ForeignCallError};

const E_FAIL: i32 = -2147467259;
const DISP_E_TYPEMISMATCH: i32 = -2147352571;

/// One value of a scripted source.
#[derive(Clone, Copy, Debug, PartialEq)]
enum Slot {
    /// An object of the item type.
    Item(&'static str),
    /// An object of another type.
    Stranger,
    /// An object reference that refers to nothing.
    Null,
    /// A value that is no object at all.
    Plain,
}

/// An enumerator over a scripted source: the protocol's three calls, on a list.
#[derive(Clone, Debug)]
struct Script {
    slots: Vec<Slot>,
    place: usize,
    fetches: usize,
    broken: bool,
}

impl Script {
    fn over(slots: &[Slot]) -> Script {
        Script { slots: slots.to_vec(), place: 0, fetches: 0, broken: false }
    }

    fn next(&mut self) -> (i32, Option<Slot>) {
        self.fetches += 1;
        if self.broken {
            return (E_FAIL, None);
        }
        match self.slots.get(self.place).copied() {
            Some(slot) => {
                self.place += 1;
                (0, Some(slot))
            }
            None => (1, None),
        }
    }

    fn reset(&mut self) -> Result<(), i32> {
        if self.broken {
            return Err(E_FAIL);
        }
        self.place = 0;
        Ok(())
    }
}

/// Drives one pull against the script, as a driver does against the protocol.
fn produce_next(script: &mut Script) -> Option<&'static str> {
    let mut pull: Pull<&'static str> = Pull::begin();
    let mut value: Option<Slot> = None;
    let mut requests = 0;
    loop {
        let answer = match pull.request() {
            None => return pull.item(),
            Some(Request::Fetch { count }) => {
                assert_eq!(count, 1);
                let (status, slot) = script.next();
                value = slot;
                Answer::Fetched { status }
            }
            Some(Request::Coerce { kind, flags }) => {
                assert_eq!((kind, flags), (9, 0));
                Answer::Coerced(match value.expect("a fetched value") {
                    Slot::Plain => Err(DISP_E_TYPEMISMATCH),
                    Slot::Null | Slot::Stranger | Slot::Item(_) => Ok(()),
                })
            }
            Some(Request::Narrow) => Answer::Narrowed(match value.expect("a fetched value") {
                Slot::Item(name) => Some(name),
                _ => None,
            }),
        };
        requests += 1;
        assert!(requests <= 3);
        pull = pull.advance(answer);
    }
}

#[test]
fn three_items_are_yielded_in_order_and_then_nothing() {
    let mut script = Script::over(&[Slot::Item("item1"), Slot::Item("item2"), Slot::Item("item3")]);
    assert_eq!(produce_next(&mut script), Some("item1"));
    assert_eq!(produce_next(&mut script), Some("item2"));
    assert_eq!(produce_next(&mut script), Some("item3"));
    assert_eq!(produce_next(&mut script), None);
    assert_eq!(produce_next(&mut script), None);
    assert_eq!(produce_next(&mut script), None);
}

#[test]
fn an_empty_source_yields_nothing() {
    let mut script = Script::over(&[]);
    assert_eq!(produce_next(&mut script), None);
    assert_eq!(produce_next(&mut script), None);
}

#[test]
fn an_object_of_another_type_ends_the_sequence_early() {
    let mut script = Script::over(&[Slot::Item("item1"), Slot::Stranger, Slot::Item("item3")]);
    assert_eq!(produce_next(&mut script), Some("item1"));
    assert_eq!(produce_next(&mut script), None);
}

#[test]
fn a_value_that_is_no_object_ends_the_sequence_early() {
    let mut script = Script::over(&[Slot::Item("item1"), Slot::Plain, Slot::Item("item3")]);
    assert_eq!(produce_next(&mut script), Some("item1"));
    assert_eq!(produce_next(&mut script), None);
}

#[test]
fn a_reference_to_nothing_ends_the_sequence_early() {
    let mut script = Script::over(&[Slot::Null, Slot::Item("item2")]);
    assert_eq!(produce_next(&mut script), None);
}

#[test]
fn each_pull_makes_one_fetch_and_uses_up_one_place() {
    let mut script = Script::over(&[Slot::Item("item1"), Slot::Stranger, Slot::Item("item3")]);
    assert_eq!(produce_next(&mut script), Some("item1"));
    assert_eq!((script.fetches, script.place), (1, 1));
    assert_eq!(produce_next(&mut script), None);
    assert_eq!((script.fetches, script.place), (2, 2));
    // The pull that ended early took its place all the same: the next one
    // goes on behind it.
    assert_eq!(produce_next(&mut script), Some("item3"));
    assert_eq!((script.fetches, script.place), (3, 3));
    assert_eq!(produce_next(&mut script), None);
    assert_eq!((script.fetches, script.place), (4, 3));
}

#[test]
fn the_end_is_final_where_items_come_first() {
    let mut script = Script::over(&[Slot::Item("item1"), Slot::Plain, Slot::Stranger, Slot::Null]);
    assert_eq!(produce_next(&mut script), Some("item1"));
    for _ in 0..8 {
        assert_eq!(produce_next(&mut script), None);
    }
}

#[test]
fn a_failing_enumerator_looks_like_an_ended_one() {
    let mut script = Script::over(&[Slot::Item("item1"), Slot::Item("item2")]);
    assert_eq!(produce_next(&mut script), Some("item1"));
    script.broken = true;
    assert_eq!(produce_next(&mut script), None);
    assert_eq!(produce_next(&mut script), None);
}

#[test]
fn after_a_restart_the_adapter_pulls_again() {
    let mut script = Script::over(&[Slot::Item("item1"), Slot::Item("item2")]);
    assert_eq!(produce_next(&mut script), Some("item1"));
    assert_eq!(produce_next(&mut script), Some("item2"));
    assert_eq!(produce_next(&mut script), None);
    let outcome = script.reset();
    assert_eq!(surfaced(outcome), Ok(()));
    assert!(produce_next(&mut script).is_some());
    assert!(produce_next(&mut script).is_some());
    assert!(produce_next(&mut script).is_none());
}

#[test]
fn a_restart_need_not_bring_the_same_values_again() {
    let mut script = Script::over(&[Slot::Item("item1"), Slot::Item("item2")]);
    assert_eq!(produce_next(&mut script), Some("item1"));
    let outcome = script.reset();
    assert_eq!(surfaced(outcome), Ok(()));
    // The collection changed under the enumerator.
    script.slots = vec![Slot::Item("other")];
    assert_eq!(produce_next(&mut script), Some("other"));
    assert_eq!(produce_next(&mut script), None);
}

#[test]
fn a_failed_restart_is_surfaced_with_its_status() {
    let mut script = Script::over(&[Slot::Item("item1")]);
    script.broken = true;
    let outcome = script.reset();
    assert_eq!(surfaced(outcome), Err(ForeignCallError::Status(E_FAIL)));
}

#[test]
fn exhausting_an_adapter_does_not_end_its_duplicate() {
    let mut first = Script::over(&[Slot::Item("item1"), Slot::Item("item2"), Slot::Item("item3")]);
    assert_eq!(produce_next(&mut first), Some("item1"));
    let mut copy = first.clone();
    assert_eq!(produce_next(&mut first), Some("item2"));
    assert_eq!(produce_next(&mut first), Some("item3"));
    assert_eq!(produce_next(&mut first), None);
    assert_eq!(produce_next(&mut copy), Some("item2"));
    assert_eq!(produce_next(&mut copy), Some("item3"));
    assert_eq!(produce_next(&mut copy), None);
    assert_eq!(produce_next(&mut first), None);
}

#[test]
fn exhausting_a_duplicate_does_not_end_its_source_adapter() {
    let mut first = Script::over(&[Slot::Item("item1"), Slot::Item("item2")]);
    let mut copy = first.clone();
    assert_eq!(produce_next(&mut copy), Some("item1"));
    assert_eq!(produce_next(&mut copy), Some("item2"));
    assert_eq!(produce_next(&mut copy), None);
    assert_eq!(produce_next(&mut first), Some("item1"));
    assert_eq!(produce_next(&mut first), Some("item2"));
    assert_eq!(produce_next(&mut first), None);
}

/// Drives one pull with the given answers at hand and counts the requests.
fn pull_with(status: i32, coercion: Result<(), i32>, narrowing: Option<u8>) -> (Option<u8>, u32) {
    let mut pull: Pull<u8> = Pull::begin();
    let mut requests = 0;
    loop {
        let answer = match pull.request() {
            None => return (pull.item(), requests),
            Some(Request::Fetch { .. }) => Answer::Fetched { status },
            Some(Request::Coerce { .. }) => Answer::Coerced(coercion),
            Some(Request::Narrow) => Answer::Narrowed(narrowing),
        };
        requests += 1;
        pull = pull.advance(answer);
    }
}

#[test]
fn a_pull_yields_exactly_when_all_three_answers_are_good() {
    for status in [i32::MIN, E_FAIL, -1, 0, 1, 2, i32::MAX] {
        for coercion in [Ok(()), Err(DISP_E_TYPEMISMATCH), Err(E_FAIL)] {
            for narrowing in [Some(7u8), None] {
                let good_fetch = status >= 0 && status != 1;
                let expected = if good_fetch && coercion.is_ok() { narrowing } else { None };
                let asked = if !good_fetch {
                    1
                } else if coercion.is_err() {
                    2
                } else {
                    3
                };
                assert_eq!(pull_with(status, coercion, narrowing), (expected, asked));
            }
        }
    }
}

#[test]
fn a_pull_stops_asking_at_the_first_bad_answer() {
    assert_eq!(pull_with(1, Ok(()), Some(7)), (None, 1));
    assert_eq!(pull_with(E_FAIL, Ok(()), Some(7)), (None, 1));
    assert_eq!(pull_with(0, Err(DISP_E_TYPEMISMATCH), Some(7)), (None, 2));
    assert_eq!(pull_with(0, Ok(()), None), (None, 3));
    assert_eq!(pull_with(0, Ok(()), Some(7)), (Some(7), 3));
}
