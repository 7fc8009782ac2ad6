use futures::{Empty, Future, FutureExt, IntoFuture, JoinState};
use std::cell::Cell;

/// Stays open for `left` polls, then finishes with `outcome`, and counts how
/// often it is polled.
struct Countdown<'a> {
    left: u32,
    outcome: Result<i32, u32>,
    polls: &'a Cell<u32>,
}

impl<'a> Countdown<'a> {
    fn new(left: u32, outcome: Result<i32, u32>, polls: &'a Cell<u32>) -> Self {
        Countdown { left, outcome, polls }
    }
}

impl<'a> Future for Countdown<'a> {
    type Item = i32;
    type Error = u32;

    fn wf(&self) -> bool {
        true
    }

    fn polls_to(self, _r: Result<Result<i32, u32>, Self>) -> bool {
        true
    }

    fn may_yield(&self, _outcome: Result<i32, u32>) -> bool {
        true
    }

    fn poll(self) -> Result<Result<i32, u32>, Self> {
        self.polls.set(self.polls.get() + 1);
        if self.left == 0 {
            Ok(self.outcome)
        } else {
            Err(Countdown { left: self.left - 1, outcome: self.outcome, polls: self.polls })
        }
    }
}

/// Polls `f` until it finishes; returns the outcome and how many polls left
/// it open.
fn drive<F: Future>(f: F) -> (Result<F::Item, F::Error>, u32) {
    let mut f = f;
    let mut pending = 0;
    loop {
        match f.poll() {
            Ok(outcome) => return (outcome, pending),
            Err(next) => {
                pending += 1;
                f = next;
            }
        }
    }
}

fn ready<F: Future>(f: F) -> Result<F::Item, F::Error> {
    match f.poll() {
        Ok(outcome) => outcome,
        Err(_) => panic!("the future was not ready"),
    }
}

fn open<F: Future>(f: F) -> F {
    match f.poll() {
        Ok(_) => panic!("the future was ready"),
        Err(next) => next,
    }
}

#[test]
fn user_future_runs_to_its_outcome() {
    let polls = Cell::new(0);
    let (outcome, pending) = drive(Countdown::new(2, Ok(7), &polls));
    assert_eq!(outcome, Ok(7));
    assert_eq!(pending, 2);
    assert_eq!(polls.get(), 3);
}

#[test]
fn map_applies_the_function_to_the_item() {
    let f = Ok::<i32, u32>(1).into_future();
    assert_eq!(ready(f.map(|a| a + 1)), Ok(2));
    assert_eq!(ready(f.map(|a| a.to_string())), Ok(String::from("1")));
}

#[test]
fn map_passes_the_error_and_does_not_call_the_function() {
    let calls = Cell::new(0);
    let f = Err::<i32, u32>(9).into_future();
    let mapped = f.map(|a| {
        calls.set(calls.get() + 1);
        a + 1
    });
    assert_eq!(ready(mapped), Err(9));
    assert_eq!(calls.get(), 0);
}

#[test]
fn map_keeps_the_function_while_the_future_is_open() {
    let polls = Cell::new(0);
    let calls = Cell::new(0);
    let mapped = Countdown::new(2, Ok(10), &polls).map(|a| {
        calls.set(calls.get() + 1);
        a * 3
    });
    let mapped = open(mapped);
    assert_eq!(calls.get(), 0);
    let mapped = open(mapped);
    assert_eq!(calls.get(), 0);
    assert_eq!(ready(mapped), Ok(30));
    assert_eq!(calls.get(), 1);
    assert_eq!(polls.get(), 3);
}

#[test]
fn map_err_applies_the_function_to_the_error() {
    let f = Err::<i32, u32>(4).into_future();
    assert_eq!(ready(f.map_err(|e| e * 10)), Err(40));
    assert_eq!(ready(f.map_err(|e| e.to_string())), Err(String::from("4")));
}

#[test]
fn map_err_passes_the_item_and_does_not_call_the_function() {
    let calls = Cell::new(0);
    let f = Ok::<i32, u32>(5).into_future();
    let mapped = f.map_err(|e| {
        calls.set(calls.get() + 1);
        e + 1
    });
    assert_eq!(ready(mapped), Ok(5));
    assert_eq!(calls.get(), 0);
}

#[test]
fn map_err_keeps_the_function_while_the_future_is_open() {
    let polls = Cell::new(0);
    let mapped = Countdown::new(1, Err(7), &polls).map_err(|e| e + 1);
    let mapped = open(mapped);
    assert_eq!(ready(mapped), Err(8));
    assert_eq!(polls.get(), 2);
}

#[test]
fn and_then_chains_on_success() {
    let f = Ok::<i32, u32>(1).into_future();
    assert_eq!(ready(f.and_then(|v| Ok(v + 1))), Ok(2));
}

#[test]
fn and_then_passes_the_second_error() {
    let f = Ok::<i32, u32>(1).into_future();
    assert_eq!(ready(f.and_then(|v| Err::<i32, u32>(v as u32 + 100))), Err(101));
}

#[test]
fn and_then_skips_the_function_on_failure() {
    let calls = Cell::new(0);
    let f = Err::<i32, u32>(6).into_future();
    let chain = f.and_then(|v| {
        calls.set(calls.get() + 1);
        Ok::<i32, u32>(v + 1)
    });
    assert_eq!(ready(chain), Err(6));
    assert_eq!(calls.get(), 0);
}

#[test]
fn and_then_polls_the_second_future_at_the_poll_that_makes_it() {
    let first = Cell::new(0);
    let second = Cell::new(0);
    let chain = Countdown::new(1, Ok(2), &first).and_then(|v| Countdown::new(1, Ok(v * 5), &second));
    let chain = open(chain);
    assert_eq!((first.get(), second.get()), (1, 0));
    let chain = open(chain);
    assert_eq!((first.get(), second.get()), (2, 1));
    assert_eq!(ready(chain), Ok(10));
    assert_eq!((first.get(), second.get()), (2, 2));
}

#[test]
fn and_then_waits_in_its_first_phase() {
    let calls = Cell::new(0);
    let mut chain = Empty::<i32, u32>::new().and_then(|v| {
        calls.set(calls.get() + 1);
        Ok::<i32, u32>(v)
    });
    for _ in 0..10 {
        chain = open(chain);
    }
    assert_eq!(calls.get(), 0);
}

#[test]
fn or_else_chains_on_failure() {
    let f = Err::<i32, u32>(1).into_future();
    assert_eq!(ready(f.or_else(|e| Err::<i32, u32>(e + 1))), Err(2));
    assert_eq!(ready(f.or_else(|e| Ok::<i32, u32>(e as i32 + 10))), Ok(11));
}

#[test]
fn or_else_skips_the_function_on_success() {
    let calls = Cell::new(0);
    let f = Ok::<i32, u32>(8).into_future();
    let chain = f.or_else(|e| {
        calls.set(calls.get() + 1);
        Err::<i32, u32>(e)
    });
    assert_eq!(ready(chain), Ok(8));
    assert_eq!(calls.get(), 0);
}

#[test]
fn or_else_polls_the_second_future_at_the_poll_that_makes_it() {
    let first = Cell::new(0);
    let second = Cell::new(0);
    let chain = Countdown::new(1, Err(3), &first).or_else(|e| Countdown::new(1, Ok(e as i32 + 1), &second));
    let chain = open(chain);
    assert_eq!((first.get(), second.get()), (1, 0));
    let chain = open(chain);
    assert_eq!((first.get(), second.get()), (2, 1));
    assert_eq!(ready(chain), Ok(4));
    assert_eq!((first.get(), second.get()), (2, 2));
}

#[test]
fn select_takes_the_first_side_and_leaves_the_second_unpolled() {
    let first = Cell::new(0);
    let second = Cell::new(0);
    let race = Countdown::new(0, Ok(1), &first).select(Countdown::new(5, Ok(2), &second));
    assert_eq!(ready(race), Ok(1));
    assert_eq!((first.get(), second.get()), (1, 0));
}

#[test]
fn select_prefers_the_first_side_when_both_are_ready() {
    let f = Ok::<i32, u32>(1).into_future();
    assert_eq!(ready(f.select(Ok(2))), Ok(1));
    assert_eq!(ready(f.select(Err(3))), Ok(1));
    let g = Err::<i32, u32>(4).into_future();
    assert_eq!(ready(g.select(Ok(2))), Err(4));
}

#[test]
fn select_takes_the_second_side_when_the_first_is_open() {
    let e: Empty<i32, u32> = Empty::new();
    assert_eq!(ready(e.select(Ok(2))), Ok(2));
    assert_eq!(ready(e.select(Err(5))), Err(5));
}

#[test]
fn select_stays_open_while_both_sides_are() {
    let first = Cell::new(0);
    let second = Cell::new(0);
    let race = Countdown::new(3, Ok(1), &first).select(Countdown::new(1, Err(2), &second));
    let race = open(race);
    assert_eq!((first.get(), second.get()), (1, 1));
    assert_eq!(ready(race), Err(2));
    assert_eq!((first.get(), second.get()), (2, 2));
}

#[test]
fn join_pairs_the_items() {
    let f = Ok::<i32, u32>(1).into_future();
    assert_eq!(ready(f.join(Ok(2))), Ok((1, 2)));
    assert_eq!(ready(f.join(Ok::<String, u32>(String::from("b")))), Ok((1, String::from("b"))));
}

#[test]
fn join_fails_with_the_error_of_either_side() {
    let failed = Err::<i32, u32>(7).into_future();
    assert_eq!(ready(failed.join(Ok::<i32, u32>(2))), Err(7));
    let fine = Ok::<i32, u32>(2).into_future();
    assert_eq!(ready(fine.join(Err::<i32, u32>(7))), Err(7));
    assert_eq!(ready(failed.join(Err::<i32, u32>(8))), Err(7));
}

#[test]
fn join_fails_at_once_while_the_other_side_is_open() {
    let e: Empty<i32, u32> = Empty::new();
    assert_eq!(ready(e.join(Err::<i32, u32>(3))), Err(3));
    let failed = Err::<i32, u32>(4).into_future();
    assert_eq!(ready(failed.join(e)), Err(4));
}

#[test]
fn join_holds_the_item_of_the_side_that_finished_first() {
    let first = Cell::new(0);
    let second = Cell::new(0);
    let joined = Countdown::new(0, Ok(1), &first).join(Countdown::new(2, Ok(2), &second));
    let joined = open(joined);
    assert!(matches!(joined.state, JoinState::FirstDone(1, _)));
    let joined = open(joined);
    assert!(matches!(joined.state, JoinState::FirstDone(1, _)));
    assert_eq!(ready(joined), Ok((1, 2)));
    assert_eq!((first.get(), second.get()), (1, 3));
}

#[test]
fn join_holds_the_item_of_the_second_side() {
    let first = Cell::new(0);
    let second = Cell::new(0);
    let joined = Countdown::new(1, Err(9), &first).join(Countdown::new(0, Ok(2), &second));
    let joined = open(joined);
    assert!(matches!(joined.state, JoinState::SecondDone(_, 2)));
    assert_eq!(ready(joined), Err(9));
    assert_eq!((first.get(), second.get()), (2, 1));
}

#[test]
fn join_stays_open_while_both_sides_are() {
    let first = Cell::new(0);
    let second = Cell::new(0);
    let joined = Countdown::new(1, Ok(1), &first).join(Countdown::new(1, Ok(2), &second));
    let joined = open(joined);
    assert!(matches!(joined.state, JoinState::Both(_, _)));
    assert_eq!(ready(joined), Ok((1, 2)));
    assert_eq!((first.get(), second.get()), (2, 2));
}

#[test]
fn open_future_stays_open_when_nothing_in_it_changed() {
    let e: Empty<i32, u32> = Empty::new();
    let mapped = open(open(e.map(|a| a + 1)));
    assert!(mapped.poll().is_err());
    let chain = open(open(e.and_then(|a| Ok::<i32, u32>(a))));
    assert!(chain.poll().is_err());
    let race = open(open(e.select(e)));
    assert!(race.poll().is_err());
    let joined = open(open(e.join(Ok::<i32, u32>(1))));
    assert!(matches!(joined.state, JoinState::SecondDone(_, 1)));
    assert!(joined.poll().is_err());
}

#[test]
fn combinators_nest() {
    let polls = Cell::new(0);
    let f = Countdown::new(1, Ok(2), &polls)
        .map(|a| a + 1)
        .and_then(|a| Ok::<i32, u32>(a * 2))
        .join(Ok::<i32, u32>(1).into_future().map_err(|e| e + 1))
        .select(Empty::new());
    let (outcome, pending) = drive(f);
    assert_eq!(outcome, Ok((6, 1)));
    assert_eq!(pending, 1);
}

#[test]
fn mapped_future_is_copied_with_its_function() {
    let mapped = Ok::<i32, u32>(20).into_future().map(|a| a + 1);
    let copy = mapped;
    let clone = mapped.clone();
    assert_eq!(ready(mapped), Ok(21));
    assert_eq!(ready(copy), Ok(21));
    assert_eq!(ready(clone), Ok(21));
}
