use futures::receiver::poll_received;
use futures::{Disconnected, Future, Received};
use std::sync::mpsc::channel;

#[test]
fn receiver_stays_open_on_an_empty_channel() {
    let (tx, rx) = channel::<i32>();
    let rx = match rx.poll() {
        Ok(_) => panic!("nothing was sent"),
        Err(rx) => rx,
    };
    tx.send(5).unwrap();
    assert_eq!(rx.recv(), Ok(5));
}

#[test]
fn receiver_finishes_with_the_message_sent() {
    let (tx, rx) = channel::<i32>();
    let rx = match rx.poll() {
        Ok(_) => panic!("nothing was sent"),
        Err(rx) => rx,
    };
    tx.send(11).unwrap();
    match rx.poll() {
        Ok(outcome) => assert_eq!(outcome, Ok(11)),
        Err(_) => panic!("a message was waiting"),
    }
}

#[test]
fn receiver_fails_when_every_sender_is_gone() {
    let (tx, rx) = channel::<i32>();
    drop(tx);
    match rx.poll() {
        Ok(outcome) => assert_eq!(outcome, Err(Disconnected)),
        Err(_) => panic!("the channel was closed"),
    }
}

#[test]
fn receiver_takes_a_waiting_message_before_it_reports_the_closed_channel() {
    let (tx, rx) = channel::<i32>();
    tx.send(1).unwrap();
    drop(tx);
    match rx.poll() {
        Ok(outcome) => assert_eq!(outcome, Ok(1)),
        Err(_) => panic!("a message was waiting"),
    }
}

#[test]
fn poll_received_maps_each_answer() {
    let (_tx, rx) = channel::<i32>();
    match poll_received(rx, Received::Value(3)) {
        Ok(outcome) => assert_eq!(outcome, Ok(3)),
        Err(_) => panic!("a message finishes the future"),
    }
    let (_tx, rx) = channel::<i32>();
    match poll_received(rx, Received::Disconnected) {
        Ok(outcome) => assert_eq!(outcome, Err(Disconnected)),
        Err(_) => panic!("a closed channel finishes the future"),
    }
    let (tx, rx) = channel::<i32>();
    match poll_received(rx, Received::Empty) {
        Ok(_) => panic!("an empty channel leaves the future open"),
        Err(rx) => {
            tx.send(8).unwrap();
            assert_eq!(rx.recv(), Ok(8));
        }
    }
}

#[test]
fn receiver_composes_with_the_combinators() {
    let (tx, rx) = channel::<i32>();
    let f = rx.map(|v| v * 2).map_err(|_| 0u32);
    let f = match f.poll() {
        Ok(_) => panic!("nothing was sent"),
        Err(f) => f,
    };
    tx.send(21).unwrap();
    match f.poll() {
        Ok(outcome) => assert_eq!(outcome, Ok(42)),
        Err(_) => panic!("a message was waiting"),
    }
}
