use futures::{Future, FutureExt, IntoFuture};

fn is_future_v<A, B, C: Future<Item = A, Error = B>>(_: C) {}

fn get<F: Future>(f: F) -> Result<F::Item, F::Error> {
    f.poll().ok().unwrap()
}

#[test]
fn result_smoke() {
    let f = Ok(1).into_future();
    println!("{:#?}", f);

    is_future_v::<i32, u32, _>(f);
    is_future_v::<i32, u32, _>(f.map(|a| a + 1));
    is_future_v::<i32, u32, _>(f.and_then(|a| Ok(a)));
    is_future_v(f.or_else(|a| Err(a)));
    is_future_v(f.select(Err(3)));
    is_future_v::<(i32, i32), u32, _>(f.join(Err(3)));
}

#[test]
fn resolved_success_is_ready_at_first_poll() {
    let f = Ok::<i32, u32>(41).into_future();
    assert_eq!(get(f), Ok(41));
}

#[test]
fn resolved_failure_keeps_its_error() {
    let f = Err::<i32, String>(String::from("boom")).into_future();
    match f.poll() {
        Ok(Err(e)) => assert_eq!(e, "boom"),
        _ => panic!("a resolved failure must be ready with its error"),
    }
}

#[test]
fn resolved_future_is_its_own_conversion() {
    let f = Ok::<i32, u32>(5).into_future();
    let g = f.into_future();
    assert_eq!(get(g), Ok(5));
}

#[test]
fn resolved_future_clones_its_outcome() {
    let f = Err::<u8, String>(String::from("e")).into_future();
    let g = f.clone();
    assert_eq!(get(f), Err(String::from("e")));
    assert_eq!(get(g), Err(String::from("e")));
}

#[test]
fn empty_stays_open_for_many_polls() {
    let mut e: futures::Empty<i32, u32> = futures::Empty::new();
    for _ in 0..1000 {
        match e.poll() {
            Ok(_) => panic!("the never-finishing future finished"),
            Err(next) => e = next,
        }
    }
}

#[test]
fn empty_is_copied_without_bounds_on_its_types() {
    let e: futures::Empty<String, Vec<u8>> = futures::Empty::new();
    let copy = e;
    let clone = e.clone();
    assert!(e.poll().is_err());
    assert!(copy.poll().is_err());
    assert!(clone.poll().is_err());
}

#[test]
fn boxed_future_polls_as_its_content() {
    let ready = Ok::<i32, u32>(3).into_future().boxed();
    assert_eq!(get(ready), Ok(3));
    let open: Box<futures::Empty<i32, u32>> = futures::Empty::new().boxed();
    match open.poll() {
        Ok(_) => panic!("the content never finishes"),
        Err(next) => assert!(next.poll().is_err()),
    }
}
