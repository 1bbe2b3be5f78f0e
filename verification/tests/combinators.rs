use warp::filter::and::{And, AndEvent, AndStep};
use warp::filter::and_then::{AndThen, ThenEvent, ThenStep};
use warp::filter::or::{Or, OrEvent, OrStep};
use warp::filter::recover::{Recover, RecoverEvent, RecoverStep};
use warp::filter::Polled;
use warp::filters::path::path;
use warp::generic::{combine, Either, Func, HList, Product, Tuple};
use warp::header_map::HeaderMap;
use warp::reject::Rejection;
use warp::request::{Method, Request, Version};
use warp::route::Route;

fn route(p: &str) -> Route {
    Route::new(Request {
        method: Method::get(),
        path: p.to_string(),
        query: None,
        authority: None,
        version: Version::Http11,
        headers: HeaderMap::new(),
        body: None,
        remote_addr: None,
        peer_certificates: None,
    })
}

#[test]
fn or_tries_the_second_with_the_path_restored() {
    let mut r = route("/math/sum");
    let or = Or::new((), ());
    let mut fut = or.filter(&r);
    // the first alternative consumes a segment, then rejects
    assert!(path(&mut r, "math").is_ok());
    let step: OrStep<u8, u8> = fut.poll(&mut r, OrEvent::First(Polled::Ready(Err(Rejection::NotFound))));
    assert!(matches!(step, OrStep::PollSecond));
    assert_eq!(r.path(), "math/sum");
    // the second alternative rejects too: the better rejection wins
    let step: OrStep<u8, u8> = fut.poll(&mut r, OrEvent::Second(Polled::Ready(Err(Rejection::MethodNotAllowed))));
    match step {
        OrStep::Ready(Err(e)) => assert_eq!(e.status(), 405),
        _ => panic!("expected the combined rejection"),
    }
}

#[test]
fn or_gives_the_first_when_it_matches() {
    let r0 = route("/");
    let mut r = route("/");
    let or = Or::new((), ());
    let mut fut = or.filter(&r0);
    let step: OrStep<u8, u8> = fut.poll(&mut r, OrEvent::First(Polled::Pending));
    assert!(matches!(step, OrStep::Pending));
    let step: OrStep<u8, u8> = fut.poll(&mut r, OrEvent::First(Polled::Ready(Ok(1))));
    assert!(matches!(step, OrStep::Ready(Ok(Either::A(1)))));
}

#[test]
fn and_joins_what_both_extract() {
    let and = And::new((), ());
    let mut fut = and.filter::<(u8, u16)>();
    let step: AndStep<(u8, u16, bool)> = fut.poll(AndEvent::<(u8, u16), (bool,)>::First(Polled::Ready(Ok((1, 2)))));
    assert!(matches!(step, AndStep::PollSecond));
    let step: AndStep<(u8, u16, bool)> = fut.poll(AndEvent::<(u8, u16), (bool,)>::Second(Polled::Ready(Ok((true,)))));
    match step {
        AndStep::Ready(Ok(t)) => assert_eq!(t, (1, 2, true)),
        _ => panic!("expected the joined values"),
    }
}

#[test]
fn and_ends_with_the_first_rejection() {
    let and = And::new((), ());
    let mut fut = and.filter::<(u8,)>();
    let step: AndStep<(u8, u8)> = fut.poll(AndEvent::<(u8,), (u8,)>::First(Polled::Ready(Err(Rejection::BadRequest))));
    assert!(matches!(step, AndStep::Ready(Err(Rejection::BadRequest))));
}

#[test]
fn and_then_calls_the_callback_with_the_values() {
    let f = AndThen::new((), ());
    let mut fut = f.filter();
    let step: ThenStep<u8, u16> = fut.poll(ThenEvent::First(Polled::Ready(Ok(5))));
    assert!(matches!(step, ThenStep::Call(5)));
    let step: ThenStep<u8, u16> = fut.poll(ThenEvent::Second(Polled::Ready(Ok(500))));
    assert!(matches!(step, ThenStep::Ready(Ok((500,)))));
}

#[test]
fn recover_turns_a_rejection_into_a_value() {
    let mut r = route("/a/b");
    let rec = Recover::new((), ());
    let mut fut = rec.filter(&r);
    assert!(path(&mut r, "a").is_ok());
    let step: RecoverStep<u8, u8> = fut.poll(&mut r, RecoverEvent::First(Polled::Ready(Err(Rejection::NotFound))));
    assert!(matches!(step, RecoverStep::Call(Rejection::NotFound)));
    assert_eq!(r.path(), "a/b");
    let step: RecoverStep<u8, u8> = fut.poll(&mut r, RecoverEvent::Second(Polled::Ready(Ok(9))));
    assert!(matches!(step, RecoverStep::Ready(Ok(Either::B((9,))))));
}

#[test]
fn tuples_combine_and_round_trip() {
    assert_eq!(combine((1u8, 2u16), ('c',)), (1u8, 2u16, 'c'));
    assert_eq!(combine((), (1u8,)), (1u8,));
    let h = (1u8, "x", true).hlist();
    let Product(a, Product(b, Product(c, ()))) = h;
    assert_eq!((a, b, c), (1u8, "x", true));
    assert_eq!((4u8, 5u8).hlist().flatten(), (4u8, 5u8));
}

#[test]
fn func_applies_a_function_to_a_tuple() {
    fn mad(a: i32, b: i32, c: i32) -> i32 {
        a * b + c
    }
    assert_eq!(Func::call(&mad, (10, 20, 30)), 230);
    let add = |a: u8, b: u8| a + b;
    assert_eq!(Func::call(&add, Product(1u8, Product(2u8, ()))), 3);
}
