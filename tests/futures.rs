use std::sync::Arc;

use robots::actor_ref::ActorPath;
use robots::cell::Actor;
use robots::future::{
    Discard, Forward, Future, FutureError, FutureExtractor, FutureMessages, FutureState,
};

fn dest(name: &str) -> Arc<ActorPath> {
    ActorPath::new_local(name.to_owned())
}

#[test]
fn new_future_is_uncompleted() {
    let f: Future<u32, Forward<Arc<ActorPath>>> = Future::new(());
    assert!(!f.is_finished());
}

#[test]
fn step_before_value_is_queued_then_run_on_completion() {
    let mut f: Future<u32, Forward<Arc<ActorPath>>> = Future::new(());
    assert!(matches!(f.apply(Forward { destination: dest("/x") }), Ok(None)));
    assert!(!f.is_finished());
    let (step, v) = f.complete(7).unwrap().unwrap();
    assert_eq!(v, 7);
    assert_eq!(step.destination, dest("/x"));
    assert!(f.is_finished());
}

#[test]
fn completion_without_steps_keeps_value() {
    let mut f: Future<u32, Discard> = Future::new(());
    assert!(matches!(f.complete(5), Ok(None)));
    assert!(!f.is_finished());
    assert!(matches!(f.extract(), Ok(Some(5))));
    assert!(f.is_finished());
}

#[test]
fn second_completion_keeps_first_value() {
    let mut f: Future<u32, Discard> = Future::new(());
    assert!(f.complete(1).is_ok());
    assert_eq!(f.complete(2).err(), Some(FutureError::CompletedTwice));
    assert!(matches!(f.extract(), Ok(Some(1))));
    assert_eq!(f.complete(3).err(), Some(FutureError::CompletedTwice));
}

#[test]
fn discard_terminates_and_later_steps_are_refused() {
    let mut f: Future<u32, Discard> = Future::new(());
    assert!(f.complete(1).is_ok());
    assert!(matches!(f.apply(Discard), Ok(None)));
    assert!(f.is_finished());
    assert_eq!(f.apply(Discard).err(), Some(FutureError::AppliedAfterTermination));
    assert_eq!(f.extract().err(), Some(FutureError::AppliedAfterTermination));
}

#[test]
fn steps_after_extraction_are_refused() {
    let mut f: Future<u32, Forward<Arc<ActorPath>>> = Future::new(());
    assert!(f.complete(4).is_ok());
    assert!(f.apply(Forward { destination: dest("/d") }).unwrap().is_some());
    assert_eq!(
        f.receive(FutureMessages::Calculation(Forward { destination: dest("/d") })).err(),
        Some(FutureError::AppliedAfterExtraction)
    );
    assert_eq!(f.extract().err(), Some(FutureError::AppliedAfterExtraction));
}

#[test]
fn extracting_uncompleted_future_gives_nothing() {
    let mut f: Future<u32, Discard> = Future::new(());
    assert!(f.apply(Discard).is_ok());
    assert!(matches!(f.extract(), Ok(None)));
    assert!(f.is_finished());
    assert_eq!(f.complete(9).err(), Some(FutureError::CompletedTwice));
}

#[test]
fn queued_steps_stop_at_the_first_that_ends_the_chain() {
    let mut f: Future<u32, Discard> = Future::new(());
    assert!(f.apply(Discard).is_ok());
    assert!(f.apply(Discard).is_ok());
    assert!(matches!(f.complete(3), Ok(None)));
    assert!(f.is_finished());
    let s: FutureState<u32> = FutureState::Terminated;
    assert!(matches!(s, FutureState::Terminated));
}

#[test]
fn extractor_delivers_once() {
    let mut x: FutureExtractor<u32> = FutureExtractor::new(dest("/user/future"));
    let (future, sub) = x.pre_start(dest("/user/extractor"));
    assert_eq!(future, dest("/user/future"));
    match sub {
        FutureMessages::Calculation(step) => assert_eq!(step.destination, dest("/user/extractor")),
        FutureMessages::Complete(_) => panic!("the subscription is a step"),
    }
    assert_eq!(x.receive(42).unwrap(), Some(42));
    assert_eq!(x.receive(43).unwrap(), None);
}
