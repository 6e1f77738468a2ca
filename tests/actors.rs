use std::sync::Arc;

use robots::actor_ref::{ActorPath, ActorRef, Cthulhu};
use robots::cell::{Actor, ActorCell, Handled};
use robots::counter::{InternalState, InternalStateMessage, Report, Res};
use robots::future::{Forward, Future, FutureError, FutureExtractor, FutureMessages};

type Counter = ActorRef<InternalState>;

fn counter_at(path: &str) -> Counter {
    ActorRef::with_cell(ActorCell::new(()), ActorPath::new_local(path.to_owned()))
}

/// Handles every waiting item, returning the reports of the user messages.
fn drain(actor: &mut Counter) -> Vec<(Report, Arc<ActorPath>)> {
    let mut out = Vec::new();
    loop {
        match actor.handle().unwrap() {
            Handled::Idle => return out,
            Handled::Answered(report, sender) => out.push((report, sender)),
            _ => {}
        }
    }
}

/// The first signal the counter sends to its observer, if any.
fn first_signal(reports: &[(Report, Arc<ActorPath>)]) -> Option<Res> {
    for (r, _) in reports {
        if r.out_of_order {
            return Some(Res::OutOfOrder);
        }
        if r.reached_target {
            return Some(Res::Reached);
        }
    }
    None
}

/// Asks the target with a query: the answer goes through a future to an
/// extractor, which hands it to the caller.
fn ask(target: &mut Counter, query: InternalStateMessage, future_name: &str) -> u32 {
    let future_path = ActorPath::new_local(format!("/user/{}", future_name));
    let mut future: Future<u32, Forward<Arc<ActorPath>>> = Future::new(());
    let mut extractor: FutureExtractor<u32> = FutureExtractor::new(future_path.clone());
    let me = ActorPath::new_local(format!("/user/{}_extractor", future_name));
    let (_, subscription) = extractor.pre_start(me.clone());
    assert!(matches!(future.receive(subscription), Ok(None)));

    target.receive(query, future_path.clone()).unwrap();
    let mut answer = None;
    for (report, sender) in drain(target) {
        if sender == future_path {
            answer = report.answer;
        }
    }
    let handoff = future.receive(FutureMessages::Complete(answer.unwrap())).unwrap();
    let (step, value) = handoff.unwrap();
    assert_eq!(step.destination, me);
    extractor.receive(value).unwrap().unwrap()
}

#[test]
fn read_messages_in_order() {
    let sender = counter_at("/user/sender");
    let mut receiver = counter_at("/user/receiver");
    for i in 1..1001 {
        sender.tell_to(&mut receiver, InternalStateMessage::Store(i as u32)).unwrap();
    }
    let reports = drain(&mut receiver);
    assert_eq!(reports.len(), 1000);
    assert_eq!(Some(Res::Reached), first_signal(&reports));
}

#[test]
fn recover_from_panic() {
    let requester = counter_at("/user/sender");
    let mut answerer = counter_at("/user/receiver");

    requester.tell_to(&mut answerer, InternalStateMessage::Store(10)).unwrap();
    let res: u32 = ask(&mut answerer, InternalStateMessage::Get, "future_1");
    assert_eq!(10u32, res);

    requester.tell_to(&mut answerer, InternalStateMessage::Panic).unwrap();
    let res: u32 = ask(&mut answerer, InternalStateMessage::Get, "future_2");
    assert_eq!(0u32, res);
}

#[test]
fn resolve_name_real_path() {
    let mut registry = Cthulhu::new();
    let answerer = ActorPath::new_local("/user/answerer".to_owned());
    let requester = ActorPath::new_local("/user/sender".to_owned());
    registry.register(answerer);
    registry.register(requester.clone());
    let res = registry.resolve(&"/user/sender".to_owned());
    assert_eq!(requester, res.unwrap());
}

#[test]
fn resolve_name_fake_path() {
    let mut registry = Cthulhu::new();
    registry.register(ActorPath::new_local("/user/answerer".to_owned()));
    let res = registry.resolve(&"/foo/bar".to_owned());
    match res {
        None => {}
        Some(_) => panic!("The name resolver gave an ActorRef when he should not."),
    };
}

#[test]
fn ask_answer_twice() {
    // An actor that answers an ask twice: the first answer completes the
    // future, the second is refused and the value kept.
    let mut future: Future<(), Forward<Arc<ActorPath>>> = Future::new(());
    assert!(matches!(future.receive(FutureMessages::Complete(())), Ok(None)));
    assert_eq!(
        Some(FutureError::CompletedTwice),
        future.receive(FutureMessages::Complete(())).err()
    );
    assert!(matches!(future.extract(), Ok(Some(()))));
}
