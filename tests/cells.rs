use std::sync::Arc;

use robots::actor_ref::{ActorPath, ActorRef, Cthulhu, DeliveryError};
use robots::cell::{Actor, ActorCell, Delivery, Envelope, Handled, Mailbox, SystemMessage};
use robots::counter::{InternalState, InternalStateMessage, Report};

fn p(name: &str) -> Arc<ActorPath> {
    ActorPath::new_local(name.to_owned())
}

#[test]
fn mailbox_serves_control_messages_first_then_fifo() {
    let mut m: Mailbox<u32, Arc<ActorPath>> = Mailbox::new();
    assert!(m.is_empty());
    m.push_user(Envelope { message: 1, sender: p("/a") });
    m.push_user(Envelope { message: 2, sender: p("/b") });
    m.push_system(SystemMessage::Restart);
    m.push_user(Envelope { message: 3, sender: p("/a") });
    assert!(matches!(m.next(), Some(Delivery::System(SystemMessage::Restart))));
    let mut got = Vec::new();
    while let Some(d) = m.next() {
        match d {
            Delivery::User(e) => got.push(e.message),
            Delivery::System(_) => panic!("only one control message was queued"),
        }
    }
    assert_eq!(got, vec![1, 2, 3]);
    assert!(m.is_empty());
}

#[test]
fn store_panic_get_answers_fresh_state() {
    let mut cell: ActorCell<InternalState, Arc<ActorPath>> = ActorCell::new(());
    cell.receive_message(InternalStateMessage::Store(10), p("/s"));
    cell.receive_message(InternalStateMessage::Panic, p("/s"));
    cell.receive_message(InternalStateMessage::Get, p("/q"));
    assert!(matches!(cell.handle_envelope(), Handled::Answered(_, _)));
    match cell.handle_envelope() {
        Handled::Recovered(r) => assert_eq!(r, Report { answer: None, out_of_order: false, reached_target: false }),
        _ => panic!("the panic was not contained"),
    }
    match cell.handle_envelope() {
        Handled::Answered(r, s) => {
            assert_eq!(r.answer, Some(0));
            assert_eq!(s, p("/q"));
        }
        _ => panic!("the query was lost"),
    }
    assert!(matches!(cell.handle_envelope(), Handled::Idle));
}

#[test]
fn restart_message_rebuilds_state() {
    let mut r: ActorRef<InternalState> = ActorRef::with_cell(ActorCell::new(()), p("/user/c"));
    r.receive(InternalStateMessage::Store(5), p("/s")).unwrap();
    r.receive(InternalStateMessage::Get, p("/s")).unwrap();
    r.receive_system_message(SystemMessage::Start).unwrap();
    assert!(matches!(r.handle().unwrap(), Handled::Started));
    assert!(matches!(r.handle().unwrap(), Handled::Answered(_, _)));
    r.receive_system_message(SystemMessage::Restart).unwrap();
    assert!(matches!(r.handle().unwrap(), Handled::Restarted(_)));
    match r.handle().unwrap() {
        Handled::Answered(rep, _) => assert_eq!(rep.answer, Some(0)),
        _ => panic!("the query was lost"),
    }
    assert_eq!(*r.path(), *p("/user/c"));
}

#[test]
fn out_of_order_and_duplicate_values_are_reported() {
    let mut c = InternalState::new(());
    assert!(!c.receive(InternalStateMessage::Store(3)).unwrap().out_of_order);
    assert!(c.receive(InternalStateMessage::Store(3)).unwrap().out_of_order);
    assert!(c.receive(InternalStateMessage::Store(2)).unwrap().out_of_order);
    assert_eq!(c.last, 3);
    let r = c.receive(InternalStateMessage::Store(1000)).unwrap();
    assert!(r.reached_target && !r.out_of_order);
    let r = c.receive(InternalStateMessage::Store(1000)).unwrap();
    assert!(r.reached_target && r.out_of_order);
    assert!(c.receive(InternalStateMessage::Panic).is_err());
}

#[test]
fn distant_reference_refuses_delivery() {
    let mut d: ActorRef<InternalState> =
        ActorRef::new_distant(ActorPath::new_distant("/user/x".to_owned(), "127.0.0.1:1".to_owned()));
    assert_eq!(d.receive(InternalStateMessage::Get, p("/s")).err(), Some(DeliveryError::Distant));
    assert_eq!(d.receive_system_message(SystemMessage::Start).err(), Some(DeliveryError::Distant));
    assert!(matches!(d.handle(), Err(DeliveryError::Distant)));
    let mut local: ActorRef<InternalState> = ActorRef::with_cell(ActorCell::new(()), p("/user/l"));
    assert_eq!(d.tell_to(&mut local, InternalStateMessage::Get).err(), Some(DeliveryError::DistantSender));
    assert_eq!(local.tell_to(&mut d, InternalStateMessage::Get).err(), Some(DeliveryError::Distant));
}

#[test]
fn root_registry_reference_sits_at_slash() {
    let mut root: ActorRef<InternalState> = ActorRef::with_cthulhu(Cthulhu::new());
    assert_eq!(root.path().logical_path(), "/");
    assert!(root.receive(InternalStateMessage::Get, p("/s")).is_ok());
    assert!(matches!(root.handle(), Ok(Handled::Idle)));
}

#[test]
fn registry_resolves_oldest_match() {
    let mut reg = Cthulhu::new();
    let a = ActorPath::new_local("/user/a".to_owned());
    let a2 = ActorPath::new_distant("/user/a".to_owned(), "h:1".to_owned());
    reg.register(a2.clone());
    reg.register(a);
    assert_eq!(reg.resolve(&"/user/a".to_owned()), Some(a2));
    assert_eq!(reg.resolve(&"/user/b".to_owned()), None);
}
