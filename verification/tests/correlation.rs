use kameloso::correlation::HandlerJar;
use tokio::sync::oneshot;

#[test]
fn ids_start_at_zero_and_strictly_increase() {
    let mut jar = HandlerJar::new();
    assert_eq!(jar.next_request_id(), 0);
    assert_eq!(jar.next_request_id(), 1);
    assert_eq!(jar.next_request_id(), 2);
}

#[test]
fn a_registered_handler_pops_exactly_once() {
    let mut jar = HandlerJar::new();
    let id = jar.next_request_id();
    let mut rx = jar.handler(id);

    let tx = jar.pop_handler(id).expect("the handler was registered");
    assert!(jar.pop_handler(id).is_none());

    tx.send(Ok("null".to_owned())).unwrap();
    assert_eq!(rx.try_recv().unwrap(), Ok("null".to_owned()));
}

#[test]
fn resolve_fires_the_matching_waiter() {
    let mut jar = HandlerJar::new();
    let id = jar.next_request_id();
    let mut rx = jar.handler(id);

    assert!(jar.resolve(id, Err("no such command".to_owned())));
    assert_eq!(rx.try_recv().unwrap(), Err("no such command".to_owned()));
}

#[test]
fn resolve_without_a_waiter_reports_and_harms_nothing() {
    let mut jar = HandlerJar::new();
    let id = jar.next_request_id();
    let mut rx = jar.handler(id);

    assert!(!jar.resolve(id + 1, Ok("null".to_owned())));
    assert!(rx.try_recv().is_err());

    assert!(jar.resolve(id, Ok("null".to_owned())));
    assert_eq!(rx.try_recv().unwrap(), Ok("null".to_owned()));
}

#[test]
fn register_keeps_the_given_destination() {
    let mut jar = HandlerJar::new();
    let id = jar.next_request_id();
    let (tx, mut rx) = oneshot::channel();
    jar.register(id, tx);
    assert!(jar.resolve(id, Ok("7".to_owned())));
    assert_eq!(rx.try_recv().unwrap(), Ok("7".to_owned()));
}
