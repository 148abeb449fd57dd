use muzzman_logger::record::{ElementKey, EntityId, LocationKey};
use muzzman_logger::tracker::{commands_for, Command, SessionEvent, SubscriptionTracker};
use muzzman_logger::Logger;

fn elem(uid: u64) -> ElementKey {
    ElementKey { uid, location: vec![0] }
}

fn eid(uid: u64) -> EntityId {
    EntityId::Element(elem(uid))
}

fn describe(c: &Command) -> String {
    match c {
        Command::Subscribe(EntityId::Element(e)) => format!("sub e{}", e.uid),
        Command::Unsubscribe(EntityId::Element(e)) => format!("unsub e{}", e.uid),
        Command::Subscribe(EntityId::Location(l)) => format!("sub l{:?}", l.path),
        Command::Unsubscribe(EntityId::Location(l)) => format!("unsub l{:?}", l.path),
    }
}

#[test]
fn new_new_destroyed_leaves_the_second() {
    let mut t = SubscriptionTracker::new();
    t.on_event(&SessionEvent::NewElement(elem(1)));
    t.on_event(&SessionEvent::NewElement(elem(2)));
    t.on_event(&SessionEvent::DestroyedElement(elem(1)));
    assert!(!t.is_subscribed(&eid(1)));
    assert!(t.is_subscribed(&eid(2)));
    assert_eq!(t.len(), 1);
}

#[test]
fn rename_unsubscribes_before_subscribing() {
    let mut logger = Logger::new();
    logger.notify(&SessionEvent::NewElement(elem(1)));
    let cmds = logger.notify(&SessionEvent::ElementIdChanged(elem(1), elem(3)));
    let seen: Vec<String> = cmds.iter().map(describe).collect();
    assert_eq!(seen, vec!["unsub e1", "sub e3"]);
    assert!(!logger.is_subscribed(&eid(1)));
    assert!(logger.is_subscribed(&eid(3)));
    assert_eq!(logger.subscription_count(), 1);
}

#[test]
fn location_events_follow_the_same_rules() {
    let mut t = SubscriptionTracker::new();
    let a = LocationKey { path: vec![1] };
    let b = LocationKey { path: vec![1, 2] };
    t.on_event(&SessionEvent::NewLocation(a.duplicate()));
    let cmds = t.on_event(&SessionEvent::LocationIdChanged(a.duplicate(), b.duplicate()));
    let seen: Vec<String> = cmds.iter().map(describe).collect();
    assert_eq!(seen, vec!["unsub l[1]", "sub l[1, 2]"]);
    assert!(t.is_subscribed(&EntityId::Location(b.duplicate())));
    assert!(!t.is_subscribed(&EntityId::Location(a.duplicate())));
    t.on_event(&SessionEvent::DestroyedLocation(b.duplicate()));
    assert_eq!(t.len(), 0);
}

#[test]
fn module_events_make_no_calls() {
    let mut t = SubscriptionTracker::new();
    t.on_event(&SessionEvent::NewElement(elem(1)));
    for ev in [
        SessionEvent::NewModule(1),
        SessionEvent::DestroyedModule(1),
        SessionEvent::ModuleIdChanged(1, 2),
    ] {
        assert!(commands_for(&ev).is_empty());
        assert!(t.on_event(&ev).is_empty());
    }
    assert_eq!(t.len(), 1);
    assert!(t.is_subscribed(&eid(1)));
}

#[test]
fn repeated_new_does_not_duplicate() {
    let mut t = SubscriptionTracker::new();
    t.on_event(&SessionEvent::NewElement(elem(1)));
    t.on_event(&SessionEvent::NewElement(elem(1)));
    assert_eq!(t.len(), 1);
    t.on_event(&SessionEvent::DestroyedElement(elem(1)));
    assert_eq!(t.len(), 0);
}

#[test]
fn destroying_an_unknown_entity_changes_nothing() {
    let mut logger = Logger::new();
    logger.notify(&SessionEvent::NewElement(elem(2)));
    let cmds = logger.notify(&SessionEvent::DestroyedElement(elem(9)));
    assert_eq!(cmds.len(), 1);
    assert_eq!(logger.subscription_count(), 1);
}

#[test]
fn confirmed_calls_alone_change_membership() {
    let mut logger = Logger::new();
    let cmds = commands_for(&SessionEvent::NewElement(elem(5)));
    assert_eq!(logger.subscription_count(), 0);
    logger.confirm(&cmds[0]);
    assert!(logger.is_subscribed(&eid(5)));
}

#[test]
fn same_compares_the_whole_identity() {
    let a = EntityId::Element(ElementKey { uid: 1, location: vec![0, 1] });
    let b = EntityId::Element(ElementKey { uid: 1, location: vec![0, 2] });
    let c = EntityId::Location(LocationKey { path: vec![0, 1] });
    assert!(a.same(&a.duplicate()));
    assert!(!a.same(&b));
    assert!(!a.same(&c));
}
