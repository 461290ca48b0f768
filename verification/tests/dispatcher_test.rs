use ruactor::{
    ActorContext, ActorPath, AutoMessage, Delivery, Dispatcher, Handles, InternalMessage,
    InternalStep, Message, NextStep,
};

struct Kinds;

impl Handles for Kinds {
    type Actor = &'static str;
    type Child = u32;
    type Parent = u8;
    type Watcher = u16;
    type Scheduled = u64;
}

type D = Dispatcher<i32, Kinds>;

fn started(now: u64) -> D {
    let mut d = D::new(Some(7), now);
    d.create_context();
    assert_eq!(d.put_actor(Some("idle")), None);
    d
}

fn child_path(name: &str) -> ActorPath {
    ActorPath::root(&"parent".to_string()).child(&name.to_string())
}

fn with_context<R>(d: &mut D, f: impl FnOnce(&mut ActorContext<i32, Kinds>) -> R) -> R {
    let mut c = d.take_context().expect("context");
    let r = f(&mut c);
    d.put_context(Some(c));
    r
}

#[test]
fn dispatcher_watchers_answered_at_termination() {
    let mut d = started(0);
    assert!(matches!(d.on_internal_message(false, InternalMessage::Watch(1)), InternalStep::Nothing));
    assert!(matches!(d.on_internal_message(false, InternalMessage::Watch(2)), InternalStep::Nothing));
    assert!(matches!(d.on_internal_message(false, InternalMessage::Created), InternalStep::Nothing));
    assert!(matches!(d.on_internal_message(false, InternalMessage::Terminate), InternalStep::CloseAndTerminate));
    assert_eq!(d.take_actor(), Some("idle"));
    let (parent, watchers) = d.finish_terminate();
    assert_eq!(parent, Some(7));
    assert_eq!(watchers, vec![1, 2]);
    assert!(!d.has_context());
    assert!(!d.has_context());
    let (parent, watchers) = d.finish_terminate();
    assert_eq!(parent, None);
    assert!(watchers.is_empty());
}

#[test]
fn dispatcher_watch_after_close_is_answered_at_once() {
    let mut d = started(0);
    match d.on_internal_message(true, InternalMessage::Watch(9)) {
        InternalStep::ReplyWatcher(w) => assert_eq!(w, 9),
        _ => panic!("watcher not answered"),
    }
    let (_, watchers) = d.finish_terminate();
    assert!(watchers.is_empty());
}

#[test]
fn dispatcher_waits_for_children() {
    let mut d = started(0);
    with_context(&mut d, |c| {
        c.add_child("a".into(), 1);
        c.add_child("b".into(), 2);
    });
    assert!(matches!(d.on_internal_message(false, InternalMessage::Terminate), InternalStep::CloseAndStopChildren));
    assert!(with_context(&mut d, |c| c.is_suspended()));
    assert!(matches!(
        d.on_internal_message(true, InternalMessage::ChildTerminate(child_path("b"))),
        InternalStep::Nothing
    ));
    assert!(matches!(
        d.on_internal_message(true, InternalMessage::ChildTerminate(child_path("zz"))),
        InternalStep::Nothing
    ));
    assert!(matches!(
        d.on_internal_message(true, InternalMessage::ChildTerminate(child_path("a"))),
        InternalStep::Terminate
    ));
    assert!(!with_context(&mut d, |c| c.is_suspended()));
    assert_eq!(with_context(&mut d, |c| c.num_children()), 0);
}

#[test]
fn dispatcher_child_terminate_without_stop_only_forgets_child() {
    let mut d = started(0);
    with_context(&mut d, |c| {
        c.add_child("a".into(), 1);
    });
    assert!(matches!(
        d.on_internal_message(false, InternalMessage::ChildTerminate(child_path("a"))),
        InternalStep::Nothing
    ));
    assert_eq!(with_context(&mut d, |c| c.num_children()), 0);
}

#[test]
fn dispatcher_routes_messages() {
    let mut d = D::new(None, 0);
    d.create_context();
    assert!(matches!(d.on_message(Message::User(1), 5, 0), Delivery::Skip));
    d.put_actor(Some("idle"));
    assert!(matches!(d.on_message(Message::User(1), 5, 0), Delivery::Deliver(1)));
    assert!(matches!(
        d.on_message(Message::AutoMessage(AutoMessage::PoisonPill), 5, 0),
        Delivery::StopSelf
    ));
    assert!(matches!(d.on_message(Message::ReceiveTimeout(10), 10, 0), Delivery::Skip));
}

#[test]
fn dispatcher_drops_stale_timer_messages() {
    let mut d = started(0);
    let name = String::from("tick");
    let g0 = with_context(&mut d, |c| c.start_single_timer(name.clone(), |g| g as u64));
    let g1 = with_context(&mut d, |c| c.start_single_timer(name.clone(), |g| g as u64));
    assert!(matches!(d.on_message(Message::Timer(name.clone(), g0, 1), 0, 0), Delivery::Skip));
    assert!(matches!(d.on_message(Message::Timer(name.clone(), g1, 2), 0, 0), Delivery::Deliver(2)));
    with_context(&mut d, |c| c.cancel_timer(&name));
    assert!(matches!(d.on_message(Message::Timer(name.clone(), g1, 3), 0, 0), Delivery::Skip));
}

#[test]
fn dispatcher_receive_timeout_decisions() {
    let mut d = started(0);
    with_context(&mut d, |c| c.set_receive_timeout(100, 0));
    assert!(matches!(d.on_message(Message::User(1), 50, 0), Delivery::Deliver(1)));
    assert!(matches!(d.on_message(Message::ReceiveTimeout(120), 120, 0), Delivery::Reschedule(30)));
    assert!(matches!(d.on_message(Message::ReceiveTimeout(120), 170, 0), Delivery::Reschedule(0)));
    assert!(matches!(d.on_message(Message::ReceiveTimeout(150), 150, 0), Delivery::ReceiveTimeout));
    assert!(matches!(d.on_message(Message::ReceiveTimeout(200), 200, 1), Delivery::Reschedule(100)));
    assert!(matches!(d.on_message(Message::ReceiveTimeout(40), 200, 0), Delivery::Reschedule(100)));
}

#[test]
fn dispatcher_timestamp_only_moves_with_receive_timeout() {
    let mut d = started(0);
    assert!(matches!(d.on_message(Message::User(1), 500, 0), Delivery::Deliver(1)));
    with_context(&mut d, |c| c.set_receive_timeout(100, 0));
    assert!(matches!(d.on_message(Message::ReceiveTimeout(150), 150, 0), Delivery::ReceiveTimeout));
}

#[test]
fn dispatcher_next_message_order() {
    let mut d = D::new(None, 0);
    assert!(matches!(d.next_message(false), NextStep::Stop));
    d.create_context();
    assert!(matches!(d.next_message(false), NextStep::PollQueue));
    with_context(&mut d, |c| {
        c.stash(4);
        c.stash(5);
        c.unstash_all();
    });
    assert!(matches!(d.next_message(true), NextStep::Stop));
    assert!(matches!(d.next_message(false), NextStep::Deliver(Message::User(4))));
    assert!(matches!(d.next_message(false), NextStep::Deliver(Message::User(5))));
    assert!(matches!(d.next_message(false), NextStep::PollQueue));
}

#[test]
fn dispatcher_check_become() {
    let mut d = started(0);
    assert_eq!(d.check_become(), None);
    with_context(&mut d, |c| c.transit("working"));
    assert_eq!(d.check_become(), Some(Some("idle")));
    assert_eq!(d.take_actor(), Some("working"));
    assert_eq!(d.check_become(), None);
}

#[test]
fn dispatcher_create_context_keeps_existing() {
    let mut d = started(0);
    with_context(&mut d, |c| c.stash(1));
    d.create_context();
    with_context(&mut d, |c| c.unstash_all());
    assert!(matches!(d.next_message(false), NextStep::Deliver(Message::User(1))));
}
