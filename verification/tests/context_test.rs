use ruactor::{ActorContext, Handles};

struct Kinds;

impl Handles for Kinds {
    type Actor = &'static str;
    type Child = u32;
    type Parent = u8;
    type Watcher = u16;
    type Scheduled = u64;
}

type Ctx = ActorContext<i32, Kinds>;

#[test]
fn context_unstash_keeps_order() {
    let mut c = Ctx::new();
    c.stash(1);
    c.stash(2);
    c.unstash_all();
    c.stash(3);
    c.unstash_all();
    assert_eq!(c.pop_unstashed(), Some(1));
    assert_eq!(c.pop_unstashed(), Some(2));
    assert_eq!(c.pop_unstashed(), Some(3));
    assert_eq!(c.pop_unstashed(), None);
}

#[test]
fn context_stash_waits_for_unstash() {
    let mut c = Ctx::new();
    c.stash(7);
    assert_eq!(c.pop_unstashed(), None);
    c.unstash_all();
    assert_eq!(c.pop_unstashed(), Some(7));
}

#[test]
fn context_timer_generations() {
    let mut c = Ctx::new();
    let name = String::from("alarm");
    let g0 = c.start_single_timer(name.clone(), |g| 1000 + g as u64);
    assert_eq!(g0, 0);
    assert!(c.is_timer_current(&name, 0));
    let g1 = c.start_single_timer(name.clone(), |g| 1000 + g as u64);
    assert_eq!(g1, 1);
    assert!(!c.is_timer_current(&name, 0));
    assert!(c.is_timer_current(&name, 1));
    let other = String::from("other");
    let g2 = c.start_single_timer(other.clone(), |g| g as u64);
    assert_eq!(g2, 2);
    assert!(c.is_timer_current(&name, 1));
    c.cancel_timer(&name);
    assert!(!c.is_timer_current(&name, 1));
    assert!(c.is_timer_current(&other, 2));
}

#[test]
fn context_timer_generation_wraps() {
    let mut c = Ctx::new();
    for _ in 0..3 {
        c.next_timer_gen();
    }
    assert_eq!(c.next_timer_gen(), 3);
}

#[test]
fn context_random_names() {
    let mut c = Ctx::new();
    assert_eq!(c.random_name(), "$a");
    assert_eq!(c.random_name(), "$b");
    for _ in 2..64 {
        c.random_name();
    }
    assert_eq!(c.random_name(), "$ab");
}

#[test]
fn context_children() {
    let mut c = Ctx::new();
    assert_eq!(c.num_children(), 0);
    assert_eq!(c.add_child("a".into(), 1), None);
    assert_eq!(c.add_child("b".into(), 2), None);
    assert_eq!(c.num_children(), 2);
    assert_eq!(c.get_child(&"a".into()), Some(&1));
    assert_eq!(c.add_child("a".into(), 3), Some(1));
    assert_eq!(c.get_child(&"a".into()), Some(&3));
    assert_eq!(c.num_children(), 2);
    let mut names = c.child_names();
    names.sort();
    assert_eq!(names, vec!["a".to_string(), "b".to_string()]);
    assert_eq!(c.remove_child(&"a".into()), Some(3));
    assert_eq!(c.remove_child(&"a".into()), None);
    assert_eq!(c.get_child(&"a".into()), None);
    assert_eq!(c.num_children(), 1);
}

#[test]
fn context_transit_and_receive_timeout() {
    let mut c = Ctx::new();
    assert_eq!(c.take_transit(), None);
    c.transit("working");
    c.transit("idle");
    assert_eq!(c.take_transit(), Some("idle"));
    assert_eq!(c.take_transit(), None);

    assert_eq!(c.receive_timeout(), None);
    c.set_receive_timeout(1_000, 9);
    assert_eq!(c.receive_timeout(), Some(1_000));
    c.schedule_receive_timeout(10);
    c.cancel_receive_timeout();
    assert_eq!(c.receive_timeout(), None);

    assert!(!c.is_suspended());
    c.suspend_for_children();
    assert!(c.is_suspended());
    c.resume();
    assert!(!c.is_suspended());
}

#[test]
fn context_random_names_never_repeat() {
    let mut c = Ctx::new();
    let mut seen = std::collections::HashSet::new();
    for _ in 0..10_000 {
        assert!(seen.insert(c.random_name()));
    }
}

#[test]
fn context_get_or_create_child_makes_once() {
    let mut c = Ctx::new();
    assert!(c.get_or_create_child("a".into(), || 1));
    let mut called = false;
    assert!(!c.get_or_create_child("a".into(), || {
        called = true;
        2
    }));
    assert!(!called);
    assert_eq!(c.get_child(&"a".into()), Some(&1));
    assert_eq!(c.num_children(), 1);
}
