use ruactor::{CrossbeamSegQueue, InternalMessage, Message, MailboxState, RunBudget};

#[test]
fn mailbox_one_run_at_a_time() {
    let mut m = MailboxState::new();
    assert!(m.schedule());
    assert!(!m.schedule());
    assert!(!m.finish_run(0, 0));
    assert!(m.schedule());
}

#[test]
fn mailbox_reschedules_for_waiting_messages() {
    let mut m = MailboxState::new();
    assert!(m.schedule());
    assert!(m.finish_run(3, 0));
    assert!(m.schedule());
    assert!(m.finish_run(0, 1));
    m.close();
    assert!(m.is_terminated());
    assert!(m.schedule());
    assert!(!m.finish_run(3, 0));
    assert!(m.schedule());
    assert!(m.finish_run(3, 2));
    assert!(m.is_terminated());
}

#[test]
fn run_budget_limits_shared_runs() {
    let mut b = RunBudget::new(3, false);
    assert!(b.after_message());
    assert!(b.after_message());
    assert!(!b.after_message());

    let mut b = RunBudget::new(0, false);
    assert!(!b.after_message());

    let mut b = RunBudget::new(1, true);
    for _ in 0..10 {
        assert!(b.after_message());
    }
}

#[test]
fn message_into_user() {
    let m: Message<String> = Message::User("hello".into());
    assert_eq!(m.into_user(), "hello");
}

#[test]
fn mailbox_send_through_unbounded_queue() {
    let mut m = MailboxState::new();
    let mut q: CrossbeamSegQueue<u32> = CrossbeamSegQueue::unbounded(false);
    assert!(m.send(&q, Message::User(1)));
    assert!(!m.send(&q, Message::User(2)));
    assert_eq!(q.len(), 2);
    match m.try_send(&q, Message::User(3)) {
        Ok(start) => assert!(!start),
        Err(_) => panic!("unbounded queue refused"),
    }
    assert!(matches!(q.pop(), Some(Message::User(1))));
    assert!(matches!(q.pop(), Some(Message::User(2))));
    assert!(matches!(q.pop(), Some(Message::User(3))));
    assert!(q.pop().is_none());
}

#[test]
fn mailbox_full_bounded_queue_hands_message_back() {
    let mut m = MailboxState::new();
    let q: CrossbeamSegQueue<u32> = CrossbeamSegQueue::bounded(false, 1);
    let sender = q.sender();
    match m.try_send(&sender, Message::User(1)) {
        Ok(start) => assert!(start),
        Err(_) => panic!("empty queue refused"),
    }
    match m.try_send(&sender, Message::User(2)) {
        Err(Message::User(v)) => assert_eq!(v, 2),
        _ => panic!("full queue took the message"),
    }
    assert!(!m.send(&sender, Message::User(3)));
    assert_eq!(q.len(), 1);
}

#[test]
fn mailbox_closed_refuses_messages() {
    let mut m = MailboxState::new();
    let q: CrossbeamSegQueue<u32> = CrossbeamSegQueue::unbounded(false);
    m.close();
    assert!(!m.send(&q, Message::User(1)));
    match m.try_send(&q, Message::User(2)) {
        Err(Message::User(v)) => assert_eq!(v, 2),
        _ => panic!("closed mailbox took the message"),
    }
    assert_eq!(q.len(), 0);
    assert!(m.schedule());
}

#[test]
fn mailbox_internal_messages_always_go_through() {
    let mut m = MailboxState::new();
    let q: crossbeam::queue::SegQueue<InternalMessage<()>> = crossbeam::queue::SegQueue::new();
    m.close();
    assert!(m.send_internal(&q, InternalMessage::Terminate));
    assert!(!m.send_internal(&q, InternalMessage::Created));
    assert_eq!(q.len(), 2);
}

#[test]
fn queue_sender_shares_the_queue() {
    let mut q: CrossbeamSegQueue<u32> = CrossbeamSegQueue::unbounded(false);
    let s = q.sender();
    assert!(s.push(Message::User(7)).is_ok());
    assert!(matches!(q.pop(), Some(Message::User(7))));
    assert_eq!(s.len(), 0);
}

#[test]
fn queue_from_option() {
    let o = ruactor::PropsOption::default().with_bounded_queue(1);
    let q: CrossbeamSegQueue<u32> = CrossbeamSegQueue::from_option(&o);
    assert!(q.push(Message::User(1)).is_ok());
    assert!(matches!(q.push(Message::User(2)), Err(Message::User(2))));

    let q: CrossbeamSegQueue<u32> = CrossbeamSegQueue::from_option(&ruactor::PropsOption::default());
    for i in 0..100 {
        assert!(q.push(Message::User(i)).is_ok());
    }
    assert_eq!(q.len(), 100);
}
