use ruactor::PropsOption;

#[test]
fn props_option_default_values() {
    let o = PropsOption::default();
    assert_eq!(o.dedicated_thread(), None);
    assert!(!o.graceful_stop());
    assert_eq!(o.throughput(), 500);
    assert_eq!(o.bounded(), None);
    assert!(!o.is_dedicated());
    assert_eq!(o.worker_threads(), None);
}

#[test]
fn props_option_builders_change_one_setting() {
    let o = PropsOption::default().with_graceful_stop().with_dedicated_thread(4);
    assert_eq!(o.dedicated_thread(), Some(4));
    assert!(o.graceful_stop());
    assert_eq!(o.throughput(), 500);
    assert_eq!(o.bounded(), None);

    let o = o.with_throughput(10).with_bounded_queue(3);
    assert_eq!(o.dedicated_thread(), Some(4));
    assert!(o.graceful_stop());
    assert_eq!(o.throughput(), 10);
    assert_eq!(o.bounded(), Some(3));
}

#[test]
fn props_option_builders_commute() {
    let a = PropsOption::default().with_graceful_stop().with_dedicated_thread(4);
    let b = PropsOption::default().with_dedicated_thread(4).with_graceful_stop();
    assert_eq!(a.dedicated_thread(), b.dedicated_thread());
    assert_eq!(a.graceful_stop(), b.graceful_stop());
    assert_eq!(a.throughput(), b.throughput());
    assert_eq!(a.bounded(), b.bounded());
}

#[test]
fn props_option_worker_threads_at_least_two() {
    assert_eq!(PropsOption::default().with_dedicated_thread(0).worker_threads(), Some(2));
    assert_eq!(PropsOption::default().with_dedicated_thread(1).worker_threads(), Some(2));
    assert_eq!(PropsOption::default().with_dedicated_thread(2).worker_threads(), Some(2));
    assert_eq!(PropsOption::default().with_dedicated_thread(5).worker_threads(), Some(5));
    assert!(PropsOption::default().with_dedicated_thread(5).is_dedicated());
}
