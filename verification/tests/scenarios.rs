//! End-to-end scenarios over the driver machine and the coalescing
//! signal together: one simulated task per system, stepped by hand.

use dispatcher::driver::{Action, Driver, Event};
use dispatcher::error::Error;
use dispatcher::signal::Signal;

#[test]
fn scenario_producer_publishes_once_consumer_runs_once() {
    // P has no dependencies; C depends on P.
    let mut p_signal = Signal::new();
    let mut p = Driver::new(0);
    let mut c = Driver::new(1);
    let mut c_cursor = p_signal.subscribe();

    // P executes and publishes once.
    assert_eq!(p.next_action(), Action::Execute);
    assert_eq!(p.step::<String>(Event::RunSucceeded), None);
    assert_eq!(p.next_action(), Action::Publish);
    p_signal.publish();
    assert_eq!(p.step::<String>(Event::PublishSucceeded), None);

    // C's wait resolves exactly once, then C executes.
    assert_eq!(c.next_action(), Action::WaitForDependency);
    assert!(c_cursor.check(&p_signal));
    assert_eq!(c.step::<String>(Event::DependencyChanged), None);
    assert_eq!(c.next_action(), Action::Execute);
    // No second resolution is pending.
    assert!(!c_cursor.check(&p_signal));
}

#[test]
fn scenario_three_publishes_before_consumer_checks() {
    // P publishes three times in rapid succession before C checks.
    let mut p_signal = Signal::new();
    let mut c = Driver::new(1);
    let mut c_cursor = p_signal.subscribe();

    p_signal.publish();
    p_signal.publish();
    p_signal.publish();

    // C's wait still resolves exactly once.
    assert!(c_cursor.check(&p_signal));
    assert_eq!(c.step::<String>(Event::DependencyChanged), None);
    assert_eq!(c.next_action(), Action::Execute);
    assert!(!c_cursor.check(&p_signal));
}

#[test]
fn scenario_independent_chains_do_not_block_each_other() {
    // Two chains sharing no dependency edges: a -> b and x -> y.
    let mut a_signal = Signal::new();
    let mut x_signal = Signal::new();
    let mut a = Driver::new(0);
    let mut b = Driver::new(1);
    let mut x = Driver::new(0);
    let mut y = Driver::new(1);
    let mut b_cursor = a_signal.subscribe();
    let mut y_cursor = x_signal.subscribe();

    // The first chain completes two full iterations while the second has
    // made no progress at all.
    for _ in 0..2 {
        assert_eq!(a.step::<String>(Event::RunSucceeded), None);
        a_signal.publish();
        assert_eq!(a.step::<String>(Event::PublishSucceeded), None);
        assert!(b_cursor.check(&a_signal));
        assert_eq!(b.step::<String>(Event::DependencyChanged), None);
        assert_eq!(b.next_action(), Action::Execute);
        assert_eq!(b.step::<String>(Event::RunSucceeded), None);
        assert_eq!(b.step::<String>(Event::PublishSucceeded), None);
    }

    // The second chain is unaffected and proceeds on its own.
    assert_eq!(x.next_action(), Action::Execute);
    assert_eq!(x.step::<String>(Event::RunSucceeded), None);
    x_signal.publish();
    assert_eq!(x.step::<String>(Event::PublishSucceeded), None);
    assert!(y_cursor.check(&x_signal));
    assert_eq!(y.step::<String>(Event::DependencyChanged), None);
    assert_eq!(y.next_action(), Action::Execute);
}

#[test]
fn scenario_consumer_waits_for_both_producers() {
    // C depends on both producers; its wait resolves only after BOTH
    // have published at least once since C's last observation.
    let mut first_signal = Signal::new();
    let mut second_signal = Signal::new();
    let mut c = Driver::new(2);
    let mut first_cursor = first_signal.subscribe();
    let mut second_cursor = second_signal.subscribe();

    // Only the first producer has published: C keeps waiting.
    first_signal.publish();
    assert!(first_cursor.check(&first_signal));
    assert_eq!(c.step::<String>(Event::DependencyChanged), None);
    assert_eq!(c.next_action(), Action::WaitForDependency);
    assert!(!second_cursor.has_changed(&second_signal));

    // After the second one publishes too, the barrier opens.
    second_signal.publish();
    assert!(second_cursor.check(&second_signal));
    assert_eq!(c.step::<String>(Event::DependencyChanged), None);
    assert_eq!(c.next_action(), Action::Execute);
}

#[test]
fn scenario_domain_error_reaches_the_task_verbatim() {
    // A system's execution reports the domain error "X": the owning task
    // resolves to a run-error carrying "X" unchanged.
    let mut p_signal = Signal::new();
    let mut c = Driver::new(1);
    let mut c_cursor = p_signal.subscribe();

    p_signal.publish();
    assert!(c_cursor.check(&p_signal));
    assert_eq!(c.step::<String>(Event::DependencyChanged), None);
    assert_eq!(c.next_action(), Action::Execute);
    let fault = c.step(Event::RunFailed("X".to_string()));
    assert_eq!(fault, Some(Error::SystemRunError("X".to_string())));
    assert_eq!(c.next_action(), Action::Stop);
}
