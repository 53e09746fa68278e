use daos_oid::completion::{completion_result, delivery_of, CallbackArg, Delivery, CALLBACK_MAGIC};
use daos_oid::error::DaosError;
use daos_oid::event::{DaosEvent, ReleaseStep};
use daos_oid::handle::DaosHandle;
use daos_oid::queue::{PollerState, QueueLifecycle, TeardownAction};

#[test]
fn callback_delivers_the_code_once() {
    let (tx, mut rx) = tokio::sync::oneshot::channel::<i32>();
    let mut arg = CallbackArg::new(tx);
    assert_eq!(arg.magic(), CALLBACK_MAGIC);
    assert!(arg.is_armed());
    assert_eq!(arg.fire(-1007), Delivery::Delivered);
    assert_eq!(rx.try_recv(), Ok(-1007));
    assert!(!arg.is_armed());
    assert_eq!(arg.fire(0), Delivery::NotArmed);
    assert_eq!(Delivery::NotArmed.status(), -1);
}

#[test]
fn callback_after_waiter_dropped_is_quiet() {
    let (tx, rx) = tokio::sync::oneshot::channel::<i32>();
    let mut arg = CallbackArg::new(tx);
    drop(rx);
    let d = arg.fire(0);
    assert_eq!(d, Delivery::WaiterGone);
    assert_eq!(d.status(), -1);
    assert_eq!(Delivery::Delivered.status(), 0);
}

#[test]
fn delivery_classifies_send_results() {
    assert_eq!(delivery_of(Ok(())), Delivery::Delivered);
    assert_eq!(delivery_of(Err(3)), Delivery::WaiterGone);
}

#[test]
fn completion_results_distinguish_cancellation() {
    assert_eq!(completion_result(0, Some(0)), Ok(()));
    assert_eq!(completion_result(-1003, Some(0)), Err(DaosError::Native(-1003)));
    assert_eq!(completion_result(0, Some(-1005)), Err(DaosError::Native(-1005)));
    assert_eq!(completion_result(0, None), Err(DaosError::Cancelled));
}

#[test]
fn event_takes_one_callback() {
    let mut ev = DaosEvent::new(Box::new(7u64), 0).unwrap();
    assert!(ev.is_live());
    *ev.as_mut() = 9;
    assert_eq!(*ev.as_mut(), 9);
    let (mut arg, mut rx) = ev.register_callback().unwrap();
    assert!(matches!(ev.register_callback(), Err(DaosError::ProtocolViolation)));
    assert_eq!(arg.fire(0), Delivery::Delivered);
    assert_eq!(rx.try_recv(), Ok(0));
}

#[test]
fn event_init_failure_is_reported() {
    assert!(matches!(DaosEvent::new(Box::new(0u64), -1002), Err(DaosError::Native(-1002))));
}

#[test]
fn event_release_waits_for_the_queue() {
    let mut ev = DaosEvent::new(Box::new(1u32), 0).unwrap();
    assert_eq!(ev.release_step(-5, true), ReleaseStep::TestFailed(-5));
    assert_eq!(ev.release_step(0, false), ReleaseStep::StillQueued);
    assert_eq!(ev.release_step(0, true), ReleaseStep::Finalize);
    assert!(matches!(ev.finalized(-9), Err(DaosError::Native(-9))));
    assert!(ev.is_live());
    assert_eq!(*ev.finalized(0).unwrap(), 1);
    assert!(!ev.is_live());
    assert_eq!(ev.release_step(0, true), ReleaseStep::Nothing);
    assert!(matches!(ev.register_callback(), Err(DaosError::MissingHandle)));
}

#[test]
fn pending_event_is_handed_over_unfinalised() {
    let mut ev = DaosEvent::new(Box::new(4u8), 0).unwrap();
    assert_eq!(ev.take_pending().map(|b| *b), Some(4));
    assert!(ev.take_pending().is_none());
}

#[test]
fn queue_teardown_runs_in_order_and_only_once() {
    let h = DaosHandle { cookie: 42 };
    assert!(matches!(QueueLifecycle::created(-1, h), Err(DaosError::Native(-1))));
    let mut q = QueueLifecycle::created(0, h).unwrap();
    assert_eq!(q.get_handle(), Some(h));
    assert_eq!(q.next_teardown(), TeardownAction::SignalShutdown);
    q.shutdown_signalled();
    assert_eq!(q.next_teardown(), TeardownAction::JoinPoller);
    q.poller_joined();
    assert_eq!(q.next_teardown(), TeardownAction::Destroy(h));
    assert_eq!(q.destroyed(-3), Err(DaosError::Native(-3)));
    assert_eq!(q.next_teardown(), TeardownAction::Destroy(h));
    assert_eq!(q.destroyed(0), Ok(()));
    assert_eq!(q.next_teardown(), TeardownAction::Nothing);
    assert_eq!(q.poller, PollerState::Stopped);
    assert_eq!(q.get_handle(), None);
}
