use sonosano_shell::slot::{kill_report, BackendSlot, NotAwaited, Phase, ShutdownNote};
use std::sync::Mutex;

#[test]
fn new_slot_is_empty_and_unstarted() {
    let slot: BackendSlot<u32> = BackendSlot::new();
    assert_eq!(slot.phase(), Phase::Unstarted);
    assert!(slot.is_empty());
}

#[test]
fn recording_a_handle_makes_the_slot_running() {
    let mut slot = BackendSlot::new();
    slot.record(Some(17u32));
    assert_eq!(slot.phase(), Phase::Running);
    assert!(!slot.is_empty());
}

#[test]
fn recording_no_handle_makes_the_backend_absent() {
    let mut slot: BackendSlot<u32> = BackendSlot::new();
    slot.record(None);
    assert_eq!(slot.phase(), Phase::Absent);
    assert!(slot.is_empty());
}

#[test]
fn shutdown_hands_out_the_recorded_handle_and_empties_the_slot() {
    let mut slot = BackendSlot::new();
    slot.record(Some(17u32));
    assert_eq!(slot.terminate_on_shutdown(), Some(17));
    assert_eq!(slot.phase(), Phase::Terminated);
    assert!(slot.is_empty());
}

#[test]
fn second_shutdown_does_nothing() {
    let mut slot = BackendSlot::new();
    slot.record(Some(17u32));
    assert_eq!(slot.terminate_on_shutdown(), Some(17));
    assert_eq!(slot.terminate_on_shutdown(), None);
    assert_eq!(slot.phase(), Phase::Terminated);
    assert_eq!(slot.terminate_on_shutdown(), None);
    assert_eq!(slot.phase(), Phase::Terminated);
    assert!(slot.is_empty());
}

#[test]
fn shutdown_without_a_backend_is_a_no_op() {
    let mut slot: BackendSlot<u32> = BackendSlot::new();
    slot.record(None);
    assert_eq!(slot.terminate_on_shutdown(), None);
    assert_eq!(slot.phase(), Phase::Absent);
    assert_eq!(slot.terminate_on_shutdown(), None);
    assert_eq!(slot.phase(), Phase::Absent);
}

#[test]
fn shutdown_before_startup_leaves_the_slot_unstarted() {
    let mut slot: BackendSlot<u32> = BackendSlot::new();
    assert_eq!(slot.terminate_on_shutdown(), None);
    assert_eq!(slot.phase(), Phase::Unstarted);
    assert!(slot.is_empty());
}

#[test]
fn slot_is_empty_after_shutdown_in_every_phase() {
    let mut unstarted: BackendSlot<u32> = BackendSlot::new();
    unstarted.terminate_on_shutdown();
    assert!(unstarted.is_empty());

    let mut absent: BackendSlot<u32> = BackendSlot::new();
    absent.record(None);
    absent.terminate_on_shutdown();
    assert!(absent.is_empty());

    let mut running = BackendSlot::new();
    running.record(Some(3u32));
    running.terminate_on_shutdown();
    assert!(running.is_empty());

    let mut terminated = BackendSlot::new();
    terminated.record(Some(3u32));
    terminated.terminate_on_shutdown();
    terminated.terminate_on_shutdown();
    assert!(terminated.is_empty());
}

#[test]
fn exactly_one_kill_request_over_many_shutdowns() {
    let mut slot = BackendSlot::new();
    slot.record(Some(99u32));
    let mut requests = Vec::new();
    for _ in 0..5 {
        if let Some(handle) = slot.terminate_on_shutdown() {
            requests.push(handle);
        }
    }
    assert_eq!(requests, vec![99]);
}

#[test]
fn try_record_fills_an_unstarted_slot() {
    let mut slot = BackendSlot::new();
    assert_eq!(slot.try_record(Some(5u32)), Ok(()));
    assert_eq!(slot.phase(), Phase::Running);
    assert_eq!(slot.terminate_on_shutdown(), Some(5));

    let mut other: BackendSlot<u32> = BackendSlot::new();
    assert_eq!(other.try_record(None), Ok(()));
    assert_eq!(other.phase(), Phase::Absent);
}

#[test]
fn try_record_hands_back_what_a_filled_slot_does_not_take() {
    let mut slot = BackendSlot::new();
    slot.record(Some(5u32));
    assert_eq!(slot.try_record(Some(6)), Err(NotAwaited { outcome: Some(6) }));
    assert_eq!(slot.phase(), Phase::Running);
    assert_eq!(slot.terminate_on_shutdown(), Some(5));
}

#[test]
fn cleared_slot_is_never_filled_again() {
    let mut slot = BackendSlot::new();
    slot.record(Some(5u32));
    slot.terminate_on_shutdown();
    assert_eq!(slot.try_record(Some(6)), Err(NotAwaited { outcome: Some(6) }));
    assert_eq!(slot.try_record(None), Err(NotAwaited { outcome: None }));
    assert_eq!(slot.phase(), Phase::Terminated);
    assert!(slot.is_empty());
    assert_eq!(slot.terminate_on_shutdown(), None);
}

#[test]
fn absent_backend_is_not_replaced_later() {
    let mut slot: BackendSlot<u32> = BackendSlot::new();
    slot.record(None);
    assert_eq!(slot.try_record(Some(8)), Err(NotAwaited { outcome: Some(8) }));
    assert_eq!(slot.phase(), Phase::Absent);
}

#[test]
fn record_then_shutdown_through_a_lock() {
    let shared = Mutex::new(BackendSlot::new());
    {
        let mut slot = shared.lock().unwrap();
        slot.record(Some(31u32));
    }
    let first = shared.lock().unwrap().terminate_on_shutdown();
    let second = shared.lock().unwrap().terminate_on_shutdown();
    assert_eq!(first, Some(31));
    assert_eq!(second, None);
    assert!(shared.lock().unwrap().is_empty());
}

#[test]
fn kill_report_keeps_the_error_for_the_log() {
    assert_eq!(kill_report::<String>(Ok(())), ShutdownNote::Killed);
    assert_eq!(
        kill_report(Err(String::from("no such process"))),
        ShutdownNote::KillFailed(String::from("no such process"))
    );
}

#[test]
fn only_a_failed_kill_belongs_on_the_error_stream() {
    assert!(!kill_report::<String>(Ok(())).is_error());
    assert!(kill_report(Err(String::from("access denied"))).is_error());
}
