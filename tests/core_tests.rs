use kodegen_native_permissions::com::{with_com, with_com_guard, ComError, ComGuard, S_FALSE, S_OK};
use kodegen_native_permissions::wait::{CancellableWait, WaitAction};
use kodegen_native_permissions::{
    result_channel, PermissionError, PermissionStatus, PermissionType, StatusCache,
};

#[test]
fn cache_starts_empty_and_records_successes_only() {
    let mut cache = StatusCache::new();
    assert_eq!(cache.lookup(PermissionType::Camera), None);
    cache.record(PermissionType::Camera, &Ok(PermissionStatus::Authorized));
    assert_eq!(cache.lookup(PermissionType::Camera), Some(PermissionStatus::Authorized));
    cache.record(PermissionType::Camera, &Err(PermissionError::Denied));
    assert_eq!(cache.lookup(PermissionType::Camera), Some(PermissionStatus::Authorized));
    cache.record(PermissionType::Camera, &Ok(PermissionStatus::Denied));
    assert_eq!(cache.lookup(PermissionType::Camera), Some(PermissionStatus::Denied));
    assert_eq!(cache.lookup(PermissionType::Notification), None);
}

#[test]
fn cache_keeps_kinds_apart_including_first_and_last() {
    let mut cache = StatusCache::new();
    cache.store(PermissionType::Camera, PermissionStatus::Restricted);
    cache.store(PermissionType::Notification, PermissionStatus::Unknown);
    assert_eq!(cache.lookup(PermissionType::Camera), Some(PermissionStatus::Restricted));
    assert_eq!(cache.lookup(PermissionType::Notification), Some(PermissionStatus::Unknown));
    assert_eq!(cache.lookup(PermissionType::WiFi), None);
    cache.clear();
    assert_eq!(cache.lookup(PermissionType::Camera), None);
    assert_eq!(cache.lookup(PermissionType::Notification), None);
}

#[test]
fn settle_request_maps_closed_channel_to_system_error() {
    let mut cache = StatusCache::new();
    let r = cache.settle_request(PermissionType::Location, None);
    assert_eq!(r, Err(PermissionError::SystemError("Permission channel closed".to_string())));
    assert_eq!(cache.lookup(PermissionType::Location), None);
    let r = cache.settle_request(PermissionType::Location, Some(Ok(PermissionStatus::Authorized)));
    assert_eq!(r, Ok(PermissionStatus::Authorized));
    assert_eq!(cache.lookup(PermissionType::Location), Some(PermissionStatus::Authorized));
}

#[test]
fn kind_indices_are_distinct_and_in_range() {
    let kinds = [
        PermissionType::Camera,
        PermissionType::Microphone,
        PermissionType::Location,
        PermissionType::FullDiskAccess,
        PermissionType::WiFi,
        PermissionType::Notification,
    ];
    let mut seen = Vec::new();
    for k in kinds {
        let i = k.index();
        assert!(i < 40);
        assert!(!seen.contains(&i));
        seen.push(i);
    }
    assert_eq!(PermissionType::Camera.index(), 0);
    assert_eq!(PermissionType::Notification.index(), 39);
}

#[test]
fn labels_and_messages() {
    assert_eq!(PermissionType::FullDiskAccess.label(), "Full Disk Access");
    assert_eq!(PermissionType::All.label(), "All Permissions");
    assert_eq!(PermissionType::FaceID.label(), "Face ID");
    assert_eq!(PermissionStatus::NotDetermined.label(), "Not Determined");
    assert_eq!(PermissionStatus::PromptRequired.label(), "Prompt Required");
    assert_eq!(PermissionError::Denied.message(), "Permission denied");
    assert_eq!(PermissionError::Restricted.message(), "Permission restricted");
    assert_eq!(PermissionError::SystemError("boom".to_string()).message(), "System error: boom");
    assert_eq!(PermissionError::PlatformError("x".to_string()).message(), "Platform error: x");
    assert_eq!(PermissionError::Unknown.message(), "Unknown error");
    assert_eq!(PermissionError::Cancelled.message(), "Operation cancelled");
}

#[test]
fn producer_delivers_once() {
    let (mut tx, mut rx) = result_channel();
    assert!(tx.is_pending());
    assert!(tx.send(Ok(PermissionStatus::Authorized)));
    assert!(!tx.is_pending());
    assert!(!tx.send(Ok(PermissionStatus::Denied)));
    assert_eq!(rx.try_recv().unwrap(), Ok(PermissionStatus::Authorized));
}

#[test]
fn producer_reports_gone_receiver() {
    let (mut tx, rx) = result_channel();
    drop(rx);
    assert!(!tx.send(Ok(PermissionStatus::Authorized)));
    assert!(!tx.is_pending());
}

#[test]
fn abandoned_producer_closes_the_channel() {
    let (mut tx, mut rx) = result_channel();
    tx.abandon();
    assert!(!tx.is_pending());
    assert!(!tx.send(Ok(PermissionStatus::Authorized)));
    assert!(rx.try_recv().is_err());
}

#[test]
fn cancelled_producer_never_delivers() {
    let (mut tx, mut rx) = result_channel();
    assert!(!tx.send_unless_cancelled(true, Ok(PermissionStatus::Authorized)));
    assert!(rx.try_recv().is_err());
    let (mut tx2, mut rx2) = result_channel();
    assert!(tx2.send_unless_cancelled(false, Err(PermissionError::Cancelled)));
    assert_eq!(rx2.try_recv().unwrap(), Err(PermissionError::Cancelled));
}

#[test]
fn wait_stops_on_cancel_value_or_limit() {
    let mut w = CancellableWait::new(100, 300);
    assert_eq!(w.step(false, None), WaitAction::Continue);
    assert_eq!(w.elapsed_ms, 100);
    assert_eq!(w.step(false, None), WaitAction::Continue);
    assert_eq!(w.step(false, None), WaitAction::Finish(Ok(PermissionStatus::Unknown)));
    assert_eq!(w.elapsed_ms, 300);

    let mut w = CancellableWait::new(100, 5000);
    assert_eq!(w.step(true, Some(PermissionStatus::Authorized)), WaitAction::Finish(Err(PermissionError::Cancelled)));
    assert_eq!(w.step(false, Some(PermissionStatus::Denied)), WaitAction::Finish(Ok(PermissionStatus::Denied)));
    assert_eq!(w.elapsed_ms, 0);

    let mut w = CancellableWait::new(u64::MAX, u64::MAX);
    w.elapsed_ms = 5;
    assert_eq!(w.step(false, None), WaitAction::Finish(Ok(PermissionStatus::Unknown)));
    assert_eq!(w.elapsed_ms, u64::MAX);
}

#[test]
fn test_com_guard_drop() {
    {
        let _guard = ComGuard::new().expect("COM init failed");
    }
    let _guard2 = ComGuard::new().expect("COM re-init failed");
}

#[test]
fn test_with_com() {
    let result = with_com(|| 42).expect("with_com failed");
    assert_eq!(result, 42);
}

#[test]
fn with_com_runs_the_closure_once() {
    let mut calls = 0;
    let r = with_com(|| {
        calls += 1;
        "done"
    });
    assert_eq!(r, Ok("done"));
    assert_eq!(calls, 1);
}

#[test]
fn test_multiple_guards_same_thread() {
    let _guard1 = ComGuard::new().expect("First COM init failed");
    let _guard2 = ComGuard::new().expect("Second COM init failed");
}

#[test]
fn com_init_result_codes() {
    assert!(ComGuard::from_init_result(S_OK).unwrap().needs_uninitialize());
    assert!(ComGuard::from_init_result(S_FALSE).unwrap().needs_uninitialize());
    assert_eq!(ComGuard::from_init_result(-2147418113).unwrap_err(), ComError { code: -2147418113 });
    assert!(!ComGuard::new().unwrap().needs_uninitialize());
}

#[test]
fn with_com_guard_skips_work_after_failed_init() {
    let mut calls = 0;
    let r = with_com_guard(ComGuard::from_init_result(-5), || {
        calls += 1;
        7
    });
    assert_eq!(r, Err(ComError { code: -5 }));
    assert_eq!(calls, 0);
    let ok = with_com_guard(ComGuard::from_init_result(S_FALSE), || 9);
    assert_eq!(ok, Ok(9));
}
