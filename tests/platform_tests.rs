use kodegen_native_permissions::linux::{
    self, bus_call, bus_probe_status, guarded_access_status, handle_general_linux_permission,
    handle_ios_specific_permission, lists_notification_service, portal_check, portal_fallback,
    portal_request_status, presence_status, request_general_linux_permission, root_user_status,
    AccessOutcome, BusOutcome, BusService, LinuxCheck, LinuxProbe, PortalKind,
};
use kodegen_native_permissions::macos::{
    self, notification_authorization_status, notification_request_outcome, privacy_pane,
    protected_location, resolve_protected_path, settings_url, tcc_access_status, MacOSHandler,
    MacProbe, ProtectedPath,
};
use kodegen_native_permissions::windows::{
    self, check_platform_specific, convert_app_capability_status, convert_geolocation_status,
    WindowsCheck, WindowsProbe,
};
use kodegen_native_permissions::config::POWERSHELL_APP_ID;
use kodegen_native_permissions::macos::{
    framework_authorization_status, grant_status, input_monitoring_status, settle_settings_query,
    AuthorizationSource,
};
use kodegen_native_permissions::windows::{
    capability_check_status, capability_request_status, retries_with_fallback, supports_toasts,
    toast_status,
};
use kodegen_native_permissions::linux::{
    notification_activatable_step, notification_connection_failed, notification_running_step,
    NameListing,
};
use kodegen_native_permissions::macos::begin_cancellable_request;
use kodegen_native_permissions::result_channel;
use kodegen_native_permissions::{PermissionError, PermissionStatus, PermissionType};

#[test]
fn linux_ios_only_kinds_are_denied() {
    assert_eq!(handle_ios_specific_permission(PermissionType::Siri), Ok(PermissionStatus::Denied));
    assert_eq!(handle_ios_specific_permission(PermissionType::FaceID), Ok(PermissionStatus::Denied));
    assert_eq!(handle_ios_specific_permission(PermissionType::Camera), Ok(PermissionStatus::NotDetermined));
}

#[test]
fn linux_general_kinds() {
    assert_eq!(
        handle_general_linux_permission(PermissionType::DeveloperTools),
        LinuxCheck::Answer(PermissionStatus::Authorized)
    );
    assert_eq!(
        handle_general_linux_permission(PermissionType::UbiquitousFileProvider),
        LinuxCheck::Answer(PermissionStatus::Denied)
    );
    assert_eq!(
        handle_general_linux_permission(PermissionType::PostEvent),
        LinuxCheck::Probe(LinuxProbe::Bus(BusService::BusDaemon))
    );
    assert_eq!(
        request_general_linux_permission(PermissionType::WillfulWrite),
        LinuxCheck::Answer(PermissionStatus::Authorized)
    );
    assert_eq!(
        request_general_linux_permission(PermissionType::Calls),
        LinuxCheck::Answer(PermissionStatus::Denied)
    );
}

#[test]
fn linux_check_routes() {
    assert_eq!(
        linux::check_permission(PermissionType::Camera),
        LinuxCheck::Probe(LinuxProbe::Portal(PortalKind::Camera))
    );
    assert_eq!(
        linux::check_permission(PermissionType::Reminders),
        LinuxCheck::Probe(LinuxProbe::Bus(BusService::EvolutionCalendar))
    );
    assert_eq!(
        linux::check_permission(PermissionType::PhotosAdd),
        LinuxCheck::Probe(LinuxProbe::HomeFolder("Pictures"))
    );
    assert_eq!(linux::check_permission(PermissionType::AdminFiles), LinuxCheck::Probe(LinuxProbe::RootUser));
    assert_eq!(
        linux::check_permission(PermissionType::RemoteDesktop),
        LinuxCheck::Probe(LinuxProbe::Device("/dev/fb0"))
    );
    assert_eq!(
        linux::check_permission(PermissionType::Motion),
        LinuxCheck::Probe(LinuxProbe::MountPoint("/sys/class/input"))
    );
    assert_eq!(linux::check_permission(PermissionType::FocusStatus), LinuxCheck::Answer(PermissionStatus::Denied));
    assert_eq!(linux::check_permission(PermissionType::All), LinuxCheck::Answer(PermissionStatus::NotDetermined));
    assert_eq!(linux::check_nearby_interaction(), LinuxCheck::Probe(LinuxProbe::Bus(BusService::Bluez)));
}

#[test]
fn linux_request_routes() {
    assert_eq!(
        linux::request_permission(PermissionType::Microphone),
        LinuxCheck::Probe(LinuxProbe::PortalRequest(PortalKind::Microphone))
    );
    assert_eq!(
        linux::request_permission(PermissionType::ScreenCapture),
        LinuxCheck::Probe(LinuxProbe::Bus(BusService::ScreenCast))
    );
    assert_eq!(linux::request_permission(PermissionType::All), LinuxCheck::Answer(PermissionStatus::Authorized));
    assert_eq!(
        linux::request_permission(PermissionType::Notification),
        LinuxCheck::Probe(LinuxProbe::NotificationService)
    );
}

#[test]
fn linux_probe_outcomes() {
    assert_eq!(bus_probe_status(&BusOutcome::Replied(true)), Ok(PermissionStatus::Authorized));
    assert_eq!(bus_probe_status(&BusOutcome::Replied(false)), Ok(PermissionStatus::Denied));
    assert_eq!(
        bus_probe_status(&BusOutcome::NoConnection("no bus".to_string())),
        Err(PermissionError::SystemError("System operation failed: no bus".to_string()))
    );
    assert_eq!(
        bus_probe_status(&BusOutcome::BadMessage("bad".to_string())),
        Err(PermissionError::SystemError("D-Bus message creation failed: bad".to_string()))
    );
    assert_eq!(guarded_access_status(&AccessOutcome::Granted), Ok(PermissionStatus::Authorized));
    assert_eq!(guarded_access_status(&AccessOutcome::Missing("gone".to_string())), Ok(PermissionStatus::Denied));
    assert_eq!(
        guarded_access_status(&AccessOutcome::Failed("io".to_string())),
        Err(PermissionError::SystemError("System operation failed: io".to_string()))
    );
    assert_eq!(
        presence_status(&AccessOutcome::Missing("gone".to_string())),
        Err(PermissionError::SystemError("System operation failed: gone".to_string()))
    );
    assert_eq!(root_user_status(&Ok(Some(0))), Ok(PermissionStatus::Authorized));
    assert_eq!(root_user_status(&Ok(Some(1000))), Ok(PermissionStatus::Denied));
    assert_eq!(root_user_status(&Ok(None)), Ok(PermissionStatus::Denied));
    assert_eq!(
        root_user_status(&Err("no id".to_string())),
        Err(PermissionError::SystemError("System operation failed: no id".to_string()))
    );
    assert_eq!(
        portal_check(PortalKind::Camera, None),
        LinuxCheck::Probe(LinuxProbe::Device("/dev/video0"))
    );
    assert_eq!(portal_check(PortalKind::Location, Some(false)), LinuxCheck::Answer(PermissionStatus::Denied));
    assert_eq!(portal_fallback(PortalKind::Location), LinuxProbe::Bus(BusService::GeoClue));
    assert_eq!(
        portal_request_status(Err("portal gone".to_string())),
        Err(PermissionError::SystemError("portal gone".to_string()))
    );
    assert_eq!(bus_call(BusService::Bluez).interface, "org.bluez.Manager");
    assert_eq!(bus_call(BusService::ScreenCast).method, "CreateSession");
}

#[test]
fn linux_notification_service_lookup() {
    let names = vec!["org.freedesktop.DBus".to_string(), "org.freedesktop.Notifications".to_string()];
    assert!(lists_notification_service(&names));
    assert!(!lists_notification_service(&vec!["org.freedesktop.DBus".to_string()]));
    assert!(!lists_notification_service(&Vec::new()));
}

#[test]
fn windows_tables() {
    assert_eq!(check_platform_specific(PermissionType::DeveloperTools), Ok(PermissionStatus::Authorized));
    assert_eq!(check_platform_specific(PermissionType::Siri), Ok(PermissionStatus::Denied));
    assert_eq!(check_platform_specific(PermissionType::All), Ok(PermissionStatus::NotDetermined));
    assert_eq!(windows::check_accessibility(), Ok(PermissionStatus::Authorized));
    assert_eq!(windows::check_calendar(), WindowsCheck::Probe(WindowsProbe::AppCapability("appointments")));
    assert_eq!(windows::check_contacts(), WindowsCheck::Probe(WindowsProbe::AppCapability("contacts")));
    assert_eq!(windows::check_photos(), WindowsCheck::Probe(WindowsProbe::AppCapability("picturesLibrary")));
    assert_eq!(windows::check_media_library(), WindowsCheck::Probe(WindowsProbe::AppCapability("musicLibrary")));
    assert_eq!(windows::check_motion(), WindowsCheck::Probe(WindowsProbe::AppCapability("activity")));
    assert_eq!(windows::check_nearby_interaction(), WindowsCheck::Probe(WindowsProbe::AppCapability("radios")));
    assert_eq!(windows::check_permission(PermissionType::Reminders), windows::check_calendar());
    assert_eq!(
        windows::check_permission(PermissionType::DownloadsFolder),
        WindowsCheck::Probe(WindowsProbe::Documents)
    );
    assert_eq!(
        windows::check_permission(PermissionType::UbiquitousFileProvider),
        WindowsCheck::Answer(PermissionStatus::Denied)
    );
    assert_eq!(convert_app_capability_status(4), PermissionStatus::Authorized);
    assert_eq!(convert_app_capability_status(2), PermissionStatus::Denied);
    assert_eq!(convert_app_capability_status(0), PermissionStatus::Restricted);
    assert_eq!(convert_app_capability_status(3), PermissionStatus::NotDetermined);
    assert_eq!(convert_geolocation_status(1), PermissionStatus::Authorized);
    assert_eq!(convert_geolocation_status(2), PermissionStatus::Denied);
    assert_eq!(convert_geolocation_status(0), PermissionStatus::NotDetermined);
}

#[test]
fn macos_tables() {
    let handler = MacOSHandler::new();
    assert_eq!(handler.route(PermissionType::Microphone), MacProbe::AvCapture);
    assert_eq!(handler.route(PermissionType::AccessibilityMouse), MacProbe::AccessibilityTrust);
    assert_eq!(handler.route(PermissionType::Siri), MacProbe::Tcc);
    assert_eq!(privacy_pane(PermissionType::InputMonitoring), "Privacy_ListenEvent");
    assert_eq!(privacy_pane(PermissionType::All), "Privacy");
    assert_eq!(
        settings_url(PermissionType::Camera),
        "x-apple.systempreferences:com.apple.preference.security?Privacy_Camera"
    );
    assert_eq!(protected_location(PermissionType::Camera), None);
    assert_eq!(protected_location(PermissionType::DesktopFolder), Some(ProtectedPath::InHome("Desktop")));
    assert_eq!(protected_location(PermissionType::NetworkVolumes), Some(ProtectedPath::Absolute("/Volumes")));
    assert_eq!(resolve_protected_path(ProtectedPath::InHome("Desktop"), "/Users/a"), "/Users/a/Desktop");
    assert_eq!(resolve_protected_path(ProtectedPath::InHome("Desktop"), "/Users/a/"), "/Users/a/Desktop");
    assert_eq!(resolve_protected_path(ProtectedPath::Absolute("/Volumes"), "/Users/a"), "/Volumes");
    assert_eq!(macos::tcc_protected_path(PermissionType::Notification), None);
    assert_eq!(tcc_access_status(None), Ok(PermissionStatus::NotDetermined));
    assert_eq!(tcc_access_status(Some(AccessOutcome::Refused("no".to_string()))), Ok(PermissionStatus::Denied));
    assert_eq!(
        tcc_access_status(Some(AccessOutcome::Missing("nf".to_string()))),
        Err(PermissionError::SystemError("nf".to_string()))
    );
    assert_eq!(notification_authorization_status(3), PermissionStatus::Authorized);
    assert_eq!(notification_authorization_status(1), PermissionStatus::Denied);
    assert_eq!(notification_authorization_status(0), PermissionStatus::NotDetermined);
    assert_eq!(notification_authorization_status(9), PermissionStatus::Unknown);
    assert_eq!(notification_request_outcome(true, None), Ok(PermissionStatus::Authorized));
    assert_eq!(
        notification_request_outcome(true, Some("err".to_string())),
        Err(PermissionError::SystemError("err".to_string()))
    );
}

#[test]
fn macos_framework_codes() {
    assert_eq!(framework_authorization_status(AuthorizationSource::AvCapture, 3), PermissionStatus::Authorized);
    assert_eq!(framework_authorization_status(AuthorizationSource::AvCapture, 2), PermissionStatus::Denied);
    assert_eq!(framework_authorization_status(AuthorizationSource::ContactsStore, 1), PermissionStatus::Restricted);
    assert_eq!(framework_authorization_status(AuthorizationSource::EventKit, 0), PermissionStatus::NotDetermined);
    assert_eq!(framework_authorization_status(AuthorizationSource::CoreLocation, 4), PermissionStatus::Authorized);
    assert_eq!(framework_authorization_status(AuthorizationSource::EventKit, 4), PermissionStatus::NotDetermined);
    assert_eq!(framework_authorization_status(AuthorizationSource::CoreBluetooth, 3), PermissionStatus::Authorized);
    assert_eq!(grant_status(true), PermissionStatus::Authorized);
    assert_eq!(grant_status(false), PermissionStatus::Denied);
    assert_eq!(input_monitoring_status(0), PermissionStatus::Authorized);
    assert_eq!(input_monitoring_status(1), PermissionStatus::Denied);
    assert_eq!(settle_settings_query(None), Ok(PermissionStatus::Unknown));
    assert_eq!(settle_settings_query(Some(Err(PermissionError::Cancelled))), Err(PermissionError::Cancelled));
}

#[test]
fn windows_toast_decisions() {
    assert!(supports_toasts(10));
    assert!(supports_toasts(11));
    assert!(!supports_toasts(6));
    assert!(retries_with_fallback("com.kodegen.permissions"));
    assert!(retries_with_fallback(""));
    assert!(!retries_with_fallback(POWERSHELL_APP_ID));
    assert_eq!(toast_status(true, None), PermissionStatus::Authorized);
    assert_eq!(toast_status(false, Some(true)), PermissionStatus::Authorized);
    assert_eq!(toast_status(false, Some(false)), PermissionStatus::Denied);
    assert_eq!(toast_status(false, None), PermissionStatus::Denied);
}

#[test]
fn windows_capability_outcomes() {
    assert_eq!(capability_check_status(Some(4)), Ok(PermissionStatus::Authorized));
    assert_eq!(capability_check_status(Some(0)), Ok(PermissionStatus::Restricted));
    assert_eq!(capability_check_status(None), Ok(PermissionStatus::Denied));
    assert_eq!(capability_request_status(Ok(2)), Ok(PermissionStatus::Denied));
    assert_eq!(
        capability_request_status(Err("boom".to_string())),
        Err(PermissionError::SystemError("Windows Runtime operation failed: boom".to_string()))
    );
}

#[test]
fn linux_notification_service_steps() {
    let svc = "org.freedesktop.Notifications".to_string();
    assert_eq!(
        notification_running_step(&NameListing::Listed(vec![svc.clone()])),
        Some(Ok(PermissionStatus::Authorized))
    );
    assert_eq!(notification_running_step(&NameListing::Listed(vec![])), None);
    assert_eq!(
        notification_running_step(&NameListing::CallFailed("x".to_string())),
        Some(Ok(PermissionStatus::Denied))
    );
    assert_eq!(
        notification_running_step(&NameListing::Unreadable("bad".to_string())),
        Some(Err(PermissionError::SystemError(
            "Failed to deserialize D-Bus ListNames response: bad".to_string()
        )))
    );
    assert_eq!(
        notification_activatable_step(&NameListing::Listed(vec![svc])),
        Ok(PermissionStatus::Authorized)
    );
    assert_eq!(
        notification_activatable_step(&NameListing::Listed(vec!["a".to_string()])),
        Ok(PermissionStatus::Denied)
    );
    assert_eq!(
        notification_activatable_step(&NameListing::CallFailed("gone".to_string())),
        Err(PermissionError::SystemError(
            "D-Bus ListActivatableNames failed: gone. Cannot verify notification service availability."
                .to_string()
        ))
    );
    assert_eq!(
        notification_connection_failed("no bus"),
        Err(PermissionError::SystemError("D-Bus connection failed: no bus".to_string()))
    );
}

#[test]
fn cancelled_notification_request_sends_cancelled() {
    let (mut tx, mut rx) = result_channel();
    assert!(!begin_cancellable_request(&mut tx, true));
    assert_eq!(rx.try_recv().unwrap(), Err(PermissionError::Cancelled));
    assert!(!tx.is_pending());

    let (mut tx2, mut rx2) = result_channel();
    assert!(begin_cancellable_request(&mut tx2, false));
    assert!(tx2.is_pending());
    assert!(rx2.try_recv().is_err());
}
