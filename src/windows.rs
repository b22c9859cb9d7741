//! Windows: which probe answers each permission kind, and how the platform's
//! access codes become statuses.

use vstd::prelude::*;
use vstd::string::StringExecFns;
use crate::types::{PermissionError, PermissionResult, PermissionStatus, PermissionType};

verus! {

/// `AppCapabilityAccessStatus::DeniedBySystem`.
pub const CAPABILITY_DENIED_BY_SYSTEM: i32 = 0;

/// `AppCapabilityAccessStatus::DeniedByUser`.
pub const CAPABILITY_DENIED_BY_USER: i32 = 2;

/// `AppCapabilityAccessStatus::Allowed`.
pub const CAPABILITY_ALLOWED: i32 = 4;

/// `GeolocationAccessStatus::Allowed`.
pub const GEOLOCATION_ALLOWED: i32 = 1;

/// `GeolocationAccessStatus::Denied`.
pub const GEOLOCATION_DENIED: i32 = 2;

/// One probe of the system.
#[derive(Clone, Copy, Debug, PartialEq, Eq)]
pub enum WindowsProbe {
    /// Ask the app-capability broker about the named capability.
    AppCapability(&'static str),
    Camera,
    Microphone,
    SpeechRecognition,
    Location,
    Bluetooth,
    WiFi,
    Documents,
    NetworkVolumes,
    RemovableVolumes,
    ScreenCapture,
    InputMonitoring,
    AdminAccess,
    Notification,
}

/// How a kind is answered on Windows: a fixed status, or a probe to run.
#[derive(Clone, Copy, Debug, PartialEq, Eq)]
pub enum WindowsCheck {
    Answer(PermissionStatus),
    Probe(WindowsProbe),
}

/// Kinds without a Windows counterpart: developer tools are unrestricted;
/// iCloud and iOS-only kinds are denied; the rest are not determined.
pub open spec fn platform_specific_status(typ: PermissionType) -> PermissionStatus {
    match typ {
        PermissionType::DeveloperTools => PermissionStatus::Authorized,
        PermissionType::UbiquitousFileProvider | PermissionType::Calls | PermissionType::FaceID
        | PermissionType::FocusStatus | PermissionType::Siri => PermissionStatus::Denied,
        _ => PermissionStatus::NotDetermined,
    }
}

/// How each kind is checked on Windows.
pub open spec fn windows_check_route(typ: PermissionType) -> WindowsCheck {
    match typ {
        PermissionType::Camera => WindowsCheck::Probe(WindowsProbe::Camera),
        PermissionType::Microphone => WindowsCheck::Probe(WindowsProbe::Microphone),
        PermissionType::SpeechRecognition => WindowsCheck::Probe(WindowsProbe::SpeechRecognition),
        PermissionType::Location => WindowsCheck::Probe(WindowsProbe::Location),
        PermissionType::Bluetooth => WindowsCheck::Probe(WindowsProbe::Bluetooth),
        PermissionType::WiFi => WindowsCheck::Probe(WindowsProbe::WiFi),
        PermissionType::Accessibility | PermissionType::AccessibilityMouse => WindowsCheck::Answer(PermissionStatus::Authorized),
        PermissionType::Calendar | PermissionType::Reminders => WindowsCheck::Probe(WindowsProbe::AppCapability("appointments")),
        PermissionType::Contacts | PermissionType::AddressBook => WindowsCheck::Probe(WindowsProbe::AppCapability("contacts")),
        PermissionType::Photos | PermissionType::PhotosAdd => WindowsCheck::Probe(WindowsProbe::AppCapability("picturesLibrary")),
        PermissionType::MediaLibrary => WindowsCheck::Probe(WindowsProbe::AppCapability("musicLibrary")),
        PermissionType::Motion => WindowsCheck::Probe(WindowsProbe::AppCapability("activity")),
        PermissionType::NearbyInteraction => WindowsCheck::Probe(WindowsProbe::AppCapability("radios")),
        PermissionType::DesktopFolder | PermissionType::DocumentsFolder | PermissionType::DownloadsFolder => WindowsCheck::Probe(WindowsProbe::Documents),
        PermissionType::NetworkVolumes => WindowsCheck::Probe(WindowsProbe::NetworkVolumes),
        PermissionType::RemovableVolumes => WindowsCheck::Probe(WindowsProbe::RemovableVolumes),
        PermissionType::ScreenCapture | PermissionType::RemoteDesktop => WindowsCheck::Probe(WindowsProbe::ScreenCapture),
        PermissionType::InputMonitoring => WindowsCheck::Probe(WindowsProbe::InputMonitoring),
        PermissionType::FullDiskAccess | PermissionType::AdminFiles => WindowsCheck::Probe(WindowsProbe::AdminAccess),
        PermissionType::Notification => WindowsCheck::Probe(WindowsProbe::Notification),
        _ => WindowsCheck::Answer(platform_specific_status(typ)),
    }
}

fn specific_status(typ: PermissionType) -> (r: PermissionStatus)
    ensures
        r == platform_specific_status(typ),
{
    match typ {
        PermissionType::DeveloperTools => PermissionStatus::Authorized,
        PermissionType::UbiquitousFileProvider | PermissionType::Calls | PermissionType::FaceID
        | PermissionType::FocusStatus | PermissionType::Siri => PermissionStatus::Denied,
        _ => PermissionStatus::NotDetermined,
    }
}

/// The status of a kind without a Windows counterpart.
pub fn check_platform_specific(typ: PermissionType) -> (r: PermissionResult)
    ensures
        r == Ok::<PermissionStatus, PermissionError>(platform_specific_status(typ)),
{
    Ok(specific_status(typ))
}

/// How `typ` is checked on Windows.
pub fn check_permission(typ: PermissionType) -> (r: WindowsCheck)
    ensures
        r == windows_check_route(typ),
{
    match typ {
        PermissionType::Camera => WindowsCheck::Probe(WindowsProbe::Camera),
        PermissionType::Microphone => WindowsCheck::Probe(WindowsProbe::Microphone),
        PermissionType::SpeechRecognition => WindowsCheck::Probe(WindowsProbe::SpeechRecognition),
        PermissionType::Location => WindowsCheck::Probe(WindowsProbe::Location),
        PermissionType::Bluetooth => WindowsCheck::Probe(WindowsProbe::Bluetooth),
        PermissionType::WiFi => WindowsCheck::Probe(WindowsProbe::WiFi),
        PermissionType::Accessibility | PermissionType::AccessibilityMouse => WindowsCheck::Answer(PermissionStatus::Authorized),
        PermissionType::Calendar | PermissionType::Reminders => WindowsCheck::Probe(WindowsProbe::AppCapability("appointments")),
        PermissionType::Contacts | PermissionType::AddressBook => WindowsCheck::Probe(WindowsProbe::AppCapability("contacts")),
        PermissionType::Photos | PermissionType::PhotosAdd => WindowsCheck::Probe(WindowsProbe::AppCapability("picturesLibrary")),
        PermissionType::MediaLibrary => WindowsCheck::Probe(WindowsProbe::AppCapability("musicLibrary")),
        PermissionType::Motion => WindowsCheck::Probe(WindowsProbe::AppCapability("activity")),
        PermissionType::NearbyInteraction => WindowsCheck::Probe(WindowsProbe::AppCapability("radios")),
        PermissionType::DesktopFolder | PermissionType::DocumentsFolder | PermissionType::DownloadsFolder => WindowsCheck::Probe(WindowsProbe::Documents),
        PermissionType::NetworkVolumes => WindowsCheck::Probe(WindowsProbe::NetworkVolumes),
        PermissionType::RemovableVolumes => WindowsCheck::Probe(WindowsProbe::RemovableVolumes),
        PermissionType::ScreenCapture | PermissionType::RemoteDesktop => WindowsCheck::Probe(WindowsProbe::ScreenCapture),
        PermissionType::InputMonitoring => WindowsCheck::Probe(WindowsProbe::InputMonitoring),
        PermissionType::FullDiskAccess | PermissionType::AdminFiles => WindowsCheck::Probe(WindowsProbe::AdminAccess),
        PermissionType::Notification => WindowsCheck::Probe(WindowsProbe::Notification),
        _ => WindowsCheck::Answer(specific_status(typ)),
    }
}

/// UI Automation needs no runtime permission: always authorized.
pub fn check_accessibility() -> (r: PermissionResult)
    ensures
        r == Ok::<PermissionStatus, PermissionError>(PermissionStatus::Authorized),
{
    Ok(PermissionStatus::Authorized)
}

/// Calendar access is the `appointments` capability.
pub fn check_calendar() -> (r: WindowsCheck)
    ensures
        r == WindowsCheck::Probe(WindowsProbe::AppCapability("appointments")),
{
    WindowsCheck::Probe(WindowsProbe::AppCapability("appointments"))
}

/// Contacts access is the `contacts` capability.
pub fn check_contacts() -> (r: WindowsCheck)
    ensures
        r == WindowsCheck::Probe(WindowsProbe::AppCapability("contacts")),
{
    WindowsCheck::Probe(WindowsProbe::AppCapability("contacts"))
}

/// Photos access is the `picturesLibrary` capability.
pub fn check_photos() -> (r: WindowsCheck)
    ensures
        r == WindowsCheck::Probe(WindowsProbe::AppCapability("picturesLibrary")),
{
    WindowsCheck::Probe(WindowsProbe::AppCapability("picturesLibrary"))
}

/// Media library access is the `musicLibrary` capability.
pub fn check_media_library() -> (r: WindowsCheck)
    ensures
        r == WindowsCheck::Probe(WindowsProbe::AppCapability("musicLibrary")),
{
    WindowsCheck::Probe(WindowsProbe::AppCapability("musicLibrary"))
}

/// Motion access is the `activity` capability.
pub fn check_motion() -> (r: WindowsCheck)
    ensures
        r == WindowsCheck::Probe(WindowsProbe::AppCapability("activity")),
{
    WindowsCheck::Probe(WindowsProbe::AppCapability("activity"))
}

/// Nearby interaction is the `radios` capability.
pub fn check_nearby_interaction() -> (r: WindowsCheck)
    ensures
        r == WindowsCheck::Probe(WindowsProbe::AppCapability("radios")),
{
    WindowsCheck::Probe(WindowsProbe::AppCapability("radios"))
}

/// The status that an app-capability access code stands for: allowed means
/// authorized, denied by the user means denied, denied by the system means
/// restricted, and anything else is not yet determined.
pub open spec fn capability_status_of(status: i32) -> PermissionStatus {
    if status == CAPABILITY_ALLOWED {
        PermissionStatus::Authorized
    } else if status == CAPABILITY_DENIED_BY_USER {
        PermissionStatus::Denied
    } else if status == CAPABILITY_DENIED_BY_SYSTEM {
        PermissionStatus::Restricted
    } else {
        PermissionStatus::NotDetermined
    }
}

/// The status that an app-capability access code stands for.
pub fn convert_app_capability_status(status: i32) -> (r: PermissionStatus)
    ensures
        r == capability_status_of(status),
{
    if status == CAPABILITY_ALLOWED {
        PermissionStatus::Authorized
    } else if status == CAPABILITY_DENIED_BY_USER {
        PermissionStatus::Denied
    } else if status == CAPABILITY_DENIED_BY_SYSTEM {
        PermissionStatus::Restricted
    } else {
        PermissionStatus::NotDetermined
    }
}

/// The status that a geolocation access code stands for.
pub fn convert_geolocation_status(status: i32) -> (r: PermissionStatus)
    ensures
        r == (if status == GEOLOCATION_ALLOWED {
            PermissionStatus::Authorized
        } else if status == GEOLOCATION_DENIED {
            PermissionStatus::Denied
        } else {
            PermissionStatus::NotDetermined
        }),
{
    if status == GEOLOCATION_ALLOWED {
        PermissionStatus::Authorized
    } else if status == GEOLOCATION_DENIED {
        PermissionStatus::Denied
    } else {
        PermissionStatus::NotDetermined
    }
}

/// Toast notifications need Windows 10.0.0.0 or later; versions compare
/// lexicographically, so the major version alone decides.
pub fn supports_toasts(major: u32) -> (r: bool)
    ensures
        r == (major >= 10),
{
    major >= 10
}

/// Whether a failed toast with application id `app_id` is retried with
/// PowerShell's id: only when `app_id` is a different id.
pub fn retries_with_fallback(app_id: &str) -> (r: bool)
    ensures
        r == (app_id@ != crate::config::POWERSHELL_APP_ID@),
{
    let fallback = crate::config::POWERSHELL_APP_ID;
    let n = app_id.unicode_len();
    if n != fallback.unicode_len() {
        return true;
    }
    let mut i: usize = 0;
    while i < n
        invariant
            n == app_id@.len(),
            n == fallback@.len(),
            fallback@ == crate::config::POWERSHELL_APP_ID@,
            i <= n,
            forall|j: int| 0 <= j < i ==> app_id@[j] == fallback@[j],
        decreases n - i,
    {
        if app_id.get_char(i) != fallback.get_char(i) {
            return true;
        }
        i = i + 1;
    }
    assert(app_id@ =~= fallback@);
    false
}

/// Notification availability from the toast attempts: authorized when the
/// toast with the configured id could be created, else when the retry with
/// PowerShell's id (if one was made) succeeded; denied otherwise.
pub fn toast_status(configured_ok: bool, fallback_ok: Option<bool>) -> (r: PermissionStatus)
    ensures
        r == (if configured_ok || fallback_ok == Some(true) {
            PermissionStatus::Authorized
        } else {
            PermissionStatus::Denied
        }),
{
    if configured_ok {
        PermissionStatus::Authorized
    } else {
        match fallback_ok {
            Some(true) => PermissionStatus::Authorized,
            _ => PermissionStatus::Denied,
        }
    }
}

/// A capability check from the broker's answer: the status that the access
/// code stands for, or denied when the capability could not be created or
/// queried (`None`). A check never fails.
pub fn capability_check_status(query: Option<i32>) -> (r: PermissionResult)
    ensures
        r == Ok::<PermissionStatus, PermissionError>(match query {
            Some(code) => capability_status_of(code),
            None => PermissionStatus::Denied,
        }),
{
    match query {
        Some(code) => Ok(convert_app_capability_status(code)),
        None => Ok(PermissionStatus::Denied),
    }
}

/// A capability request from the broker's answer: the status that the access
/// code stands for, or a system error carrying the failure's text.
pub fn capability_request_status(query: Result<i32, String>) -> (r: PermissionResult)
    ensures
        match query {
            Ok(code) => r == Ok::<PermissionStatus, PermissionError>(capability_status_of(code)),
            Err(e) => r matches Err(PermissionError::SystemError(m))
                && m@ == "Windows Runtime operation failed: "@ + e@,
        },
{
    match query {
        Ok(code) => Ok(convert_app_capability_status(code)),
        Err(e) => {
            let mut m = String::from_str("Windows Runtime operation failed: ");
            m.append(e.as_str());
            Err(PermissionError::SystemError(m))
        },
    }
}

} // verus!
