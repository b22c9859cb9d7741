//! Linux: which probe answers each permission kind, and how a probe's raw
//! outcome becomes a status.
//!
//! Running a probe (a desktop-portal request, a session-bus call, a file
//! access) is the platform adapter's I/O; deciding which probe to run and what
//! its outcome means is done here.

use vstd::prelude::*;
use vstd::string::StringExecFns;
use crate::types::{PermissionError, PermissionResult, PermissionStatus, PermissionType};

verus! {

/// A device guarded by an XDG desktop portal.
#[derive(Clone, Copy, Debug, PartialEq, Eq, Structural)]
pub enum PortalKind {
    Camera,
    Microphone,
    Location,
}

/// A session-bus service whose answer to one method call shows whether the
/// capability is reachable.
#[derive(Clone, Copy, Debug, PartialEq, Eq, Structural)]
pub enum BusService {
    AccessibilityBus,
    SpeechDispatcher,
    Bluez,
    NetworkManager,
    EvolutionCalendar,
    EvolutionAddressBook,
    BusDaemon,
    GeoClue,
    ScreenCast,
}

/// A method call on the session bus: destination, object path, interface, method.
#[derive(Clone, Copy, Debug, PartialEq, Eq)]
pub struct BusCall {
    pub destination: &'static str,
    pub path: &'static str,
    pub interface: &'static str,
    pub method: &'static str,
}

/// One probe of the system.
#[derive(Clone, Copy, Debug, PartialEq, Eq)]
pub enum LinuxProbe {
    /// Ask the portal for the device's current grant; on failure, fall back
    /// to [`portal_fallback`].
    Portal(PortalKind),
    /// Ask the portal for access, which may show a dialog.
    PortalRequest(PortalKind),
    /// Call a session-bus service.
    Bus(BusService),
    /// List a folder of the home directory.
    HomeFolder(&'static str),
    /// Open a device file.
    Device(&'static str),
    /// Read the metadata of a mount point.
    MountPoint(&'static str),
    /// Ask whether the process runs as root.
    RootUser,
    /// Look for the desktop notification service on the session bus.
    NotificationService,
}

/// How a kind is answered on Linux: a fixed status, or a probe to run.
#[derive(Clone, Copy, Debug, PartialEq, Eq)]
pub enum LinuxCheck {
    Answer(PermissionStatus),
    Probe(LinuxProbe),
}

/// Kinds that only exist on iOS: denied; any other kind: not determined.
pub open spec fn ios_only_status(typ: PermissionType) -> PermissionStatus {
    match typ {
        PermissionType::Calls | PermissionType::FaceID | PermissionType::FocusStatus
        | PermissionType::Siri => PermissionStatus::Denied,
        _ => PermissionStatus::NotDetermined,
    }
}

/// Checks of the kinds that Linux has no concept for.
pub open spec fn linux_general_check(typ: PermissionType) -> LinuxCheck {
    match typ {
        PermissionType::AppleEvents | PermissionType::PostEvent => LinuxCheck::Probe(
            LinuxProbe::Bus(BusService::BusDaemon),
        ),
        PermissionType::DeveloperTools => LinuxCheck::Answer(PermissionStatus::Authorized),
        PermissionType::UbiquitousFileProvider => LinuxCheck::Answer(PermissionStatus::Denied),
        _ => LinuxCheck::Answer(PermissionStatus::NotDetermined),
    }
}

/// Requests of the kinds that Linux has no concept for.
pub open spec fn linux_general_request(typ: PermissionType) -> LinuxCheck {
    match typ {
        PermissionType::AppleEvents | PermissionType::PostEvent => LinuxCheck::Probe(
            LinuxProbe::Bus(BusService::BusDaemon),
        ),
        PermissionType::All | PermissionType::DeveloperTools | PermissionType::FileProviderDomain
        | PermissionType::FileProviderPresence | PermissionType::UbiquitousFileProvider
        | PermissionType::WillfulWrite => LinuxCheck::Answer(PermissionStatus::Authorized),
        _ => LinuxCheck::Answer(ios_only_status(typ)),
    }
}

/// How each kind is checked on Linux.
pub open spec fn linux_check_route(typ: PermissionType) -> LinuxCheck {
    match typ {
        PermissionType::Camera => LinuxCheck::Probe(LinuxProbe::Portal(PortalKind::Camera)),
        PermissionType::Microphone => LinuxCheck::Probe(LinuxProbe::Portal(PortalKind::Microphone)),
        PermissionType::Location => LinuxCheck::Probe(LinuxProbe::Portal(PortalKind::Location)),
        PermissionType::Bluetooth => LinuxCheck::Probe(LinuxProbe::Bus(BusService::Bluez)),
        PermissionType::WiFi => LinuxCheck::Probe(LinuxProbe::Bus(BusService::NetworkManager)),
        PermissionType::Calendar | PermissionType::Reminders => LinuxCheck::Probe(LinuxProbe::Bus(BusService::EvolutionCalendar)),
        PermissionType::Contacts | PermissionType::AddressBook => LinuxCheck::Probe(LinuxProbe::Bus(BusService::EvolutionAddressBook)),
        PermissionType::SpeechRecognition => LinuxCheck::Probe(LinuxProbe::Bus(BusService::SpeechDispatcher)),
        PermissionType::Accessibility | PermissionType::AccessibilityMouse => LinuxCheck::Probe(LinuxProbe::Bus(BusService::AccessibilityBus)),
        PermissionType::NearbyInteraction => LinuxCheck::Probe(LinuxProbe::Bus(BusService::Bluez)),
        PermissionType::Photos | PermissionType::PhotosAdd => LinuxCheck::Probe(LinuxProbe::HomeFolder("Pictures")),
        PermissionType::MediaLibrary => LinuxCheck::Probe(LinuxProbe::HomeFolder("Music")),
        PermissionType::DesktopFolder => LinuxCheck::Probe(LinuxProbe::HomeFolder("Desktop")),
        PermissionType::DocumentsFolder => LinuxCheck::Probe(LinuxProbe::HomeFolder("Documents")),
        PermissionType::DownloadsFolder => LinuxCheck::Probe(LinuxProbe::HomeFolder("Downloads")),
        PermissionType::FullDiskAccess | PermissionType::AdminFiles => LinuxCheck::Probe(LinuxProbe::RootUser),
        PermissionType::ScreenCapture | PermissionType::RemoteDesktop => LinuxCheck::Probe(LinuxProbe::Device("/dev/fb0")),
        PermissionType::InputMonitoring => LinuxCheck::Probe(LinuxProbe::Device("/dev/input/event0")),
        PermissionType::NetworkVolumes => LinuxCheck::Probe(LinuxProbe::MountPoint("/mnt")),
        PermissionType::RemovableVolumes => LinuxCheck::Probe(LinuxProbe::MountPoint("/media")),
        PermissionType::Motion => LinuxCheck::Probe(LinuxProbe::MountPoint("/sys/class/input")),
        PermissionType::Notification => LinuxCheck::Probe(LinuxProbe::NotificationService),
        PermissionType::AppleEvents | PermissionType::PostEvent => LinuxCheck::Probe(LinuxProbe::Bus(BusService::BusDaemon)),
        PermissionType::All | PermissionType::DeveloperTools | PermissionType::FileProviderDomain | PermissionType::FileProviderPresence | PermissionType::UbiquitousFileProvider | PermissionType::WillfulWrite => linux_general_check(typ),
        PermissionType::Calls | PermissionType::FaceID | PermissionType::FocusStatus | PermissionType::Siri => LinuxCheck::Answer(PermissionStatus::Denied),
    }
}

/// How each kind is requested on Linux.
pub open spec fn linux_request_route(typ: PermissionType) -> LinuxCheck {
    match typ {
        PermissionType::Camera => LinuxCheck::Probe(LinuxProbe::PortalRequest(PortalKind::Camera)),
        PermissionType::Microphone => LinuxCheck::Probe(LinuxProbe::PortalRequest(PortalKind::Microphone)),
        PermissionType::Location => LinuxCheck::Probe(LinuxProbe::PortalRequest(PortalKind::Location)),
        PermissionType::Bluetooth => LinuxCheck::Probe(LinuxProbe::Bus(BusService::Bluez)),
        PermissionType::WiFi => LinuxCheck::Probe(LinuxProbe::Bus(BusService::NetworkManager)),
        PermissionType::Calendar | PermissionType::Reminders => LinuxCheck::Probe(LinuxProbe::Bus(BusService::EvolutionCalendar)),
        PermissionType::Contacts | PermissionType::AddressBook => LinuxCheck::Probe(LinuxProbe::Bus(BusService::EvolutionAddressBook)),
        PermissionType::SpeechRecognition => LinuxCheck::Probe(LinuxProbe::Bus(BusService::SpeechDispatcher)),
        PermissionType::Accessibility | PermissionType::AccessibilityMouse => LinuxCheck::Probe(LinuxProbe::Bus(BusService::AccessibilityBus)),
        PermissionType::NearbyInteraction => LinuxCheck::Probe(LinuxProbe::Bus(BusService::Bluez)),
        PermissionType::Photos | PermissionType::PhotosAdd => LinuxCheck::Probe(LinuxProbe::HomeFolder("Pictures")),
        PermissionType::MediaLibrary => LinuxCheck::Probe(LinuxProbe::HomeFolder("Music")),
        PermissionType::DesktopFolder => LinuxCheck::Probe(LinuxProbe::HomeFolder("Desktop")),
        PermissionType::DocumentsFolder => LinuxCheck::Probe(LinuxProbe::HomeFolder("Documents")),
        PermissionType::DownloadsFolder => LinuxCheck::Probe(LinuxProbe::HomeFolder("Downloads")),
        PermissionType::FullDiskAccess | PermissionType::AdminFiles => LinuxCheck::Probe(LinuxProbe::RootUser),
        PermissionType::ScreenCapture | PermissionType::RemoteDesktop => LinuxCheck::Probe(LinuxProbe::Bus(BusService::ScreenCast)),
        PermissionType::InputMonitoring => LinuxCheck::Probe(LinuxProbe::Device("/dev/input/event0")),
        PermissionType::NetworkVolumes => LinuxCheck::Probe(LinuxProbe::MountPoint("/mnt")),
        PermissionType::RemovableVolumes => LinuxCheck::Probe(LinuxProbe::MountPoint("/media")),
        PermissionType::Motion => LinuxCheck::Probe(LinuxProbe::MountPoint("/sys/class/input")),
        PermissionType::Notification => LinuxCheck::Probe(LinuxProbe::NotificationService),
        _ => linux_general_request(typ),
    }
}

/// The status of a kind that only iOS has: denied; other kinds are not determined.
pub fn handle_ios_specific_permission(typ: PermissionType) -> (r: PermissionResult)
    ensures
        r == Ok::<PermissionStatus, PermissionError>(ios_only_status(typ)),
{
    match typ {
        PermissionType::Calls | PermissionType::FaceID | PermissionType::FocusStatus
        | PermissionType::Siri => Ok(PermissionStatus::Denied),
        _ => Ok(PermissionStatus::NotDetermined),
    }
}

/// How a kind that Linux has no concept for is checked.
pub fn handle_general_linux_permission(typ: PermissionType) -> (r: LinuxCheck)
    ensures
        r == linux_general_check(typ),
{
    match typ {
        PermissionType::AppleEvents | PermissionType::PostEvent => LinuxCheck::Probe(
            LinuxProbe::Bus(BusService::BusDaemon),
        ),
        PermissionType::DeveloperTools => LinuxCheck::Answer(PermissionStatus::Authorized),
        PermissionType::UbiquitousFileProvider => LinuxCheck::Answer(PermissionStatus::Denied),
        _ => LinuxCheck::Answer(PermissionStatus::NotDetermined),
    }
}

/// How a kind that Linux has no concept for is requested.
pub fn request_general_linux_permission(typ: PermissionType) -> (r: LinuxCheck)
    ensures
        r == linux_general_request(typ),
{
    match typ {
        PermissionType::AppleEvents | PermissionType::PostEvent => LinuxCheck::Probe(
            LinuxProbe::Bus(BusService::BusDaemon),
        ),
        PermissionType::All | PermissionType::DeveloperTools | PermissionType::FileProviderDomain
        | PermissionType::FileProviderPresence | PermissionType::UbiquitousFileProvider
        | PermissionType::WillfulWrite => LinuxCheck::Answer(PermissionStatus::Authorized),
        PermissionType::Calls | PermissionType::FaceID | PermissionType::FocusStatus
        | PermissionType::Siri => LinuxCheck::Answer(PermissionStatus::Denied),
        _ => LinuxCheck::Answer(PermissionStatus::NotDetermined),
    }
}

/// How `typ` is checked on Linux.
pub fn check_permission(typ: PermissionType) -> (r: LinuxCheck)
    ensures
        r == linux_check_route(typ),
{
    match typ {
        PermissionType::Camera => LinuxCheck::Probe(LinuxProbe::Portal(PortalKind::Camera)),
        PermissionType::Microphone => LinuxCheck::Probe(LinuxProbe::Portal(PortalKind::Microphone)),
        PermissionType::Location => LinuxCheck::Probe(LinuxProbe::Portal(PortalKind::Location)),
        PermissionType::Bluetooth => LinuxCheck::Probe(LinuxProbe::Bus(BusService::Bluez)),
        PermissionType::WiFi => LinuxCheck::Probe(LinuxProbe::Bus(BusService::NetworkManager)),
        PermissionType::Calendar | PermissionType::Reminders => LinuxCheck::Probe(LinuxProbe::Bus(BusService::EvolutionCalendar)),
        PermissionType::Contacts | PermissionType::AddressBook => LinuxCheck::Probe(LinuxProbe::Bus(BusService::EvolutionAddressBook)),
        PermissionType::SpeechRecognition => LinuxCheck::Probe(LinuxProbe::Bus(BusService::SpeechDispatcher)),
        PermissionType::Accessibility | PermissionType::AccessibilityMouse => LinuxCheck::Probe(LinuxProbe::Bus(BusService::AccessibilityBus)),
        PermissionType::NearbyInteraction => LinuxCheck::Probe(LinuxProbe::Bus(BusService::Bluez)),
        PermissionType::Photos | PermissionType::PhotosAdd => LinuxCheck::Probe(LinuxProbe::HomeFolder("Pictures")),
        PermissionType::MediaLibrary => LinuxCheck::Probe(LinuxProbe::HomeFolder("Music")),
        PermissionType::DesktopFolder => LinuxCheck::Probe(LinuxProbe::HomeFolder("Desktop")),
        PermissionType::DocumentsFolder => LinuxCheck::Probe(LinuxProbe::HomeFolder("Documents")),
        PermissionType::DownloadsFolder => LinuxCheck::Probe(LinuxProbe::HomeFolder("Downloads")),
        PermissionType::FullDiskAccess | PermissionType::AdminFiles => LinuxCheck::Probe(LinuxProbe::RootUser),
        PermissionType::ScreenCapture | PermissionType::RemoteDesktop => LinuxCheck::Probe(LinuxProbe::Device("/dev/fb0")),
        PermissionType::InputMonitoring => LinuxCheck::Probe(LinuxProbe::Device("/dev/input/event0")),
        PermissionType::NetworkVolumes => LinuxCheck::Probe(LinuxProbe::MountPoint("/mnt")),
        PermissionType::RemovableVolumes => LinuxCheck::Probe(LinuxProbe::MountPoint("/media")),
        PermissionType::Motion => LinuxCheck::Probe(LinuxProbe::MountPoint("/sys/class/input")),
        PermissionType::Notification => LinuxCheck::Probe(LinuxProbe::NotificationService),
        PermissionType::AppleEvents | PermissionType::PostEvent => LinuxCheck::Probe(LinuxProbe::Bus(BusService::BusDaemon)),
        PermissionType::All | PermissionType::DeveloperTools | PermissionType::FileProviderDomain | PermissionType::FileProviderPresence | PermissionType::UbiquitousFileProvider | PermissionType::WillfulWrite => handle_general_linux_permission(typ),
        PermissionType::Calls | PermissionType::FaceID | PermissionType::FocusStatus | PermissionType::Siri => LinuxCheck::Answer(PermissionStatus::Denied),
    }
}

/// How `typ` is requested on Linux.
pub fn request_permission(typ: PermissionType) -> (r: LinuxCheck)
    ensures
        r == linux_request_route(typ),
{
    match typ {
        PermissionType::Camera => LinuxCheck::Probe(LinuxProbe::PortalRequest(PortalKind::Camera)),
        PermissionType::Microphone => LinuxCheck::Probe(LinuxProbe::PortalRequest(PortalKind::Microphone)),
        PermissionType::Location => LinuxCheck::Probe(LinuxProbe::PortalRequest(PortalKind::Location)),
        PermissionType::Bluetooth => LinuxCheck::Probe(LinuxProbe::Bus(BusService::Bluez)),
        PermissionType::WiFi => LinuxCheck::Probe(LinuxProbe::Bus(BusService::NetworkManager)),
        PermissionType::Calendar | PermissionType::Reminders => LinuxCheck::Probe(LinuxProbe::Bus(BusService::EvolutionCalendar)),
        PermissionType::Contacts | PermissionType::AddressBook => LinuxCheck::Probe(LinuxProbe::Bus(BusService::EvolutionAddressBook)),
        PermissionType::SpeechRecognition => LinuxCheck::Probe(LinuxProbe::Bus(BusService::SpeechDispatcher)),
        PermissionType::Accessibility | PermissionType::AccessibilityMouse => LinuxCheck::Probe(LinuxProbe::Bus(BusService::AccessibilityBus)),
        PermissionType::NearbyInteraction => LinuxCheck::Probe(LinuxProbe::Bus(BusService::Bluez)),
        PermissionType::Photos | PermissionType::PhotosAdd => LinuxCheck::Probe(LinuxProbe::HomeFolder("Pictures")),
        PermissionType::MediaLibrary => LinuxCheck::Probe(LinuxProbe::HomeFolder("Music")),
        PermissionType::DesktopFolder => LinuxCheck::Probe(LinuxProbe::HomeFolder("Desktop")),
        PermissionType::DocumentsFolder => LinuxCheck::Probe(LinuxProbe::HomeFolder("Documents")),
        PermissionType::DownloadsFolder => LinuxCheck::Probe(LinuxProbe::HomeFolder("Downloads")),
        PermissionType::FullDiskAccess | PermissionType::AdminFiles => LinuxCheck::Probe(LinuxProbe::RootUser),
        PermissionType::ScreenCapture | PermissionType::RemoteDesktop => LinuxCheck::Probe(LinuxProbe::Bus(BusService::ScreenCast)),
        PermissionType::InputMonitoring => LinuxCheck::Probe(LinuxProbe::Device("/dev/input/event0")),
        PermissionType::NetworkVolumes => LinuxCheck::Probe(LinuxProbe::MountPoint("/mnt")),
        PermissionType::RemovableVolumes => LinuxCheck::Probe(LinuxProbe::MountPoint("/media")),
        PermissionType::Motion => LinuxCheck::Probe(LinuxProbe::MountPoint("/sys/class/input")),
        PermissionType::Notification => LinuxCheck::Probe(LinuxProbe::NotificationService),
        _ => request_general_linux_permission(typ),
    }
}

/// Nearby interaction is checked through Bluetooth availability.
pub fn check_nearby_interaction() -> (r: LinuxCheck)
    ensures
        r == LinuxCheck::Probe(LinuxProbe::Bus(BusService::Bluez)),
{
    LinuxCheck::Probe(LinuxProbe::Bus(BusService::Bluez))
}

/// The probe that stands in for the portal of `kind` when it cannot answer.
pub open spec fn portal_fallback_of(kind: PortalKind) -> LinuxProbe {
    match kind {
        PortalKind::Camera => LinuxProbe::Device("/dev/video0"),
        PortalKind::Microphone => LinuxProbe::Device("/dev/snd/controlC0"),
        PortalKind::Location => LinuxProbe::Bus(BusService::GeoClue),
    }
}

/// The probe to run when the portal of `kind` cannot answer a check.
pub fn portal_fallback(kind: PortalKind) -> (r: LinuxProbe)
    ensures
        r == portal_fallback_of(kind),
{
    match kind {
        PortalKind::Camera => LinuxProbe::Device("/dev/video0"),
        PortalKind::Microphone => LinuxProbe::Device("/dev/snd/controlC0"),
        PortalKind::Location => LinuxProbe::Bus(BusService::GeoClue),
    }
}

/// The session-bus call of each service.
pub open spec fn bus_call_of(service: BusService) -> BusCall {
    match service {
        BusService::AccessibilityBus => BusCall {
            destination: "org.a11y.Bus",
            path: "/org/a11y/bus",
            interface: "org.a11y.Status",
            method: "GetStatus",
        },
        BusService::SpeechDispatcher => BusCall {
            destination: "org.freedesktop.speech-dispatcher",
            path: "/org/freedesktop/speech/dispatcher",
            interface: "org.freedesktop.speech.dispatcher",
            method: "GetDefaultVoice",
        },
        BusService::Bluez => BusCall {
            destination: "org.bluez",
            path: "/",
            interface: "org.bluez.Manager",
            method: "GetDefaultAdapter",
        },
        BusService::NetworkManager => BusCall {
            destination: "org.freedesktop.NetworkManager",
            path: "/org/freedesktop/NetworkManager",
            interface: "org.freedesktop.NetworkManager",
            method: "GetDevices",
        },
        BusService::EvolutionCalendar => BusCall {
            destination: "org.gnome.evolution.dataserver.Calendar7",
            path: "/org/gnome/evolution/dataserver/Calendar",
            interface: "org.gnome.evolution.dataserver.Calendar",
            method: "GetCalendarList",
        },
        BusService::EvolutionAddressBook => BusCall {
            destination: "org.gnome.evolution.dataserver.AddressBook10",
            path: "/org/gnome/evolution/dataserver/AddressBook",
            interface: "org.gnome.evolution.dataserver.AddressBook",
            method: "GetBookList",
        },
        BusService::BusDaemon => BusCall {
            destination: "org.freedesktop.DBus",
            path: "/org/freedesktop/DBus",
            interface: "org.freedesktop.DBus",
            method: "ListNames",
        },
        BusService::GeoClue => BusCall {
            destination: "org.freedesktop.GeoClue2",
            path: "/org/freedesktop/GeoClue2/Manager",
            interface: "org.freedesktop.GeoClue2.Manager",
            method: "GetClient",
        },
        BusService::ScreenCast => BusCall {
            destination: "org.freedesktop.portal.Desktop",
            path: "/org/freedesktop/portal/desktop",
            interface: "org.freedesktop.portal.ScreenCast",
            method: "CreateSession",
        },
    }
}

/// The session-bus call that probes `service`.
pub fn bus_call(service: BusService) -> (r: BusCall)
    ensures
        r == bus_call_of(service),
{
    match service {
        BusService::AccessibilityBus => BusCall {
            destination: "org.a11y.Bus",
            path: "/org/a11y/bus",
            interface: "org.a11y.Status",
            method: "GetStatus",
        },
        BusService::SpeechDispatcher => BusCall {
            destination: "org.freedesktop.speech-dispatcher",
            path: "/org/freedesktop/speech/dispatcher",
            interface: "org.freedesktop.speech.dispatcher",
            method: "GetDefaultVoice",
        },
        BusService::Bluez => BusCall {
            destination: "org.bluez",
            path: "/",
            interface: "org.bluez.Manager",
            method: "GetDefaultAdapter",
        },
        BusService::NetworkManager => BusCall {
            destination: "org.freedesktop.NetworkManager",
            path: "/org/freedesktop/NetworkManager",
            interface: "org.freedesktop.NetworkManager",
            method: "GetDevices",
        },
        BusService::EvolutionCalendar => BusCall {
            destination: "org.gnome.evolution.dataserver.Calendar7",
            path: "/org/gnome/evolution/dataserver/Calendar",
            interface: "org.gnome.evolution.dataserver.Calendar",
            method: "GetCalendarList",
        },
        BusService::EvolutionAddressBook => BusCall {
            destination: "org.gnome.evolution.dataserver.AddressBook10",
            path: "/org/gnome/evolution/dataserver/AddressBook",
            interface: "org.gnome.evolution.dataserver.AddressBook",
            method: "GetBookList",
        },
        BusService::BusDaemon => BusCall {
            destination: "org.freedesktop.DBus",
            path: "/org/freedesktop/DBus",
            interface: "org.freedesktop.DBus",
            method: "ListNames",
        },
        BusService::GeoClue => BusCall {
            destination: "org.freedesktop.GeoClue2",
            path: "/org/freedesktop/GeoClue2/Manager",
            interface: "org.freedesktop.GeoClue2.Manager",
            method: "GetClient",
        },
        BusService::ScreenCast => BusCall {
            destination: "org.freedesktop.portal.Desktop",
            path: "/org/freedesktop/portal/desktop",
            interface: "org.freedesktop.portal.ScreenCast",
            method: "CreateSession",
        },
    }
}

/// What became of a session-bus call, as plain values.
#[derive(Clone, Debug, PartialEq, Eq)]
pub enum BusOutcome {
    /// No session bus could be reached; the error's text.
    NoConnection(String),
    /// The call message could not be built; the error's text.
    BadMessage(String),
    /// The call failed or timed out; the error's text.
    CallFailed(String),
    /// A reply arrived; whether it was a method return.
    Replied(bool),
}

/// `r` is a system error whose text is `prefix` followed by `detail`.
pub open spec fn is_system_error(r: PermissionResult, prefix: Seq<char>, detail: Seq<char>) -> bool {
    r matches Err(PermissionError::SystemError(m)) && m@ == prefix + detail
}

fn system_error(prefix: &str, detail: &str) -> (r: PermissionResult)
    ensures
        is_system_error(r, prefix@, detail@),
{
    let mut m = String::from_str(prefix);
    m.append(detail);
    Err(PermissionError::SystemError(m))
}

/// The status a session-bus probe shows: reachable when the service answered
/// with a method return, denied on any other reply, a system error when the
/// call could not be made.
pub fn bus_probe_status(outcome: &BusOutcome) -> (r: PermissionResult)
    ensures
        match *outcome {
            BusOutcome::Replied(ok) => r == Ok::<PermissionStatus, PermissionError>(
                if ok {
                    PermissionStatus::Authorized
                } else {
                    PermissionStatus::Denied
                },
            ),
            BusOutcome::BadMessage(e) => is_system_error(r, "D-Bus message creation failed: "@, e@),
            BusOutcome::NoConnection(e) => is_system_error(r, "System operation failed: "@, e@),
            BusOutcome::CallFailed(e) => is_system_error(r, "System operation failed: "@, e@),
        },
{
    match outcome {
        BusOutcome::Replied(ok) => {
            if *ok {
                Ok(PermissionStatus::Authorized)
            } else {
                Ok(PermissionStatus::Denied)
            }
        },
        BusOutcome::BadMessage(e) => system_error("D-Bus message creation failed: ", e.as_str()),
        BusOutcome::NoConnection(e) => system_error("System operation failed: ", e.as_str()),
        BusOutcome::CallFailed(e) => system_error("System operation failed: ", e.as_str()),
    }
}

/// What became of an attempt to open, list or inspect a path, as plain values.
#[derive(Clone, Debug, PartialEq, Eq)]
pub enum AccessOutcome {
    /// The access succeeded.
    Granted,
    /// The system refused the access; the error's text.
    Refused(String),
    /// The path does not exist; the error's text.
    Missing(String),
    /// Any other failure; the error's text.
    Failed(String),
}

/// The status that access to a guarded path shows: a refused or missing path
/// means denied; any other failure is a system error.
pub fn guarded_access_status(outcome: &AccessOutcome) -> (r: PermissionResult)
    ensures
        match *outcome {
            AccessOutcome::Granted => r == Ok::<PermissionStatus, PermissionError>(
                PermissionStatus::Authorized,
            ),
            AccessOutcome::Refused(_) | AccessOutcome::Missing(_) => r == Ok::<
                PermissionStatus,
                PermissionError,
            >(PermissionStatus::Denied),
            AccessOutcome::Failed(e) => is_system_error(r, "System operation failed: "@, e@),
        },
{
    match outcome {
        AccessOutcome::Granted => Ok(PermissionStatus::Authorized),
        AccessOutcome::Refused(_) | AccessOutcome::Missing(_) => Ok(PermissionStatus::Denied),
        AccessOutcome::Failed(e) => system_error("System operation failed: ", e.as_str()),
    }
}

/// The status that the presence of a mount point shows: present means
/// authorized, and every failure is a system error.
pub fn presence_status(outcome: &AccessOutcome) -> (r: PermissionResult)
    ensures
        match *outcome {
            AccessOutcome::Granted => r == Ok::<PermissionStatus, PermissionError>(
                PermissionStatus::Authorized,
            ),
            AccessOutcome::Refused(e) => is_system_error(r, "System operation failed: "@, e@),
            AccessOutcome::Missing(e) => is_system_error(r, "System operation failed: "@, e@),
            AccessOutcome::Failed(e) => is_system_error(r, "System operation failed: "@, e@),
        },
{
    match outcome {
        AccessOutcome::Granted => Ok(PermissionStatus::Authorized),
        AccessOutcome::Refused(e) => system_error("System operation failed: ", e.as_str()),
        AccessOutcome::Missing(e) => system_error("System operation failed: ", e.as_str()),
        AccessOutcome::Failed(e) => system_error("System operation failed: ", e.as_str()),
    }
}

/// Administrative file access: authorized for the root user (uid 0) only.
/// `uid` is what `id -u` printed, read as a number (`None` when it was not
/// one, which counts as an ordinary user); a failure to run it is a system error.
pub fn root_user_status(uid: &Result<Option<u32>, String>) -> (r: PermissionResult)
    ensures
        match *uid {
            Ok(id) => r == Ok::<PermissionStatus, PermissionError>(
                if id == Some(0u32) {
                    PermissionStatus::Authorized
                } else {
                    PermissionStatus::Denied
                },
            ),
            Err(e) => is_system_error(r, "System operation failed: "@, e@),
        },
{
    match uid {
        Ok(Some(0)) => Ok(PermissionStatus::Authorized),
        Ok(_) => Ok(PermissionStatus::Denied),
        Err(e) => system_error("System operation failed: ", e.as_str()),
    }
}

/// A portal check: the portal's grant when it answered (`Some`), otherwise
/// the fallback probe of the device.
pub fn portal_check(kind: PortalKind, granted: Option<bool>) -> (r: LinuxCheck)
    ensures
        match granted {
            Some(true) => r == LinuxCheck::Answer(PermissionStatus::Authorized),
            Some(false) => r == LinuxCheck::Answer(PermissionStatus::Denied),
            None => r == LinuxCheck::Probe(portal_fallback_of(kind)),
        },
{
    match granted {
        Some(true) => LinuxCheck::Answer(PermissionStatus::Authorized),
        Some(false) => LinuxCheck::Answer(PermissionStatus::Denied),
        None => LinuxCheck::Probe(portal_fallback(kind)),
    }
}

/// A portal request: the user's grant, or the portal's error as a system error.
pub fn portal_request_status(answer: Result<bool, String>) -> (r: PermissionResult)
    ensures
        match answer {
            Ok(true) => r == Ok::<PermissionStatus, PermissionError>(PermissionStatus::Authorized),
            Ok(false) => r == Ok::<PermissionStatus, PermissionError>(PermissionStatus::Denied),
            Err(e) => r == Err::<PermissionStatus, PermissionError>(PermissionError::SystemError(e)),
        },
{
    match answer {
        Ok(true) => Ok(PermissionStatus::Authorized),
        Ok(false) => Ok(PermissionStatus::Denied),
        Err(e) => Err(PermissionError::SystemError(e)),
    }
}

/// The bus name of the desktop notification service.
pub open spec fn notification_service_name() -> Seq<char> {
    "org.freedesktop.Notifications"@
}

/// Whether the notification service is among `names`.
pub fn lists_notification_service(names: &Vec<String>) -> (r: bool)
    ensures
        r == exists|i: int| 0 <= i < names@.len() && (#[trigger] names@[i])@ == notification_service_name(),
{
    let target = String::from_str("org.freedesktop.Notifications");
    let mut i: usize = 0;
    while i < names.len()
        invariant
            i <= names@.len(),
            target@ == notification_service_name(),
            forall|j: int| 0 <= j < i ==> (#[trigger] names@[j])@ != notification_service_name(),
        decreases names@.len() - i,
    {
        if names[i] == target {
            return true;
        }
        i = i + 1;
    }
    false
}

/// What became of asking the bus daemon for a list of bus names.
#[derive(Clone, Debug, PartialEq, Eq)]
pub enum NameListing {
    /// The names.
    Listed(Vec<String>),
    /// The call failed; the error's text.
    CallFailed(String),
    /// The reply could not be read as a list of names; the error's text.
    Unreadable(String),
}

/// Whether the notification service is among a listing's names.
pub open spec fn listing_has_service(names: Seq<String>) -> bool {
    exists|i: int| 0 <= i < names.len() && (#[trigger] names[i])@ == notification_service_name()
}

/// The first step of the notification-service check, from the running
/// names: a failed call means denied, an unreadable reply is a system error,
/// a running service means authorized; `None` when the activatable names
/// must be asked next.
pub fn notification_running_step(running: &NameListing) -> (r: Option<PermissionResult>)
    ensures
        match *running {
            NameListing::CallFailed(_) => r == Some(
                Ok::<PermissionStatus, PermissionError>(PermissionStatus::Denied),
            ),
            NameListing::Unreadable(e) => r matches Some(v) && is_system_error(
                v,
                "Failed to deserialize D-Bus ListNames response: "@,
                e@,
            ),
            NameListing::Listed(names) => r == (if listing_has_service(names@) {
                Some(Ok::<PermissionStatus, PermissionError>(PermissionStatus::Authorized))
            } else {
                None
            }),
        },
{
    match running {
        NameListing::CallFailed(_) => Some(Ok(PermissionStatus::Denied)),
        NameListing::Unreadable(e) => Some(
            system_error("Failed to deserialize D-Bus ListNames response: ", e.as_str()),
        ),
        NameListing::Listed(names) => {
            if lists_notification_service(names) {
                Some(Ok(PermissionStatus::Authorized))
            } else {
                None
            }
        },
    }
}

/// The second step, from the activatable names: an activatable service means
/// authorized, its absence denied, and a failed or unreadable listing is a
/// system error saying that availability cannot be verified.
pub fn notification_activatable_step(activatable: &NameListing) -> (r: PermissionResult)
    ensures
        match *activatable {
            NameListing::Listed(names) => r == Ok::<PermissionStatus, PermissionError>(
                if listing_has_service(names@) {
                    PermissionStatus::Authorized
                } else {
                    PermissionStatus::Denied
                },
            ),
            NameListing::CallFailed(e) => r matches Err(PermissionError::SystemError(m)) && m@
                == "D-Bus ListActivatableNames failed: "@ + e@
                + ". Cannot verify notification service availability."@,
            NameListing::Unreadable(e) => is_system_error(
                r,
                "Failed to deserialize D-Bus ListActivatableNames response: "@,
                e@,
            ),
        },
{
    match activatable {
        NameListing::Listed(names) => {
            if lists_notification_service(names) {
                Ok(PermissionStatus::Authorized)
            } else {
                Ok(PermissionStatus::Denied)
            }
        },
        NameListing::CallFailed(e) => {
            let mut m = String::from_str("D-Bus ListActivatableNames failed: ");
            m.append(e.as_str());
            m.append(". Cannot verify notification service availability.");
            Err(PermissionError::SystemError(m))
        },
        NameListing::Unreadable(e) => system_error(
            "Failed to deserialize D-Bus ListActivatableNames response: ",
            e.as_str(),
        ),
    }
}

/// No session bus for the notification check: a system error.
pub fn notification_connection_failed(e: &str) -> (r: PermissionResult)
    ensures
        is_system_error(r, "D-Bus connection failed: "@, e@),
{
    system_error("D-Bus connection failed: ", e)
}

} // verus!
