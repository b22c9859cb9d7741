//! macOS: which framework answers each permission kind, where the privacy
//! settings of each kind live, and how framework codes become statuses.

use vstd::prelude::*;
use vstd::string::StringExecFns;
use crate::channel::{send_step, ResultProducer};
use crate::types::{PermissionError, PermissionResult, PermissionStatus, PermissionType};

verus! {

/// The framework or mechanism that answers a kind on macOS.
#[derive(Clone, Copy, Debug, PartialEq, Eq, Structural)]
pub enum MacProbe {
    /// AVFoundation capture authorization (camera, microphone).
    AvCapture,
    /// CoreLocation authorization.
    CoreLocation,
    /// EventKit authorization (calendar, reminders).
    EventKit,
    /// Contacts framework authorization.
    ContactsStore,
    /// CoreBluetooth authorization.
    CoreBluetooth,
    /// Accessibility trust of the process.
    AccessibilityTrust,
    /// Presence of a WiFi interface.
    WifiInterface,
    /// Screen-capture access.
    ScreenRecording,
    /// HID input-monitoring access.
    InputMonitoring,
    /// User-notification authorization.
    Notifications,
    /// Transparency, Consent and Control: access to a protected path.
    Tcc,
}

/// The macOS permission handler: routes each kind to the framework that answers it.
#[derive(Clone, Copy, Debug, PartialEq, Eq, Structural)]
pub struct MacOSHandler;

/// The framework that answers each kind.
pub open spec fn mac_route(typ: PermissionType) -> MacProbe {
    match typ {
        PermissionType::Camera | PermissionType::Microphone => MacProbe::AvCapture,
        PermissionType::Location => MacProbe::CoreLocation,
        PermissionType::Calendar | PermissionType::Reminders => MacProbe::EventKit,
        PermissionType::Contacts => MacProbe::ContactsStore,
        PermissionType::Bluetooth => MacProbe::CoreBluetooth,
        PermissionType::Accessibility | PermissionType::AccessibilityMouse => MacProbe::AccessibilityTrust,
        PermissionType::WiFi => MacProbe::WifiInterface,
        PermissionType::ScreenCapture => MacProbe::ScreenRecording,
        PermissionType::InputMonitoring => MacProbe::InputMonitoring,
        PermissionType::Notification => MacProbe::Notifications,
        _ => MacProbe::Tcc,
    }
}

impl MacOSHandler {
    /// A handler.
    pub fn new() -> (r: MacOSHandler) {
        MacOSHandler
    }

    /// The framework that answers `typ`, for a check and for a request alike.
    pub fn route(&self, typ: PermissionType) -> (r: MacProbe)
        ensures
            r == mac_route(typ),
    {
        match typ {
            PermissionType::Camera | PermissionType::Microphone => MacProbe::AvCapture,
            PermissionType::Location => MacProbe::CoreLocation,
            PermissionType::Calendar | PermissionType::Reminders => MacProbe::EventKit,
            PermissionType::Contacts => MacProbe::ContactsStore,
            PermissionType::Bluetooth => MacProbe::CoreBluetooth,
            PermissionType::Accessibility | PermissionType::AccessibilityMouse => MacProbe::AccessibilityTrust,
            PermissionType::WiFi => MacProbe::WifiInterface,
            PermissionType::ScreenCapture => MacProbe::ScreenRecording,
            PermissionType::InputMonitoring => MacProbe::InputMonitoring,
            PermissionType::Notification => MacProbe::Notifications,
            _ => MacProbe::Tcc,
        }
    }
}

/// The anchor of the privacy pane of each kind in System Settings.
pub open spec fn privacy_pane_of(typ: PermissionType) -> Seq<char> {
    match typ {
        PermissionType::Camera => "Privacy_Camera"@,
        PermissionType::Microphone => "Privacy_Microphone"@,
        PermissionType::Location => "Privacy_LocationServices"@,
        PermissionType::Calendar => "Privacy_Calendars"@,
        PermissionType::Reminders => "Privacy_Reminders"@,
        PermissionType::Contacts => "Privacy_Contacts"@,
        PermissionType::Bluetooth => "Privacy_Bluetooth"@,
        PermissionType::Accessibility => "Privacy_Accessibility"@,
        PermissionType::AccessibilityMouse => "Privacy_Accessibility"@,
        PermissionType::WiFi => "Privacy_WiFi"@,
        PermissionType::FullDiskAccess => "Privacy_AllFiles"@,
        PermissionType::DesktopFolder => "Privacy_DesktopFolder"@,
        PermissionType::DocumentsFolder => "Privacy_DocumentsFolder"@,
        PermissionType::DownloadsFolder => "Privacy_DownloadsFolder"@,
        PermissionType::Photos => "Privacy_Photos"@,
        PermissionType::SpeechRecognition => "Privacy_SpeechRecognition"@,
        PermissionType::ScreenCapture => "Privacy_ScreenCapture"@,
        PermissionType::InputMonitoring => "Privacy_ListenEvent"@,
        PermissionType::AppleEvents => "Privacy_Automation"@,
        PermissionType::DeveloperTools => "Privacy_DeveloperTool"@,
        PermissionType::AdminFiles => "Privacy_SystemPolicyAllFiles"@,
        PermissionType::NetworkVolumes => "Privacy_AllFiles"@,
        PermissionType::RemovableVolumes => "Privacy_AllFiles"@,
        PermissionType::AddressBook => "Privacy_Contacts"@,
        PermissionType::All => "Privacy"@,
        PermissionType::Calls => "Privacy_CallHistory"@,
        PermissionType::FaceID => "Privacy_FaceID"@,
        PermissionType::FileProviderDomain => "Privacy_AllFiles"@,
        PermissionType::FileProviderPresence => "Privacy_AllFiles"@,
        PermissionType::FocusStatus => "Privacy_Focus"@,
        PermissionType::MediaLibrary => "Privacy_MediaLibrary"@,
        PermissionType::Motion => "Privacy_Motion"@,
        PermissionType::NearbyInteraction => "Privacy_NearbyInteraction"@,
        PermissionType::PhotosAdd => "Privacy_Photos"@,
        PermissionType::PostEvent => "Privacy_Automation"@,
        PermissionType::RemoteDesktop => "Privacy_RemoteDesktop"@,
        PermissionType::Siri => "Privacy_Siri"@,
        PermissionType::UbiquitousFileProvider => "Privacy_AllFiles"@,
        PermissionType::WillfulWrite => "Privacy_AllFiles"@,
        PermissionType::Notification => "Privacy_Notifications"@,
    }
}

/// The anchor of the privacy pane of `typ` in System Settings.
pub fn privacy_pane(typ: PermissionType) -> (r: &'static str)
    ensures
        r@ == privacy_pane_of(typ),
{
    match typ {
        PermissionType::Camera => "Privacy_Camera",
        PermissionType::Microphone => "Privacy_Microphone",
        PermissionType::Location => "Privacy_LocationServices",
        PermissionType::Calendar => "Privacy_Calendars",
        PermissionType::Reminders => "Privacy_Reminders",
        PermissionType::Contacts => "Privacy_Contacts",
        PermissionType::Bluetooth => "Privacy_Bluetooth",
        PermissionType::Accessibility => "Privacy_Accessibility",
        PermissionType::AccessibilityMouse => "Privacy_Accessibility",
        PermissionType::WiFi => "Privacy_WiFi",
        PermissionType::FullDiskAccess => "Privacy_AllFiles",
        PermissionType::DesktopFolder => "Privacy_DesktopFolder",
        PermissionType::DocumentsFolder => "Privacy_DocumentsFolder",
        PermissionType::DownloadsFolder => "Privacy_DownloadsFolder",
        PermissionType::Photos => "Privacy_Photos",
        PermissionType::SpeechRecognition => "Privacy_SpeechRecognition",
        PermissionType::ScreenCapture => "Privacy_ScreenCapture",
        PermissionType::InputMonitoring => "Privacy_ListenEvent",
        PermissionType::AppleEvents => "Privacy_Automation",
        PermissionType::DeveloperTools => "Privacy_DeveloperTool",
        PermissionType::AdminFiles => "Privacy_SystemPolicyAllFiles",
        PermissionType::NetworkVolumes => "Privacy_AllFiles",
        PermissionType::RemovableVolumes => "Privacy_AllFiles",
        PermissionType::AddressBook => "Privacy_Contacts",
        PermissionType::All => "Privacy",
        PermissionType::Calls => "Privacy_CallHistory",
        PermissionType::FaceID => "Privacy_FaceID",
        PermissionType::FileProviderDomain => "Privacy_AllFiles",
        PermissionType::FileProviderPresence => "Privacy_AllFiles",
        PermissionType::FocusStatus => "Privacy_Focus",
        PermissionType::MediaLibrary => "Privacy_MediaLibrary",
        PermissionType::Motion => "Privacy_Motion",
        PermissionType::NearbyInteraction => "Privacy_NearbyInteraction",
        PermissionType::PhotosAdd => "Privacy_Photos",
        PermissionType::PostEvent => "Privacy_Automation",
        PermissionType::RemoteDesktop => "Privacy_RemoteDesktop",
        PermissionType::Siri => "Privacy_Siri",
        PermissionType::UbiquitousFileProvider => "Privacy_AllFiles",
        PermissionType::WillfulWrite => "Privacy_AllFiles",
        PermissionType::Notification => "Privacy_Notifications",
    }
}

/// The address that opens the privacy pane of a kind.
pub open spec fn settings_url_of(typ: PermissionType) -> Seq<char> {
    "x-apple.systempreferences:com.apple.preference.security?"@ + privacy_pane_of(typ)
}

/// The address that opens the privacy pane of `typ` in System Settings.
pub fn settings_url(typ: PermissionType) -> (r: String)
    ensures
        r@ == settings_url_of(typ),
{
    let mut url = String::from_str("x-apple.systempreferences:com.apple.preference.security?");
    url.append(privacy_pane(typ));
    url
}

/// A path whose readability shows whether a TCC permission is granted.
#[derive(Clone, Copy, Debug, PartialEq, Eq)]
pub enum ProtectedPath {
    /// Relative to the user's home directory.
    InHome(&'static str),
    /// Absolute.
    Absolute(&'static str),
}

/// The protected path of each kind; `None` for kinds that TCC does not guard
/// by a path.
pub open spec fn protected_location_of(typ: PermissionType) -> Option<ProtectedPath> {
    match typ {
        PermissionType::FullDiskAccess => Some(ProtectedPath::InHome("Library/Safari/Bookmarks.plist")),
        PermissionType::DesktopFolder => Some(ProtectedPath::InHome("Desktop")),
        PermissionType::DocumentsFolder => Some(ProtectedPath::InHome("Documents")),
        PermissionType::DownloadsFolder => Some(ProtectedPath::InHome("Downloads")),
        PermissionType::Photos => Some(ProtectedPath::InHome("Pictures/Photos Library.photoslibrary")),
        PermissionType::SpeechRecognition => Some(ProtectedPath::InHome("Library/Preferences/com.apple.speech.recognition.AppleSpeechRecognition.prefs")),
        PermissionType::ScreenCapture => Some(ProtectedPath::InHome("Library/Preferences/com.apple.screencapture.plist")),
        PermissionType::InputMonitoring => Some(ProtectedPath::InHome("Library/Preferences/com.apple.HIToolbox.plist")),
        PermissionType::AppleEvents => Some(ProtectedPath::InHome("Library/Preferences/com.apple.systemevents.plist")),
        PermissionType::DeveloperTools => Some(ProtectedPath::InHome("Library/Preferences/com.apple.dt.Xcode.plist")),
        PermissionType::AdminFiles => Some(ProtectedPath::Absolute("/Library/Preferences/com.apple.TimeMachine.plist")),
        PermissionType::NetworkVolumes => Some(ProtectedPath::Absolute("/Volumes")),
        PermissionType::RemovableVolumes => Some(ProtectedPath::Absolute("/Volumes")),
        PermissionType::AddressBook => Some(ProtectedPath::InHome("Library/Application Support/AddressBook")),
        PermissionType::All => Some(ProtectedPath::InHome("Library")),
        PermissionType::Calls => Some(ProtectedPath::InHome("Library/CallHistoryDB")),
        PermissionType::FaceID => Some(ProtectedPath::InHome("Library/Preferences/com.apple.LocalAuthentication.plist")),
        PermissionType::FileProviderDomain => Some(ProtectedPath::InHome("Library/FileProvider")),
        PermissionType::FileProviderPresence => Some(ProtectedPath::InHome("Library/FileProvider")),
        PermissionType::FocusStatus => Some(ProtectedPath::InHome("Library/Preferences/com.apple.focus.plist")),
        PermissionType::MediaLibrary => Some(ProtectedPath::InHome("Library/Application Support/com.apple.medialibraryd")),
        PermissionType::Motion => Some(ProtectedPath::InHome("Library/Preferences/com.apple.CoreMotion.plist")),
        PermissionType::NearbyInteraction => Some(ProtectedPath::InHome("Library/Preferences/com.apple.nearbyinteraction.plist")),
        PermissionType::PhotosAdd => Some(ProtectedPath::InHome("Pictures/Photos Library.photoslibrary")),
        PermissionType::PostEvent => Some(ProtectedPath::InHome("Library/Preferences/com.apple.systemevents.plist")),
        PermissionType::RemoteDesktop => Some(ProtectedPath::InHome("Library/Preferences/com.apple.RemoteDesktop.plist")),
        PermissionType::Siri => Some(ProtectedPath::InHome("Library/Preferences/com.apple.Siri.plist")),
        PermissionType::UbiquitousFileProvider => Some(ProtectedPath::InHome("Library/Mobile Documents")),
        PermissionType::WillfulWrite => Some(ProtectedPath::InHome("Library/Preferences")),
        _ => None,
    }
}

/// The protected path whose readability shows the TCC status of `typ`.
pub fn protected_location(typ: PermissionType) -> (r: Option<ProtectedPath>)
    ensures
        r == protected_location_of(typ),
{
    match typ {
        PermissionType::FullDiskAccess => Some(ProtectedPath::InHome("Library/Safari/Bookmarks.plist")),
        PermissionType::DesktopFolder => Some(ProtectedPath::InHome("Desktop")),
        PermissionType::DocumentsFolder => Some(ProtectedPath::InHome("Documents")),
        PermissionType::DownloadsFolder => Some(ProtectedPath::InHome("Downloads")),
        PermissionType::Photos => Some(ProtectedPath::InHome("Pictures/Photos Library.photoslibrary")),
        PermissionType::SpeechRecognition => Some(ProtectedPath::InHome("Library/Preferences/com.apple.speech.recognition.AppleSpeechRecognition.prefs")),
        PermissionType::ScreenCapture => Some(ProtectedPath::InHome("Library/Preferences/com.apple.screencapture.plist")),
        PermissionType::InputMonitoring => Some(ProtectedPath::InHome("Library/Preferences/com.apple.HIToolbox.plist")),
        PermissionType::AppleEvents => Some(ProtectedPath::InHome("Library/Preferences/com.apple.systemevents.plist")),
        PermissionType::DeveloperTools => Some(ProtectedPath::InHome("Library/Preferences/com.apple.dt.Xcode.plist")),
        PermissionType::AdminFiles => Some(ProtectedPath::Absolute("/Library/Preferences/com.apple.TimeMachine.plist")),
        PermissionType::NetworkVolumes => Some(ProtectedPath::Absolute("/Volumes")),
        PermissionType::RemovableVolumes => Some(ProtectedPath::Absolute("/Volumes")),
        PermissionType::AddressBook => Some(ProtectedPath::InHome("Library/Application Support/AddressBook")),
        PermissionType::All => Some(ProtectedPath::InHome("Library")),
        PermissionType::Calls => Some(ProtectedPath::InHome("Library/CallHistoryDB")),
        PermissionType::FaceID => Some(ProtectedPath::InHome("Library/Preferences/com.apple.LocalAuthentication.plist")),
        PermissionType::FileProviderDomain => Some(ProtectedPath::InHome("Library/FileProvider")),
        PermissionType::FileProviderPresence => Some(ProtectedPath::InHome("Library/FileProvider")),
        PermissionType::FocusStatus => Some(ProtectedPath::InHome("Library/Preferences/com.apple.focus.plist")),
        PermissionType::MediaLibrary => Some(ProtectedPath::InHome("Library/Application Support/com.apple.medialibraryd")),
        PermissionType::Motion => Some(ProtectedPath::InHome("Library/Preferences/com.apple.CoreMotion.plist")),
        PermissionType::NearbyInteraction => Some(ProtectedPath::InHome("Library/Preferences/com.apple.nearbyinteraction.plist")),
        PermissionType::PhotosAdd => Some(ProtectedPath::InHome("Pictures/Photos Library.photoslibrary")),
        PermissionType::PostEvent => Some(ProtectedPath::InHome("Library/Preferences/com.apple.systemevents.plist")),
        PermissionType::RemoteDesktop => Some(ProtectedPath::InHome("Library/Preferences/com.apple.RemoteDesktop.plist")),
        PermissionType::Siri => Some(ProtectedPath::InHome("Library/Preferences/com.apple.Siri.plist")),
        PermissionType::UbiquitousFileProvider => Some(ProtectedPath::InHome("Library/Mobile Documents")),
        PermissionType::WillfulWrite => Some(ProtectedPath::InHome("Library/Preferences")),
        _ => None,
    }
}

/// `home` joined with `relative` by exactly one separator.
pub open spec fn joined_path(home: Seq<char>, relative: Seq<char>) -> Seq<char> {
    if home.len() > 0 && home.last() == '/' {
        home + relative
    } else {
        home + "/"@ + relative
    }
}

/// The full path of a protected location, for the home directory `home`.
pub fn resolve_protected_path(location: ProtectedPath, home: &str) -> (r: String)
    ensures
        r@ == (match location {
            ProtectedPath::InHome(rel) => joined_path(home@, rel@),
            ProtectedPath::Absolute(p) => p@,
        }),
{
    match location {
        ProtectedPath::InHome(rel) => {
            let mut path = String::from_str(home);
            let n = home.unicode_len();
            let ends_with_separator = n > 0 && home.get_char(n - 1) == '/';
            if !ends_with_separator {
                path.append("/");
            }
            path.append(rel);
            path
        },
        ProtectedPath::Absolute(p) => String::from_str(p),
    }
}

/// Relies on home::home_dir: the current user's home directory, when one is
/// known; kept only when it is valid text. It depends on the environment.
#[verifier::external_body]
fn home_directory() -> (r: Option<String>) {
    match home::home_dir() {
        Some(p) => p.into_os_string().into_string().ok(),
        None => None,
    }
}

/// The protected path of `typ` on this machine: `None` when the kind has no
/// protected path or no home directory is known.
pub fn tcc_protected_path(typ: PermissionType) -> (r: Option<String>)
    ensures
        protected_location_of(typ) is None ==> r is None,
        r matches Some(s) ==> (protected_location_of(typ) matches Some(loc) && match loc {
            ProtectedPath::Absolute(p) => s@ == p@,
            ProtectedPath::InHome(rel) => exists|home: Seq<char>| s@ == joined_path(home, rel@),
        }),
{
    let home = home_directory();
    match home {
        None => None,
        Some(h) => match protected_location(typ) {
            None => None,
            Some(loc) => {
                let path = resolve_protected_path(loc, h.as_str());
                proof {
                    if let ProtectedPath::InHome(rel) = loc {
                        assert(path@ == joined_path(h@, rel@));
                    }
                }
                Some(path)
            },
        },
    }
}

/// The TCC status that an attempt to open a protected path shows: no path
/// means not determined; opened means authorized; refused means denied; any
/// other failure is a system error with the failure's text.
pub fn tcc_access_status(attempt: Option<crate::linux::AccessOutcome>) -> (r: PermissionResult)
    ensures
        match attempt {
            None => r == Ok::<PermissionStatus, PermissionError>(PermissionStatus::NotDetermined),
            Some(crate::linux::AccessOutcome::Granted) => r == Ok::<PermissionStatus, PermissionError>(
                PermissionStatus::Authorized,
            ),
            Some(crate::linux::AccessOutcome::Refused(_)) => r == Ok::<PermissionStatus, PermissionError>(
                PermissionStatus::Denied,
            ),
            Some(crate::linux::AccessOutcome::Missing(e)) => r == Err::<PermissionStatus, PermissionError>(
                PermissionError::SystemError(e),
            ),
            Some(crate::linux::AccessOutcome::Failed(e)) => r == Err::<PermissionStatus, PermissionError>(
                PermissionError::SystemError(e),
            ),
        },
{
    match attempt {
        None => Ok(PermissionStatus::NotDetermined),
        Some(crate::linux::AccessOutcome::Granted) => Ok(PermissionStatus::Authorized),
        Some(crate::linux::AccessOutcome::Refused(_)) => Ok(PermissionStatus::Denied),
        Some(crate::linux::AccessOutcome::Missing(e)) => Err(PermissionError::SystemError(e)),
        Some(crate::linux::AccessOutcome::Failed(e)) => Err(PermissionError::SystemError(e)),
    }
}

/// `UNAuthorizationStatus::NotDetermined`.
pub const NOTIFICATION_NOT_DETERMINED: i64 = 0;

/// `UNAuthorizationStatus::Denied`.
pub const NOTIFICATION_DENIED: i64 = 1;

/// `UNAuthorizationStatus::Authorized`.
pub const NOTIFICATION_AUTHORIZED: i64 = 2;

/// `UNAuthorizationStatus::Provisional`.
pub const NOTIFICATION_PROVISIONAL: i64 = 3;

/// `UNAuthorizationStatus::Ephemeral`.
pub const NOTIFICATION_EPHEMERAL: i64 = 4;

/// The status that a notification authorization code stands for: authorized,
/// provisional and ephemeral grants are all authorized; unknown codes are unknown.
pub fn notification_authorization_status(code: i64) -> (r: PermissionStatus)
    ensures
        r == (if code == NOTIFICATION_AUTHORIZED || code == NOTIFICATION_PROVISIONAL || code
            == NOTIFICATION_EPHEMERAL {
            PermissionStatus::Authorized
        } else if code == NOTIFICATION_DENIED {
            PermissionStatus::Denied
        } else if code == NOTIFICATION_NOT_DETERMINED {
            PermissionStatus::NotDetermined
        } else {
            PermissionStatus::Unknown
        }),
{
    if code == NOTIFICATION_AUTHORIZED || code == NOTIFICATION_PROVISIONAL || code
        == NOTIFICATION_EPHEMERAL {
        PermissionStatus::Authorized
    } else if code == NOTIFICATION_DENIED {
        PermissionStatus::Denied
    } else if code == NOTIFICATION_NOT_DETERMINED {
        PermissionStatus::NotDetermined
    } else {
        PermissionStatus::Unknown
    }
}

/// The outcome that a notification authorization callback reports: its
/// error's description when it carries one, else the user's grant.
pub fn notification_request_outcome(granted: bool, error: Option<String>) -> (r: PermissionResult)
    ensures
        match error {
            Some(d) => r == Err::<PermissionStatus, PermissionError>(PermissionError::SystemError(d)),
            None => r == Ok::<PermissionStatus, PermissionError>(
                if granted {
                    PermissionStatus::Authorized
                } else {
                    PermissionStatus::Denied
                },
            ),
        },
{
    match error {
        Some(d) => Err(PermissionError::SystemError(d)),
        None => {
            if granted {
                Ok(PermissionStatus::Authorized)
            } else {
                Ok(PermissionStatus::Denied)
            }
        },
    }
}

/// A framework whose authorization status is an Apple status code.
#[derive(Clone, Copy, Debug, PartialEq, Eq, Structural)]
pub enum AuthorizationSource {
    /// `AVAuthorizationStatus`.
    AvCapture,
    /// `CLAuthorizationStatus`, whose code 4 is "authorized when in use".
    CoreLocation,
    /// `CBManagerAuthorization`.
    CoreBluetooth,
    /// `EKAuthorizationStatus`, whose code 4 is "write only".
    EventKit,
    /// `CNAuthorizationStatus`, whose code 4 is "limited".
    ContactsStore,
}

/// The status that an authorization code of `source` stands for. All these
/// frameworks share 0 "not determined", 1 "restricted", 2 "denied" and
/// 3 "authorized"; only CoreLocation's code 4 is a grant too.
pub open spec fn framework_status_of(source: AuthorizationSource, code: i64) -> PermissionStatus {
    if code == 1 {
        PermissionStatus::Restricted
    } else if code == 2 {
        PermissionStatus::Denied
    } else if code == 3 || (code == 4 && source == AuthorizationSource::CoreLocation) {
        PermissionStatus::Authorized
    } else {
        PermissionStatus::NotDetermined
    }
}

/// The status that an authorization code of `source` stands for.
pub fn framework_authorization_status(source: AuthorizationSource, code: i64) -> (r: PermissionStatus)
    ensures
        r == framework_status_of(source, code),
{
    if code == 1 {
        PermissionStatus::Restricted
    } else if code == 2 {
        PermissionStatus::Denied
    } else if code == 3 || (code == 4 && source == AuthorizationSource::CoreLocation) {
        PermissionStatus::Authorized
    } else {
        PermissionStatus::NotDetermined
    }
}

/// The status that a yes-or-no grant stands for.
pub fn grant_status(granted: bool) -> (r: PermissionStatus)
    ensures
        r == (if granted {
            PermissionStatus::Authorized
        } else {
            PermissionStatus::Denied
        }),
{
    if granted {
        PermissionStatus::Authorized
    } else {
        PermissionStatus::Denied
    }
}

/// Input monitoring: `IOHIDCheckAccess` code 0 grants access; any other code
/// does not.
pub fn input_monitoring_status(code: u32) -> (r: PermissionStatus)
    ensures
        r == (if code == 0 {
            PermissionStatus::Authorized
        } else {
            PermissionStatus::Denied
        }),
{
    if code == 0 {
        PermissionStatus::Authorized
    } else {
        PermissionStatus::Denied
    }
}

/// A notification-settings query resolved from what its channel delivered:
/// the delivered outcome, or an unknown status when the channel closed.
pub fn settle_settings_query(delivered: Option<PermissionResult>) -> (r: PermissionResult)
    ensures
        match delivered {
            Some(v) => r == v,
            None => r == Ok::<PermissionStatus, PermissionError>(PermissionStatus::Unknown),
        },
{
    match delivered {
        Some(v) => v,
        None => Ok(PermissionStatus::Unknown),
    }
}

/// The start of a cancellable notification request: when the request is
/// already cancelled, `Err(Cancelled)` goes into `tx` and the native request
/// is skipped (`false`); otherwise nothing is sent and the request goes ahead.
pub fn begin_cancellable_request(tx: &mut ResultProducer, cancelled: bool) -> (proceed: bool)
    ensures
        proceed == !cancelled,
        cancelled ==> exists|delivered: bool|
            send_step(old(tx)@, final(tx)@, delivered, Err(PermissionError::Cancelled)),
        !cancelled ==> final(tx)@ == old(tx)@,
{
    if cancelled {
        let delivered = tx.send(Err(PermissionError::Cancelled));
        assert(send_step(old(tx)@, tx@, delivered, Err(PermissionError::Cancelled)));
        false
    } else {
        true
    }
}

} // verus!
