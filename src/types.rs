//! Permission kinds, statuses and errors.

use vstd::prelude::*;
use vstd::string::StringExecFns;

verus! {

/// Number of distinct permission kinds.
pub const KIND_COUNT: usize = 40;

/// System permission types supported across platforms.
#[derive(Clone, Copy, Debug, PartialEq, Eq, Hash, Structural)]
pub enum PermissionType {
    Camera,
    Microphone,
    Location,
    Calendar,
    Reminders,
    Contacts,
    Bluetooth,
    FullDiskAccess,
    ScreenCapture,
    Accessibility,
    AccessibilityMouse,
    InputMonitoring,
    Photos,
    SpeechRecognition,
    DesktopFolder,
    DocumentsFolder,
    DownloadsFolder,
    AppleEvents,
    DeveloperTools,
    AdminFiles,
    AddressBook,
    All,
    Calls,
    FaceID,
    FileProviderDomain,
    FileProviderPresence,
    FocusStatus,
    MediaLibrary,
    Motion,
    NearbyInteraction,
    PhotosAdd,
    PostEvent,
    RemoteDesktop,
    Siri,
    NetworkVolumes,
    RemovableVolumes,
    UbiquitousFileProvider,
    WillfulWrite,
    WiFi,
    Notification,
}

/// Position of a kind in the fixed enumeration order: a bijection onto `0..KIND_COUNT`.
pub open spec fn kind_index(k: PermissionType) -> nat {
    match k {
        PermissionType::Camera => 0,
        PermissionType::Microphone => 1,
        PermissionType::Location => 2,
        PermissionType::Calendar => 3,
        PermissionType::Reminders => 4,
        PermissionType::Contacts => 5,
        PermissionType::Bluetooth => 6,
        PermissionType::FullDiskAccess => 7,
        PermissionType::ScreenCapture => 8,
        PermissionType::Accessibility => 9,
        PermissionType::AccessibilityMouse => 10,
        PermissionType::InputMonitoring => 11,
        PermissionType::Photos => 12,
        PermissionType::SpeechRecognition => 13,
        PermissionType::DesktopFolder => 14,
        PermissionType::DocumentsFolder => 15,
        PermissionType::DownloadsFolder => 16,
        PermissionType::AppleEvents => 17,
        PermissionType::DeveloperTools => 18,
        PermissionType::AdminFiles => 19,
        PermissionType::AddressBook => 20,
        PermissionType::All => 21,
        PermissionType::Calls => 22,
        PermissionType::FaceID => 23,
        PermissionType::FileProviderDomain => 24,
        PermissionType::FileProviderPresence => 25,
        PermissionType::FocusStatus => 26,
        PermissionType::MediaLibrary => 27,
        PermissionType::Motion => 28,
        PermissionType::NearbyInteraction => 29,
        PermissionType::PhotosAdd => 30,
        PermissionType::PostEvent => 31,
        PermissionType::RemoteDesktop => 32,
        PermissionType::Siri => 33,
        PermissionType::NetworkVolumes => 34,
        PermissionType::RemovableVolumes => 35,
        PermissionType::UbiquitousFileProvider => 36,
        PermissionType::WillfulWrite => 37,
        PermissionType::WiFi => 38,
        PermissionType::Notification => 39,
    }
}

/// The kind at a position of the enumeration order (the inverse of `kind_index`).
pub open spec fn kind_at(i: nat) -> PermissionType {
    if i == 0 {
        PermissionType::Camera
    } else if i == 1 {
        PermissionType::Microphone
    } else if i == 2 {
        PermissionType::Location
    } else if i == 3 {
        PermissionType::Calendar
    } else if i == 4 {
        PermissionType::Reminders
    } else if i == 5 {
        PermissionType::Contacts
    } else if i == 6 {
        PermissionType::Bluetooth
    } else if i == 7 {
        PermissionType::FullDiskAccess
    } else if i == 8 {
        PermissionType::ScreenCapture
    } else if i == 9 {
        PermissionType::Accessibility
    } else if i == 10 {
        PermissionType::AccessibilityMouse
    } else if i == 11 {
        PermissionType::InputMonitoring
    } else if i == 12 {
        PermissionType::Photos
    } else if i == 13 {
        PermissionType::SpeechRecognition
    } else if i == 14 {
        PermissionType::DesktopFolder
    } else if i == 15 {
        PermissionType::DocumentsFolder
    } else if i == 16 {
        PermissionType::DownloadsFolder
    } else if i == 17 {
        PermissionType::AppleEvents
    } else if i == 18 {
        PermissionType::DeveloperTools
    } else if i == 19 {
        PermissionType::AdminFiles
    } else if i == 20 {
        PermissionType::AddressBook
    } else if i == 21 {
        PermissionType::All
    } else if i == 22 {
        PermissionType::Calls
    } else if i == 23 {
        PermissionType::FaceID
    } else if i == 24 {
        PermissionType::FileProviderDomain
    } else if i == 25 {
        PermissionType::FileProviderPresence
    } else if i == 26 {
        PermissionType::FocusStatus
    } else if i == 27 {
        PermissionType::MediaLibrary
    } else if i == 28 {
        PermissionType::Motion
    } else if i == 29 {
        PermissionType::NearbyInteraction
    } else if i == 30 {
        PermissionType::PhotosAdd
    } else if i == 31 {
        PermissionType::PostEvent
    } else if i == 32 {
        PermissionType::RemoteDesktop
    } else if i == 33 {
        PermissionType::Siri
    } else if i == 34 {
        PermissionType::NetworkVolumes
    } else if i == 35 {
        PermissionType::RemovableVolumes
    } else if i == 36 {
        PermissionType::UbiquitousFileProvider
    } else if i == 37 {
        PermissionType::WillfulWrite
    } else if i == 38 {
        PermissionType::WiFi
    } else {
        PermissionType::Notification
    }
}

/// Human-readable name of a permission kind.
pub open spec fn kind_label(k: PermissionType) -> Seq<char> {
    match k {
        PermissionType::Camera => "Camera"@,
        PermissionType::Microphone => "Microphone"@,
        PermissionType::Location => "Location"@,
        PermissionType::Calendar => "Calendar"@,
        PermissionType::Reminders => "Reminders"@,
        PermissionType::Contacts => "Contacts"@,
        PermissionType::Bluetooth => "Bluetooth"@,
        PermissionType::FullDiskAccess => "Full Disk Access"@,
        PermissionType::ScreenCapture => "Screen Capture"@,
        PermissionType::Accessibility => "Accessibility"@,
        PermissionType::AccessibilityMouse => "Accessibility Mouse"@,
        PermissionType::InputMonitoring => "Input Monitoring"@,
        PermissionType::Photos => "Photos"@,
        PermissionType::SpeechRecognition => "Speech Recognition"@,
        PermissionType::DesktopFolder => "Desktop Folder"@,
        PermissionType::DocumentsFolder => "Documents Folder"@,
        PermissionType::DownloadsFolder => "Downloads Folder"@,
        PermissionType::AppleEvents => "Apple Events"@,
        PermissionType::DeveloperTools => "Developer Tools"@,
        PermissionType::AdminFiles => "Admin Files"@,
        PermissionType::AddressBook => "Address Book"@,
        PermissionType::All => "All Permissions"@,
        PermissionType::Calls => "Calls"@,
        PermissionType::FaceID => "Face ID"@,
        PermissionType::FileProviderDomain => "File Provider Domain"@,
        PermissionType::FileProviderPresence => "File Provider Presence"@,
        PermissionType::FocusStatus => "Focus Status"@,
        PermissionType::MediaLibrary => "Media Library"@,
        PermissionType::Motion => "Motion"@,
        PermissionType::NearbyInteraction => "Nearby Interaction"@,
        PermissionType::PhotosAdd => "Photos Add"@,
        PermissionType::PostEvent => "Post Event"@,
        PermissionType::RemoteDesktop => "Remote Desktop"@,
        PermissionType::Siri => "Siri"@,
        PermissionType::NetworkVolumes => "Network Volumes"@,
        PermissionType::RemovableVolumes => "Removable Volumes"@,
        PermissionType::UbiquitousFileProvider => "Ubiquitous File Provider"@,
        PermissionType::WillfulWrite => "Willful Write"@,
        PermissionType::WiFi => "WiFi"@,
        PermissionType::Notification => "Notification"@,
    }
}

/// `kind_at` undoes `kind_index`, so distinct kinds have distinct positions.
pub proof fn lemma_kind_index_bijective(k: PermissionType)
    ensures
        kind_index(k) < KIND_COUNT,
        kind_at(kind_index(k)) == k,
{
}

/// Two kinds with the same position are the same kind.
pub proof fn lemma_kind_index_injective(a: PermissionType, b: PermissionType)
    ensures
        kind_index(a) == kind_index(b) <==> a == b,
{
    lemma_kind_index_bijective(a);
    lemma_kind_index_bijective(b);
}

impl PermissionType {
    /// Position of this kind in the enumeration order.
    pub fn index(self) -> (r: usize)
        ensures
            r == kind_index(self),
            r < KIND_COUNT,
    {
        match self {
            PermissionType::Camera => 0,
            PermissionType::Microphone => 1,
            PermissionType::Location => 2,
            PermissionType::Calendar => 3,
            PermissionType::Reminders => 4,
            PermissionType::Contacts => 5,
            PermissionType::Bluetooth => 6,
            PermissionType::FullDiskAccess => 7,
            PermissionType::ScreenCapture => 8,
            PermissionType::Accessibility => 9,
            PermissionType::AccessibilityMouse => 10,
            PermissionType::InputMonitoring => 11,
            PermissionType::Photos => 12,
            PermissionType::SpeechRecognition => 13,
            PermissionType::DesktopFolder => 14,
            PermissionType::DocumentsFolder => 15,
            PermissionType::DownloadsFolder => 16,
            PermissionType::AppleEvents => 17,
            PermissionType::DeveloperTools => 18,
            PermissionType::AdminFiles => 19,
            PermissionType::AddressBook => 20,
            PermissionType::All => 21,
            PermissionType::Calls => 22,
            PermissionType::FaceID => 23,
            PermissionType::FileProviderDomain => 24,
            PermissionType::FileProviderPresence => 25,
            PermissionType::FocusStatus => 26,
            PermissionType::MediaLibrary => 27,
            PermissionType::Motion => 28,
            PermissionType::NearbyInteraction => 29,
            PermissionType::PhotosAdd => 30,
            PermissionType::PostEvent => 31,
            PermissionType::RemoteDesktop => 32,
            PermissionType::Siri => 33,
            PermissionType::NetworkVolumes => 34,
            PermissionType::RemovableVolumes => 35,
            PermissionType::UbiquitousFileProvider => 36,
            PermissionType::WillfulWrite => 37,
            PermissionType::WiFi => 38,
            PermissionType::Notification => 39,
        }
    }

    /// Human-readable name of this kind.
    pub fn label(self) -> (r: &'static str)
        ensures
            r@ == kind_label(self),
    {
        match self {
            PermissionType::Camera => "Camera",
            PermissionType::Microphone => "Microphone",
            PermissionType::Location => "Location",
            PermissionType::Calendar => "Calendar",
            PermissionType::Reminders => "Reminders",
            PermissionType::Contacts => "Contacts",
            PermissionType::Bluetooth => "Bluetooth",
            PermissionType::FullDiskAccess => "Full Disk Access",
            PermissionType::ScreenCapture => "Screen Capture",
            PermissionType::Accessibility => "Accessibility",
            PermissionType::AccessibilityMouse => "Accessibility Mouse",
            PermissionType::InputMonitoring => "Input Monitoring",
            PermissionType::Photos => "Photos",
            PermissionType::SpeechRecognition => "Speech Recognition",
            PermissionType::DesktopFolder => "Desktop Folder",
            PermissionType::DocumentsFolder => "Documents Folder",
            PermissionType::DownloadsFolder => "Downloads Folder",
            PermissionType::AppleEvents => "Apple Events",
            PermissionType::DeveloperTools => "Developer Tools",
            PermissionType::AdminFiles => "Admin Files",
            PermissionType::AddressBook => "Address Book",
            PermissionType::All => "All Permissions",
            PermissionType::Calls => "Calls",
            PermissionType::FaceID => "Face ID",
            PermissionType::FileProviderDomain => "File Provider Domain",
            PermissionType::FileProviderPresence => "File Provider Presence",
            PermissionType::FocusStatus => "Focus Status",
            PermissionType::MediaLibrary => "Media Library",
            PermissionType::Motion => "Motion",
            PermissionType::NearbyInteraction => "Nearby Interaction",
            PermissionType::PhotosAdd => "Photos Add",
            PermissionType::PostEvent => "Post Event",
            PermissionType::RemoteDesktop => "Remote Desktop",
            PermissionType::Siri => "Siri",
            PermissionType::NetworkVolumes => "Network Volumes",
            PermissionType::RemovableVolumes => "Removable Volumes",
            PermissionType::UbiquitousFileProvider => "Ubiquitous File Provider",
            PermissionType::WillfulWrite => "Willful Write",
            PermissionType::WiFi => "WiFi",
            PermissionType::Notification => "Notification",
        }
    }
}

/// Permission status reported by the system.
#[derive(Clone, Copy, Debug, PartialEq, Eq, Hash, Structural)]
pub enum PermissionStatus {
    /// Permission has not been requested yet.
    NotDetermined,
    /// Permission has been granted.
    Authorized,
    /// Permission has been denied by the user.
    Denied,
    /// Permission is restricted by system policy.
    Restricted,
    /// The user must go through an elevation or consent prompt.
    PromptRequired,
    /// Permission status is unknown.
    Unknown,
}

/// Human-readable name of a status.
pub open spec fn status_label(s: PermissionStatus) -> Seq<char> {
    match s {
        PermissionStatus::NotDetermined => "Not Determined"@,
        PermissionStatus::Authorized => "Authorized"@,
        PermissionStatus::Denied => "Denied"@,
        PermissionStatus::Restricted => "Restricted"@,
        PermissionStatus::PromptRequired => "Prompt Required"@,
        PermissionStatus::Unknown => "Unknown"@,
    }
}

impl PermissionStatus {
    /// Human-readable name of this status.
    pub fn label(self) -> (r: &'static str)
        ensures
            r@ == status_label(self),
    {
        match self {
            PermissionStatus::NotDetermined => "Not Determined",
            PermissionStatus::Authorized => "Authorized",
            PermissionStatus::Denied => "Denied",
            PermissionStatus::Restricted => "Restricted",
            PermissionStatus::PromptRequired => "Prompt Required",
            PermissionStatus::Unknown => "Unknown",
        }
    }
}

/// Errors that can occur during permission operations.
#[derive(Clone, Debug, PartialEq, Eq)]
pub enum PermissionError {
    Denied,
    Restricted,
    SystemError(String),
    PlatformError(String),
    Unknown,
    Cancelled,
}

/// Outcome of a check or a request.
pub type PermissionResult = Result<PermissionStatus, PermissionError>;

/// Human-readable description of an error.
pub open spec fn error_message(e: PermissionError) -> Seq<char> {
    match e {
        PermissionError::Denied => "Permission denied"@,
        PermissionError::Restricted => "Permission restricted"@,
        PermissionError::SystemError(s) => "System error: "@ + s@,
        PermissionError::PlatformError(s) => "Platform error: "@ + s@,
        PermissionError::Unknown => "Unknown error"@,
        PermissionError::Cancelled => "Operation cancelled"@,
    }
}

impl PermissionError {
    /// Human-readable description of this error.
    pub fn message(&self) -> (r: String)
        ensures
            r@ == error_message(*self),
    {
        match self {
            PermissionError::Denied => String::from_str("Permission denied"),
            PermissionError::Restricted => String::from_str("Permission restricted"),
            PermissionError::SystemError(s) => {
                let mut r = String::from_str("System error: ");
                r.append(s.as_str());
                r
            },
            PermissionError::PlatformError(s) => {
                let mut r = String::from_str("Platform error: ");
                r.append(s.as_str());
                r
            },
            PermissionError::Unknown => String::from_str("Unknown error"),
            PermissionError::Cancelled => String::from_str("Operation cancelled"),
        }
    }
}

} // verus!
