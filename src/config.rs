//! Configuration of the application identifier that branded notifications use.

use vstd::prelude::*;
use vstd::string::StringExecFns;

verus! {

/// PowerShell's application user model id: the identifier used when none is
/// configured, under which notifications show as "Windows PowerShell".
pub const POWERSHELL_APP_ID: &'static str =
    "{1AC14E77-02E7-4E5D-B744-2EB1AE5198B7}\\WindowsPowerShell\\v1.0\\powershell.exe";

/// Adapter configuration: the application identifier for notification
/// branding, if one was set.
pub struct AppIdConfig {
    app_id: Option<String>,
}

impl View for AppIdConfig {
    type V = Option<Seq<char>>;

    closed spec fn view(&self) -> Option<Seq<char>> {
        match self.app_id {
            Some(s) => Some(s@),
            None => None,
        }
    }
}

impl AppIdConfig {
    /// A configuration with no identifier set.
    pub fn new() -> (r: AppIdConfig)
        ensures
            r@ is None,
    {
        AppIdConfig { app_id: None }
    }
}

/// Sets the application identifier, replacing any earlier one.
pub fn set_windows_app_id(config: &mut AppIdConfig, app_id: &str)
    ensures
        final(config)@ == Some(app_id@),
{
    config.app_id = Some(String::from_str(app_id));
}

/// The configured application identifier, if any.
pub fn get_windows_app_id(config: &AppIdConfig) -> (r: Option<String>)
    ensures
        r is Some == config@ is Some,
        r matches Some(s) ==> config@ == Some(s@),
{
    match &config.app_id {
        Some(s) => Some(s.clone()),
        None => None,
    }
}

/// The identifier to brand notifications with: the configured one; else the
/// one from the environment, unless it is empty; else PowerShell's.
pub open spec fn chosen_app_id(configured: Option<Seq<char>>, from_env: Option<Seq<char>>) -> Seq<char> {
    match configured {
        Some(c) => c,
        None => match from_env {
            Some(e) if e.len() > 0 => e,
            _ => POWERSHELL_APP_ID@,
        },
    }
}

/// Picks the identifier by the fallback chain: explicit configuration, then
/// the environment's value, then PowerShell's identifier.
pub fn resolve_app_id(config: &AppIdConfig, from_env: Option<String>) -> (r: String)
    ensures
        r@ == chosen_app_id(config@, match from_env {
            Some(e) => Some(e@),
            None => None,
        }),
{
    match get_windows_app_id(config) {
        Some(id) => id,
        None => match from_env {
            Some(e) => {
                if e.as_str().is_empty() {
                    String::from_str(POWERSHELL_APP_ID)
                } else {
                    e
                }
            },
            None => String::from_str(POWERSHELL_APP_ID),
        },
    }
}

} // verus!
