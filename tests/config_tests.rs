use kodegen_native_permissions::config::POWERSHELL_APP_ID;
use kodegen_native_permissions::{get_windows_app_id, resolve_app_id, set_windows_app_id, AppIdConfig};

#[test]
fn test_get_set_app_id() {
    let mut config = AppIdConfig::new();
    set_windows_app_id(&mut config, "com.test.app");
    assert_eq!(get_windows_app_id(&config), Some("com.test.app".to_string()));
}

#[test]
fn test_default_is_none() {
    let config = AppIdConfig::new();
    assert!(get_windows_app_id(&config).is_some() || get_windows_app_id(&config).is_none());
}

#[test]
fn fresh_config_has_no_app_id() {
    let config = AppIdConfig::new();
    assert_eq!(get_windows_app_id(&config), None);
}

#[test]
fn setting_twice_keeps_the_last_app_id() {
    let mut config = AppIdConfig::new();
    set_windows_app_id(&mut config, "com.first.app");
    set_windows_app_id(&mut config, "com.second.app");
    assert_eq!(get_windows_app_id(&config), Some("com.second.app".to_string()));
}

#[test]
fn configured_app_id_wins_over_environment() {
    let mut config = AppIdConfig::new();
    set_windows_app_id(&mut config, "com.configured.app");
    let id = resolve_app_id(&config, Some("com.env.app".to_string()));
    assert_eq!(id, "com.configured.app");
}

#[test]
fn environment_app_id_used_when_unconfigured() {
    let config = AppIdConfig::new();
    let id = resolve_app_id(&config, Some("com.env.app".to_string()));
    assert_eq!(id, "com.env.app");
}

#[test]
fn empty_environment_app_id_falls_back_to_powershell() {
    let config = AppIdConfig::new();
    let id = resolve_app_id(&config, Some(String::new()));
    assert_eq!(id, POWERSHELL_APP_ID);
    assert_eq!(
        id,
        "{1AC14E77-02E7-4E5D-B744-2EB1AE5198B7}\\WindowsPowerShell\\v1.0\\powershell.exe"
    );
}

#[test]
fn no_app_id_anywhere_falls_back_to_powershell() {
    let config = AppIdConfig::new();
    assert_eq!(resolve_app_id(&config, None), POWERSHELL_APP_ID);
}
