use rdp_screenshot::config::{
    build_config, platform_for_os, Credentials, DesktopSize, KeyboardType, Platform, DEFAULT_PORT,
};

#[test]
fn default_port_is_the_one_of_the_protocol() {
    assert_eq!(DEFAULT_PORT, 3389);
}

#[test]
fn platforms_by_name() {
    assert_eq!(platform_for_os("windows"), Some(Platform::Windows));
    assert_eq!(platform_for_os("macos"), Some(Platform::Macintosh));
    assert_eq!(platform_for_os("ios"), Some(Platform::Ios));
    assert_eq!(platform_for_os("android"), Some(Platform::Android));
    for os in ["linux", "freebsd", "dragonfly", "openbsd", "netbsd"] {
        assert_eq!(platform_for_os(os), Some(Platform::Unix));
    }
    assert_eq!(platform_for_os("solaris"), None);
    assert_eq!(platform_for_os(""), None);
}

#[test]
fn config_of_a_user() {
    let config = build_config(
        "alice".to_owned(),
        "secret".to_owned(),
        Some("EXAMPLE".to_owned()),
        Platform::Unix,
    );
    let Credentials::UsernamePassword { username, password } = &config.credentials;
    assert_eq!(username, "alice");
    assert_eq!(password, "secret");
    assert_eq!(config.domain.as_deref(), Some("EXAMPLE"));
    assert!(!config.enable_tls);
    assert!(config.enable_credssp);
    assert_eq!(config.keyboard_type, KeyboardType::IbmEnhanced);
    assert_eq!(config.keyboard_subtype, 0);
    assert_eq!(config.keyboard_layout, 0);
    assert_eq!(config.keyboard_functional_keys_count, 12);
    assert_eq!(config.ime_file_name, "");
    assert_eq!(config.dig_product_id, "");
    assert_eq!(config.desktop_size, DesktopSize { width: 1280, height: 1024 });
    assert!(config.bitmap.is_none());
    assert_eq!(config.client_build, 0);
    assert_eq!(config.client_name, "rdp-screenshot");
    assert_eq!(config.client_dir, r"C:\Windows\System32\mstscax.dll");
    assert_eq!(config.platform, Platform::Unix);
    assert!(!config.enable_server_pointer);
    assert!(config.request_data.is_none());
    assert!(config.autologon);
    assert!(!config.enable_audio_playback);
    assert!(config.pointer_software_rendering);
    assert_eq!(config.desktop_scale_factor, 0);
    assert!(config.hardware_id.is_none());
    assert!(!config.cache_licenses);
}

#[test]
fn performance_flags_are_the_defaults_of_the_protocol() {
    let config = build_config(String::new(), String::new(), None, Platform::Windows);
    assert_eq!(config.performance_flags, 0x86);
    assert!(config.domain.is_none());
}

#[test]
fn timezone_is_universal() {
    let config = build_config(String::new(), String::new(), None, Platform::Ios);
    let timezone = config.timezone_info;
    assert_eq!(timezone.bias, 0);
    assert_eq!(timezone.standard_name, "");
    assert!(timezone.standard_date.is_none());
    assert_eq!(timezone.standard_bias, 0);
    assert_eq!(timezone.daylight_name, "");
    assert!(timezone.daylight_date.is_none());
    assert_eq!(timezone.daylight_bias, 0);
}
