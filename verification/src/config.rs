//! What the client asks of the server.

use vstd::prelude::*;

verus! {

/// The port on which remote desktop servers listen.
pub const DEFAULT_PORT: u16 = 3389;

/// Daylight saving change of a time zone, as the protocol encodes it.
#[verifier::external_type_specification]
#[verifier::external_body]
pub struct ExSystemTime(ironrdp_pdu::rdp::client_info::SystemTime);

/// The bitmap codecs that a client offers.
#[verifier::external_type_specification]
#[verifier::external_body]
pub struct ExBitmapConfig(ironrdp::connector::BitmapConfig);

/// The routing token or cookie of a connection request.
#[verifier::external_type_specification]
#[verifier::external_body]
pub struct ExNegoRequestData(ironrdp_pdu::nego::NegoRequestData);

/// How the user proves who they are.
#[derive(Debug)]
pub enum Credentials {
    UsernamePassword { username: String, password: String },
}

/// The size of the desktop in pixels.
#[derive(Clone, Copy, Debug, PartialEq, Eq, Structural)]
pub struct DesktopSize {
    pub width: u16,
    pub height: u16,
}

/// The kinds of keyboard that the protocol knows.
#[derive(Clone, Copy, Debug, PartialEq, Eq, Structural)]
pub enum KeyboardType {
    IbmPcXt,
    OlivettiIco,
    IbmPcAt,
    IbmEnhanced,
    Nokia1050,
    Nokia9140,
    Japanese,
}

/// The platforms that the client runs on.
#[derive(Clone, Copy, Debug, PartialEq, Eq, Structural)]
pub enum Platform {
    Windows,
    Macintosh,
    Ios,
    Unix,
    Android,
}

/// The time zone of the client.
#[derive(Debug)]
pub struct TimezoneInfo {
    pub bias: i32,
    pub standard_name: String,
    pub standard_date: Option<ironrdp_pdu::rdp::client_info::SystemTime>,
    pub standard_bias: i32,
    pub daylight_name: String,
    pub daylight_date: Option<ironrdp_pdu::rdp::client_info::SystemTime>,
    pub daylight_bias: i32,
}

/// The settings of a connection.
#[derive(Debug)]
pub struct Config {
    pub credentials: Credentials,
    pub domain: Option<String>,
    pub enable_tls: bool,
    pub enable_credssp: bool,
    pub keyboard_type: KeyboardType,
    pub keyboard_subtype: u32,
    pub keyboard_layout: u32,
    pub keyboard_functional_keys_count: u32,
    pub ime_file_name: String,
    pub dig_product_id: String,
    pub desktop_size: DesktopSize,
    pub bitmap: Option<ironrdp::connector::BitmapConfig>,
    pub client_build: u32,
    pub client_name: String,
    pub client_dir: String,
    pub platform: Platform,
    pub enable_server_pointer: bool,
    pub request_data: Option<ironrdp_pdu::nego::NegoRequestData>,
    pub autologon: bool,
    pub enable_audio_playback: bool,
    pub pointer_software_rendering: bool,
    pub performance_flags: u32,
    pub desktop_scale_factor: u32,
    pub hardware_id: Option<[u32; 4]>,
    pub cache_licenses: bool,
    pub timezone_info: TimezoneInfo,
}

impl TimezoneInfo {
    /// Universal time: no offset, no names, no daylight saving.
    pub open spec fn is_universal(self) -> bool {
        &&& self.bias == 0
        &&& self.standard_name@ == Seq::<char>::empty()
        &&& self.standard_date is None
        &&& self.standard_bias == 0
        &&& self.daylight_name@ == Seq::<char>::empty()
        &&& self.daylight_date is None
        &&& self.daylight_bias == 0
    }
}

/// `PerformanceFlags::default`, as the bits that the protocol sends: no full
/// window drag (2), no menu animations (4), font smoothing (0x80).
#[verifier::external_body]
fn default_performance_flags() -> (flags: u32)
    ensures
        flags == 0x86,
{
    ironrdp_pdu::rdp::client_info::PerformanceFlags::default().bits()
}

/// `TimezoneInfo::default`: no offset, no names, no daylight saving.
#[verifier::external_body]
fn default_timezone_info() -> (info: TimezoneInfo)
    ensures
        info.is_universal(),
{
    let info = ironrdp_pdu::rdp::client_info::TimezoneInfo::default();
    TimezoneInfo {
        bias: info.bias,
        standard_name: info.standard_name,
        standard_date: info.standard_date.0,
        standard_bias: info.standard_bias,
        daylight_name: info.daylight_name,
        daylight_date: info.daylight_date.0,
        daylight_bias: info.daylight_bias,
    }
}

/// The platform that goes by this operating system name.
pub open spec fn platform_named(os: Seq<char>) -> Option<Platform> {
    if os == "windows"@ {
        Some(Platform::Windows)
    } else if os == "macos"@ {
        Some(Platform::Macintosh)
    } else if os == "ios"@ {
        Some(Platform::Ios)
    } else if os == "android"@ {
        Some(Platform::Android)
    } else if os == "linux"@ || os == "freebsd"@ || os == "dragonfly"@ || os == "openbsd"@ || os
        == "netbsd"@ {
        Some(Platform::Unix)
    } else {
        None
    }
}

/// The platform to announce on the operating system with this name, where the
/// client runs on it.
pub fn platform_for_os(os: &str) -> (platform: Option<Platform>)
    ensures
        platform == platform_named(os@),
{
    let os = os.to_owned();
    if os == "windows".to_owned() {
        Some(Platform::Windows)
    } else if os == "macos".to_owned() {
        Some(Platform::Macintosh)
    } else if os == "ios".to_owned() {
        Some(Platform::Ios)
    } else if os == "android".to_owned() {
        Some(Platform::Android)
    } else if os == "linux".to_owned() || os == "freebsd".to_owned() || os == "dragonfly".to_owned()
        || os == "openbsd".to_owned() || os == "netbsd".to_owned() {
        Some(Platform::Unix)
    } else {
        None
    }
}

/// The settings of a connection for a user: network level authentication only,
/// a desktop of 1280 by 1024 pixels, automatic logon, no sound, and no pointer
/// drawn by the server, as nobody interacts with the desktop. It offers no
/// bitmap codecs, sends no routing token or cookie of its own and keeps no
/// licenses.
pub fn build_config(
    username: String,
    password: String,
    domain: Option<String>,
    platform: Platform,
) -> (config: Config)
    ensures
        config.credentials == (Credentials::UsernamePassword { username, password }),
        config.domain == domain,
        !config.enable_tls,
        config.enable_credssp,
        config.keyboard_type == KeyboardType::IbmEnhanced,
        config.keyboard_subtype == 0,
        config.keyboard_layout == 0,
        config.keyboard_functional_keys_count == 12,
        config.ime_file_name@ == Seq::<char>::empty(),
        config.dig_product_id@ == Seq::<char>::empty(),
        config.desktop_size == (DesktopSize { width: 1280, height: 1024 }),
        config.bitmap is None,
        config.client_build == 0,
        config.client_name@ == "rdp-screenshot"@,
        config.client_dir@ == "C:\\Windows\\System32\\mstscax.dll"@,
        config.platform == platform,
        !config.enable_server_pointer,
        config.request_data is None,
        config.autologon,
        !config.enable_audio_playback,
        config.pointer_software_rendering,
        config.performance_flags == 0x86,
        config.desktop_scale_factor == 0,
        config.hardware_id is None,
        !config.cache_licenses,
        config.timezone_info.is_universal(),
{
    Config {
        credentials: Credentials::UsernamePassword { username, password },
        domain,
        enable_tls: false,
        enable_credssp: true,
        keyboard_type: KeyboardType::IbmEnhanced,
        keyboard_subtype: 0,
        keyboard_layout: 0,
        keyboard_functional_keys_count: 12,
        ime_file_name: String::new(),
        dig_product_id: String::new(),
        desktop_size: DesktopSize { width: 1280, height: 1024 },
        bitmap: None,
        client_build: 0,
        client_name: "rdp-screenshot".to_owned(),
        client_dir: "C:\\Windows\\System32\\mstscax.dll".to_owned(),
        platform,
        enable_server_pointer: false,
        request_data: None,
        autologon: true,
        enable_audio_playback: false,
        pointer_software_rendering: true,
        performance_flags: default_performance_flags(),
        desktop_scale_factor: 0,
        hardware_id: None,
        cache_licenses: false,
        timezone_info: default_timezone_info(),
    }
}

/// The settings carry the user's name, password and domain and the platform as
/// they were given.
pub proof fn law_config_carries_user(
    username: String,
    password: String,
    domain: Option<String>,
    platform: Platform,
    config: Config,
)
    requires
        call_ensures(build_config, (username, password, domain, platform), config),
    ensures
        config.credentials matches Credentials::UsernamePassword { username: u, password: p }
            && u == username && p == password,
        config.domain == domain,
        config.platform == platform,
{
}

/// Whoever the user is, the connection is authenticated on the network level
/// and never left to TLS alone, the desktop has 1280 by 1024 pixels, the user
/// is logged on, nothing is played, drawn as a pointer by the server, cached or
/// asked for beyond that, and the time is universal.
pub proof fn law_config_is_for_screenshots(
    username: String,
    password: String,
    domain: Option<String>,
    platform: Platform,
    config: Config,
)
    requires
        call_ensures(build_config, (username, password, domain, platform), config),
    ensures
        config.enable_credssp && !config.enable_tls,
        config.desktop_size.width == 1280 && config.desktop_size.height == 1024,
        config.autologon,
        !config.enable_audio_playback,
        !config.enable_server_pointer && config.pointer_software_rendering,
        !config.cache_licenses,
        config.bitmap is None && config.request_data is None && config.hardware_id is None,
        config.keyboard_type == KeyboardType::IbmEnhanced,
        config.keyboard_subtype == 0 && config.keyboard_layout == 0,
        config.keyboard_functional_keys_count == 12,
        config.ime_file_name@.len() == 0 && config.dig_product_id@.len() == 0,
        config.client_build == 0 && config.desktop_scale_factor == 0,
        config.client_name@ == "rdp-screenshot"@,
        config.client_dir@ == "C:\\Windows\\System32\\mstscax.dll"@,
        config.performance_flags == 0x86,
        config.timezone_info.bias == 0 && config.timezone_info.standard_bias == 0
            && config.timezone_info.daylight_bias == 0,
        config.timezone_info.standard_name@.len() == 0
            && config.timezone_info.daylight_name@.len() == 0,
        config.timezone_info.standard_date is None && config.timezone_info.daylight_date is None,
{
}

/// The platform follows from the name of the operating system, and there is one
/// for exactly the systems that the client runs on.
pub proof fn law_platform_for_os(os: &str, platform: Option<Platform>)
    requires
        call_ensures(platform_for_os, (os,), platform),
    ensures
        (platform == Some(Platform::Windows)) == (os@ == "windows"@),
        (platform == Some(Platform::Macintosh)) == (os@ == "macos"@),
        (platform == Some(Platform::Ios)) == (os@ == "ios"@),
        (platform == Some(Platform::Android)) == (os@ == "android"@),
        (platform == Some(Platform::Unix)) == (os@ == "linux"@ || os@ == "freebsd"@ || os@
            == "dragonfly"@ || os@ == "openbsd"@ || os@ == "netbsd"@),
{
    reveal_strlit("windows");
    reveal_strlit("macos");
    reveal_strlit("ios");
    reveal_strlit("android");
    reveal_strlit("linux");
    reveal_strlit("freebsd");
    reveal_strlit("dragonfly");
    reveal_strlit("openbsd");
    reveal_strlit("netbsd");
    assert("windows"@.len() == 7 && "android"@.len() == 7);
    assert("macos"@.len() == 5 && "ios"@.len() == 3);
    assert("linux"@.len() == 5 && "freebsd"@.len() == 7 && "openbsd"@.len() == 7);
    assert("dragonfly"@.len() == 9 && "netbsd"@.len() == 6);
    assert("windows"@[0] != "android"@[0]);
    assert("macos"@[0] != "linux"@[0]);
    assert("windows"@[0] != "freebsd"@[0]);
    assert("windows"@[0] != "openbsd"@[0]);
    assert("android"@[0] != "freebsd"@[0]);
    assert("android"@[0] != "openbsd"@[0]);
}

} // verus!
