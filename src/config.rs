//! Device configuration as stored by the server, and the settings that the
//! endpoint bridge takes from it.
use vstd::prelude::*;

use crate::client::hex_digits;
use crate::text::same_text;

verus! {

#[derive(Clone, Copy, Debug, PartialEq, Eq)]
pub enum WillowAudioCodec {
    AmrWb,
    Pcm,
}

#[derive(Clone, Copy, Debug, PartialEq, Eq)]
pub enum WillowAudioResponseType {
    Chimes,
    Silent,
    Tts,
}

/// The kind of external command target that devices' commands go to.
#[derive(Clone, Copy, Debug, PartialEq, Eq)]
pub enum WillowCommandEndpoint {
    HomeAssistant,
    OpenHab,
    Mqtt,
    Rest,
}

#[derive(Clone, Copy, Debug, PartialEq, Eq)]
pub enum WillowMqttAuthType {
    NoAuth,
    UserPw,
}

#[derive(Clone, Copy, Debug, PartialEq, Eq)]
pub enum WillowNtpConfig {
    Dhcp,
    Host,
}

#[derive(Clone, Copy, Debug, PartialEq, Eq)]
pub enum WillowRestAuthType {
    NoneType,
    Basic,
    Header,
}

#[derive(Clone, Copy, Debug, PartialEq, Eq)]
pub enum WillowSpeechRecMode {
    Wis,
}

#[derive(Clone, Copy, Debug, PartialEq, Eq)]
pub enum WillowWakeMode {
    _1Ch90,
    _1Ch95,
    _2Ch90,
    _2Ch95,
    _3Ch90,
    _3Ch95,
}

#[derive(Clone, Copy, Debug, PartialEq, Eq)]
pub enum WillowWakeWord {
    Alexa,
    Hiesp,
    Hilexin,
}

/// The configuration that the server stores and pushes to devices.
#[derive(Clone, Debug)]
pub struct WillowConfig {
    pub aec: bool,
    pub audio_codec: WillowAudioCodec,
    pub audio_response_type: WillowAudioResponseType,
    pub bss: bool,
    pub command_endpoint: WillowCommandEndpoint,
    pub display_timeout: u32,
    pub hass_host: Option<String>,
    pub hass_port: Option<u16>,
    pub hass_tls: Option<bool>,
    pub hass_token: Option<String>,
    pub lcd_brightness: u32,
    pub mic_gain: u8,
    pub mqtt_auth_type: Option<WillowMqttAuthType>,
    pub mqtt_host: Option<String>,
    pub mqtt_password: Option<String>,
    pub mqtt_port: Option<String>,
    pub mqtt_tls: Option<bool>,
    pub mqtt_topic: Option<String>,
    pub mqtt_username: Option<String>,
    pub multiwake: bool,
    pub ntp_config: WillowNtpConfig,
    pub ntp_host: Option<String>,
    pub openhab_token: Option<String>,
    pub openhab_url: Option<String>,
    pub record_buffer: u8,
    pub rest_auth_header: Option<String>,
    pub rest_auth_pass: Option<String>,
    pub rest_auth_type: Option<WillowRestAuthType>,
    pub rest_auth_user: Option<String>,
    pub rest_url: Option<String>,
    pub show_prereleases: bool,
    pub speaker_volume: u8,
    pub speech_rec_mode: Option<WillowSpeechRecMode>,
    pub stream_timeout: u8,
    pub timezone: String,
    pub timezone_name: String,
    pub vad_mode: u8,
    pub vad_timeout: u32,
    pub wake_confirmation: bool,
    pub wake_mode: WillowWakeMode,
    pub wake_word: WillowWakeWord,
    pub was_mode: bool,
    pub wis_tts_url: Option<String>,
    pub wis_tts_url_v2: Option<String>,
    pub wis_url: String,
}

/// The `WAS` namespace of a device's non-volatile settings.
#[derive(Clone, Debug, PartialEq, Eq)]
pub struct WillowNvsWas {
    pub url: String,
}

/// The `WIFI` namespace of a device's non-volatile settings.
#[derive(Clone, Debug, PartialEq, Eq)]
pub struct WillowNvsWifi {
    pub psk: String,
    pub ssid: String,
}

/// A device's non-volatile settings.
#[derive(Clone, Debug, PartialEq, Eq)]
pub struct WillowNvsConfig {
    pub was: WillowNvsWas,
    pub wifi: WillowNvsWifi,
}

/// Why the bridge cannot be configured.
#[derive(Clone, Copy, Debug, PartialEq, Eq)]
pub enum ConfigError {
    /// The configured kind of command endpoint is not implemented.
    Unimplemented(WillowCommandEndpoint),
    MissingHost,
    MissingPort,
    MissingTls,
    MissingToken,
    /// The target address does not parse as a URL.
    InvalidUrl,
}

/// Where the endpoint bridge connects, and how it authenticates. Replaced as
/// a whole when the configuration changes.
#[derive(Clone, Debug, PartialEq, Eq)]
pub struct BridgeConfig {
    pub url: String,
    pub token: String,
    pub tls: bool,
    pub kind: WillowCommandEndpoint,
}

/// A number in decimal digits, without leading zeros.
pub open spec fn decimal(n: nat) -> Seq<char>
    decreases n,
{
    if n < 10 {
        seq![hex_digits()[n as int]]
    } else {
        decimal(n / 10) + seq![hex_digits()[(n % 10) as int]]
    }
}

/// The WebSocket address of a Home Assistant instance.
pub open spec fn endpoint_url(host: Seq<char>, port: u16, tls: bool) -> Seq<char> {
    (if tls { "wss://"@ } else { "ws://"@ }) + host + ":"@ + decimal(port as nat) + "/api/websocket"@
}

/// Whether the URL parser accepts a text as an absolute URL.
pub uninterp spec fn url_parses(s: Seq<char>) -> bool;

/// Relies on the `Display` of integers in std, which writes them in decimal
/// digits without leading zeros.
#[verifier::external_body]
fn port_text(port: u16) -> (r: String)
    ensures
        r@ == decimal(port as nat),
{
    port.to_string()
}

/// Relies on `reqwest::Url::parse` (the `url` crate): whether the text is an
/// absolute URL. The answer depends on the text alone.
#[verifier::external_body]
fn url_is_valid(s: &str) -> (r: bool)
    ensures
        r == url_parses(s@),
{
    reqwest::Url::parse(s).is_ok()
}

impl BridgeConfig {
    /// The bridge settings that a device configuration selects. Only the
    /// Home Assistant endpoint is implemented, and its host, port, TLS flag
    /// and token must all be set.
    pub fn from_config(config: &WillowConfig) -> (r: Result<BridgeConfig, ConfigError>)
        ensures
            config.command_endpoint != WillowCommandEndpoint::HomeAssistant
                ==> r == Err::<BridgeConfig, ConfigError>(ConfigError::Unimplemented(config.command_endpoint)),
            config.command_endpoint == WillowCommandEndpoint::HomeAssistant ==> match (
                config.hass_host,
                config.hass_port,
                config.hass_tls,
                config.hass_token,
            ) {
                (None, _, _, _) => r == Err::<BridgeConfig, ConfigError>(ConfigError::MissingHost),
                (Some(_), None, _, _) => r == Err::<BridgeConfig, ConfigError>(ConfigError::MissingPort),
                (Some(_), Some(_), None, _) => r == Err::<BridgeConfig, ConfigError>(ConfigError::MissingTls),
                (Some(_), Some(_), Some(_), None) => r == Err::<BridgeConfig, ConfigError>(ConfigError::MissingToken),
                (Some(host), Some(port), Some(tls), Some(token)) => {
                    let url = endpoint_url(host@, port, tls);
                    if url_parses(url) {
                        r matches Ok(b) && b.url@ == url && b.token@ == token@ && b.tls == tls
                            && b.kind == WillowCommandEndpoint::HomeAssistant
                    } else {
                        r == Err::<BridgeConfig, ConfigError>(ConfigError::InvalidUrl)
                    }
                },
            },
    {
        match config.command_endpoint {
            WillowCommandEndpoint::HomeAssistant => {},
            other => {
                return Err(ConfigError::Unimplemented(other));
            },
        }
        let host = match &config.hass_host {
            Some(h) => h,
            None => {
                return Err(ConfigError::MissingHost);
            },
        };
        let port = match config.hass_port {
            Some(p) => p,
            None => {
                return Err(ConfigError::MissingPort);
            },
        };
        let tls = match config.hass_tls {
            Some(t) => t,
            None => {
                return Err(ConfigError::MissingTls);
            },
        };
        let token = match &config.hass_token {
            Some(t) => t,
            None => {
                return Err(ConfigError::MissingToken);
            },
        };
        let mut url = String::from_str(if tls { "wss://" } else { "ws://" });
        url.append(host.as_str());
        url.append(":");
        let port_digits = port_text(port);
        url.append(port_digits.as_str());
        url.append("/api/websocket");
        if !url_is_valid(url.as_str()) {
            return Err(ConfigError::InvalidUrl);
        }
        Ok(BridgeConfig { url, token: token.clone(), tls, kind: WillowCommandEndpoint::HomeAssistant })
    }
}

/// The text with every character in lower case, as the standard library's
/// Unicode case mapping gives it.
pub uninterp spec fn lower_of(s: Seq<char>) -> Seq<char>;

/// Relies on `str::to_lowercase`: the result depends on the characters alone.
#[verifier::external_body]
fn lowercase(s: &str) -> (r: String)
    ensures
        r@ == lower_of(s@),
{
    s.to_lowercase()
}

/// The truth value that a lower-case word names.
pub open spec fn bool_word(t: Seq<char>) -> Option<bool> {
    if t == "true"@ {
        Some(true)
    } else if t == "false"@ {
        Some(false)
    } else {
        None
    }
}

/// Reads `true` or `false` from a word already in lower case.
pub fn bool_from_lowercase(t: &str) -> (r: Option<bool>)
    ensures
        r == bool_word(t@),
{
    if same_text(t, "true") {
        Some(true)
    } else if same_text(t, "false") {
        Some(false)
    } else {
        None
    }
}

/// Reads a stored flag: `true` or `false` in any mix of cases.
pub fn parse_bool_text(s: &str) -> (r: Option<bool>)
    ensures
        r == bool_word(lower_of(s@)),
{
    let lower = lowercase(s);
    bool_from_lowercase(lower.as_str())
}

/// The value of a text of decimal digits.
pub open spec fn digits_value(s: Seq<char>) -> int
    decreases s.len(),
{
    if s.len() == 0 {
        0
    } else {
        digits_value(s.drop_last()) * 10 + (s.last() as int - '0' as int)
    }
}

pub open spec fn all_digits(s: Seq<char>) -> bool {
    forall|i: int| 0 <= i < s.len() ==> '0' <= #[trigger] s[i] <= '9'
}

/// The number that a text writes as an optional `+` followed by one or
/// more decimal digits, when it is at most `max`.
pub open spec fn unsigned_text(s: Seq<char>, max: int) -> Option<int> {
    let body = if s.len() > 0 && s[0] == '+' { s.drop_first() } else { s };
    if body.len() > 0 && all_digits(body) && digits_value(body) <= max {
        Some(digits_value(body))
    } else {
        None
    }
}

/// Relies on `u8::from_str`, which accepts an optional `+` followed by
/// decimal digits whose value fits, and nothing else.
#[verifier::external_body]
fn parse_u8(s: &str) -> (r: Option<u8>)
    ensures
        r matches Some(n) ==> unsigned_text(s@, u8::MAX as int) == Some(n as int),
        r is None ==> unsigned_text(s@, u8::MAX as int) is None,
{
    s.parse::<u8>().ok()
}

/// Relies on `u16::from_str`, which accepts an optional `+` followed by
/// decimal digits whose value fits, and nothing else.
#[verifier::external_body]
fn parse_u16(s: &str) -> (r: Option<u16>)
    ensures
        r matches Some(n) ==> unsigned_text(s@, u16::MAX as int) == Some(n as int),
        r is None ==> unsigned_text(s@, u16::MAX as int) is None,
{
    s.parse::<u16>().ok()
}

/// Relies on `u32::from_str`, which accepts an optional `+` followed by
/// decimal digits whose value fits, and nothing else.
#[verifier::external_body]
fn parse_u32(s: &str) -> (r: Option<u32>)
    ensures
        r matches Some(n) ==> unsigned_text(s@, u32::MAX as int) == Some(n as int),
        r is None ==> unsigned_text(s@, u32::MAX as int) is None,
{
    s.parse::<u32>().ok()
}

/// A stored setting that is not what its field needs.
#[derive(Clone, Copy, Debug, PartialEq, Eq)]
pub enum SettingError {
    NotAFlag,
    NotANumber,
}

/// A stored flag.
pub fn flag_setting(s: &str) -> (r: Result<bool, SettingError>)
    ensures
        match bool_word(lower_of(s@)) {
            Some(b) => r == Ok::<bool, SettingError>(b),
            None => r == Err::<bool, SettingError>(SettingError::NotAFlag),
        },
{
    match parse_bool_text(s) {
        Some(b) => Ok(b),
        None => Err(SettingError::NotAFlag),
    }
}

/// A stored number that must fit in a byte.
pub fn u8_setting(s: &str) -> (r: Result<u8, SettingError>)
    ensures
        match unsigned_text(s@, u8::MAX as int) {
            Some(n) => r matches Ok(v) && v as int == n,
            None => r == Err::<u8, SettingError>(SettingError::NotANumber),
        },
{
    match parse_u8(s) {
        Some(n) => Ok(n),
        None => Err(SettingError::NotANumber),
    }
}

/// A stored number that must fit in 16 bits, such as a port.
pub fn u16_setting(s: &str) -> (r: Result<u16, SettingError>)
    ensures
        match unsigned_text(s@, u16::MAX as int) {
            Some(n) => r matches Ok(v) && v as int == n,
            None => r == Err::<u16, SettingError>(SettingError::NotANumber),
        },
{
    match parse_u16(s) {
        Some(n) => Ok(n),
        None => Err(SettingError::NotANumber),
    }
}

/// A stored number that must fit in 32 bits.
pub fn u32_setting(s: &str) -> (r: Result<u32, SettingError>)
    ensures
        match unsigned_text(s@, u32::MAX as int) {
            Some(n) => r matches Ok(v) && v as int == n,
            None => r == Err::<u32, SettingError>(SettingError::NotANumber),
        },
{
    match parse_u32(s) {
        Some(n) => Ok(n),
        None => Err(SettingError::NotANumber),
    }
}

} // verus!
