//! The connection that the client makes, and the settings that it asks the server for.
use ironrdp::pdu::rdp::capability_sets::{client_codecs_capabilities, BitmapCodecs};
use ironrdp::pdu::rdp::client_info::TimezoneInfo;
use vstd::prelude::*;

verus! {

/// The host that the client connects to.
pub const HOST: &'static str = "192.168.122.56";

/// The port that the client connects to.
pub const PORT: u16 = 3389;

/// The user that logs in.
pub const USER: &'static str = "ardit";

/// Whether the window covers the whole screen.
pub const FULLSCREEN: bool = true;

/// The width of the remote desktop.
pub const DESKTOP_WIDTH: u16 = 1920;

/// The height of the remote desktop.
pub const DESKTOP_HEIGHT: u16 = 1080;

/// How long the window has to keep its size before the size is passed on.
pub const RESIZE_DEBOUNCE_SECS: u64 = 1;

/// How long the session waits for a message of the server before it looks at the input.
pub const READ_TIMEOUT_MS: u64 = 10;

/// The identifier of the RemoteFX codec.
pub const CODEC_ID_REMOTEFX: u8 = 3;

/// `ironrdp::pdu::rdp::capability_sets::BitmapCodecs`: a list of codecs with their settings.
#[verifier::external_type_specification]
#[verifier::external_body]
pub struct ExBitmapCodecs(BitmapCodecs);

/// The identifiers of the codecs in a list.
pub uninterp spec fn codec_ids(codecs: BitmapCodecs) -> Seq<u8>;

/// The contents of a list of texts.
pub open spec fn texts_view(texts: Seq<&str>) -> Seq<Seq<char>> {
    texts.map_values(|text: &str| text@)
}

/// The codecs that a configuration stands for: each entry of it names a codec and turns it on or
/// off. There are none for a configuration that is no such list.
pub uninterp spec fn codecs_for(configuration: Seq<Seq<char>>) -> Option<BitmapCodecs>;

/// `client_codecs_capabilities`: the codecs that a configuration stands for. The empty
/// configuration leaves every codec as it is by default; RemoteFX is on by default and comes first.
/// Which others follow depends on the features that the outside crate is built with. The text of an
/// error can depend on the order in which a hash map is walked, and is left unsaid.
#[verifier::external_body]
fn client_codecs(configuration: &[&str]) -> (codecs: Result<BitmapCodecs, String>)
    ensures
        match codecs_for(texts_view(configuration@)) {
            Some(list) => codecs matches Ok(found) && found == list,
            None => codecs is Err,
        },
        configuration@.len() == 0 ==> codecs is Ok,
        configuration@.len() == 0 ==> codec_ids(codecs->Ok_0).len() > 0,
        configuration@.len() == 0 ==> codec_ids(codecs->Ok_0)[0] == CODEC_ID_REMOTEFX,
{
    client_codecs_capabilities(configuration)
}

/// `ironrdp::pdu::rdp::client_info::TimezoneInfo`: the time zone that the server is told.
#[verifier::external_type_specification]
#[verifier::external_body]
pub struct ExTimezoneInfo(TimezoneInfo);

/// A day and a time of a year, in the numbers of the protocol.
pub struct SystemTimeView {
    pub month: u16,
    pub day_of_week: u16,
    pub day: u16,
    pub hour: u16,
    pub minute: u16,
    pub second: u16,
    pub milliseconds: u16,
}

/// The contents of a time zone.
pub struct TimezoneView {
    pub bias: i32,
    pub standard_name: Seq<char>,
    pub standard_date: Option<SystemTimeView>,
    pub standard_bias: i32,
    pub daylight_name: Seq<char>,
    pub daylight_date: Option<SystemTimeView>,
    pub daylight_bias: i32,
}

/// What a time zone holds.
pub uninterp spec fn timezone_contents(timezone: TimezoneInfo) -> TimezoneView;

/// A time zone without a name, without an offset and without a change of the clock.
pub open spec fn nameless_timezone() -> TimezoneView {
    TimezoneView {
        bias: 0,
        standard_name: Seq::empty(),
        standard_date: None,
        standard_bias: 0,
        daylight_name: Seq::empty(),
        daylight_date: None,
        daylight_bias: 0,
    }
}

/// `TimezoneInfo::default`: a time zone without a name, without an offset and without a change of
/// the clock.
#[verifier::external_body]
fn default_timezone() -> (timezone: TimezoneInfo)
    ensures
        timezone_contents(timezone) == nameless_timezone(),
{
    TimezoneInfo::default()
}

/// The size of a desktop in pixels.
#[derive(Debug, Clone, Copy, PartialEq, Eq, Structural)]
pub struct DesktopSize {
    pub width: u16,
    pub height: u16,
}

/// The kinds of keyboard that the protocol knows.
#[derive(Debug, Clone, Copy, PartialEq, Eq, Structural)]
pub enum KeyboardType {
    IbmPcXt,
    OlivettiIco,
    IbmPcAt,
    IbmEnhanced,
    Nokia1050,
    Nokia9140,
    Japanese,
}

/// The kinds of platform that the client can be said to run on.
#[derive(Debug, Clone, Copy, PartialEq, Eq, Structural)]
pub enum PlatformType {
    Unspecified,
    Windows,
    Os2,
    Macintosh,
    Unix,
    Ios,
    OsX,
    Android,
    ChromeOs,
}

/// The kinds of bulk compression that the protocol knows.
#[derive(Debug, Clone, Copy, PartialEq, Eq, Structural)]
pub enum CompressionType {
    K8,
    K64,
    Rdp6,
    Rdp61,
}

/// The visual effects that the server is asked for.
#[derive(Debug, Clone, Copy, PartialEq, Eq, Structural)]
pub struct PerformanceFlags {
    pub font_smoothing: bool,
    pub desktop_composition: bool,
}

/// What the server is told before anything else, to be routed by.
#[derive(Debug)]
pub enum RequestData {
    RoutingToken(String),
    Cookie(String),
}

/// The contents of a [`RequestData`].
pub enum RequestDataView {
    RoutingToken(Seq<char>),
    Cookie(Seq<char>),
}

impl View for RequestData {
    type V = RequestDataView;

    open spec fn view(&self) -> RequestDataView {
        match *self {
            RequestData::RoutingToken(text) => RequestDataView::RoutingToken(text@),
            RequestData::Cookie(text) => RequestDataView::Cookie(text@),
        }
    }
}

/// The transports that the server is offered beside the connection itself.
#[derive(Debug, Clone, Copy, PartialEq, Eq, Structural)]
pub struct MultitransportFlags {
    pub udp_fecr: bool,
    pub udp_fecl: bool,
    pub udp_preferred: bool,
    pub soft_sync_tcp_to_udp: bool,
}

/// How bitmaps are sent.
pub struct BitmapConfig {
    pub lossy_compression: bool,
    pub color_depth: u32,
    pub codecs: BitmapCodecs,
}

/// The settings of a connection.
pub struct RdpConfig {
    pub username: String,
    pub password: String,
    pub domain: Option<String>,
    pub enable_tls: bool,
    pub enable_credssp: bool,
    pub keyboard_type: KeyboardType,
    pub keyboard_subtype: u32,
    pub keyboard_layout: u32,
    pub keyboard_functional_keys_count: u32,
    pub ime_file_name: String,
    pub dig_product_id: String,
    pub desktop_size: DesktopSize,
    pub desktop_scale_factor: u32,
    pub bitmap: Option<BitmapConfig>,
    pub client_build: u32,
    pub client_name: String,
    pub client_dir: String,
    pub platform: PlatformType,
    pub hardware_id: Option<[u32; 4]>,
    pub enable_server_pointer: bool,
    pub pointer_software_rendering: bool,
    pub autologon: bool,
    pub enable_audio_playback: bool,
    pub compression_type: Option<CompressionType>,
    pub performance_flags: PerformanceFlags,
    pub alternate_shell: String,
    pub work_dir: String,
    pub request_data: Option<RequestData>,
    /// Whether licenses are kept from one connection to the next.
    pub license_cache: bool,
    pub multitransport_flags: Option<MultitransportFlags>,
    pub timezone_info: TimezoneInfo,
}

/// The contents of a [`BitmapConfig`].
pub struct BitmapConfigView {
    pub lossy_compression: bool,
    pub color_depth: u32,
    pub codecs: BitmapCodecs,
}

/// The contents of an [`RdpConfig`].
pub struct RdpConfigView {
    pub username: Seq<char>,
    pub password: Seq<char>,
    pub domain: Option<Seq<char>>,
    pub enable_tls: bool,
    pub enable_credssp: bool,
    pub keyboard_type: KeyboardType,
    pub keyboard_subtype: u32,
    pub keyboard_layout: u32,
    pub keyboard_functional_keys_count: u32,
    pub ime_file_name: Seq<char>,
    pub dig_product_id: Seq<char>,
    pub desktop_size: DesktopSize,
    pub desktop_scale_factor: u32,
    pub bitmap: Option<BitmapConfigView>,
    pub client_build: u32,
    pub client_name: Seq<char>,
    pub client_dir: Seq<char>,
    pub platform: PlatformType,
    pub hardware_id: Option<[u32; 4]>,
    pub enable_server_pointer: bool,
    pub pointer_software_rendering: bool,
    pub autologon: bool,
    pub enable_audio_playback: bool,
    pub compression_type: Option<CompressionType>,
    pub performance_flags: PerformanceFlags,
    pub alternate_shell: Seq<char>,
    pub work_dir: Seq<char>,
    pub request_data: Option<RequestDataView>,
    pub license_cache: bool,
    pub multitransport_flags: Option<MultitransportFlags>,
    pub timezone_info: TimezoneView,
}

impl View for RdpConfig {
    type V = RdpConfigView;

    open spec fn view(&self) -> RdpConfigView {
        RdpConfigView {
            username: self.username@,
            password: self.password@,
            domain: match self.domain {
                Some(domain) => Some(domain@),
                None => None,
            },
            enable_tls: self.enable_tls,
            enable_credssp: self.enable_credssp,
            keyboard_type: self.keyboard_type,
            keyboard_subtype: self.keyboard_subtype,
            keyboard_layout: self.keyboard_layout,
            keyboard_functional_keys_count: self.keyboard_functional_keys_count,
            ime_file_name: self.ime_file_name@,
            dig_product_id: self.dig_product_id@,
            desktop_size: self.desktop_size,
            desktop_scale_factor: self.desktop_scale_factor,
            bitmap: match self.bitmap {
                Some(bitmap) => Some(
                    BitmapConfigView {
                        lossy_compression: bitmap.lossy_compression,
                        color_depth: bitmap.color_depth,
                        codecs: bitmap.codecs,
                    },
                ),
                None => None,
            },
            client_build: self.client_build,
            client_name: self.client_name@,
            client_dir: self.client_dir@,
            platform: self.platform,
            hardware_id: self.hardware_id,
            enable_server_pointer: self.enable_server_pointer,
            pointer_software_rendering: self.pointer_software_rendering,
            autologon: self.autologon,
            enable_audio_playback: self.enable_audio_playback,
            compression_type: self.compression_type,
            performance_flags: self.performance_flags,
            alternate_shell: self.alternate_shell@,
            work_dir: self.work_dir@,
            request_data: match self.request_data {
                Some(data) => Some(data@),
                None => None,
            },
            license_cache: self.license_cache,
            multitransport_flags: self.multitransport_flags,
            timezone_info: timezone_contents(self.timezone_info),
        }
    }
}

/// The settings of the connection for the user with the given password, with these codecs.
pub open spec fn settings(
    password: Seq<char>,
    desktop_size: DesktopSize,
    codecs: BitmapCodecs,
) -> RdpConfigView {
    RdpConfigView {
        username: USER@,
        password,
        domain: None,
        enable_tls: false,
        enable_credssp: true,
        keyboard_type: KeyboardType::IbmEnhanced,
        keyboard_subtype: 0,
        keyboard_layout: 0x409,
        keyboard_functional_keys_count: 12,
        ime_file_name: Seq::empty(),
        dig_product_id: Seq::empty(),
        desktop_size,
        desktop_scale_factor: 0,
        bitmap: Some(BitmapConfigView { lossy_compression: true, color_depth: 32, codecs }),
        client_build: 0,
        client_name: "ironrdp-winit"@,
        client_dir: "C:\\Windows\\System32\\mstscax.dll"@,
        platform: PlatformType::Unix,
        hardware_id: None,
        enable_server_pointer: false,
        pointer_software_rendering: true,
        autologon: false,
        enable_audio_playback: false,
        compression_type: Some(CompressionType::Rdp61),
        performance_flags: (PerformanceFlags { font_smoothing: true, desktop_composition: true }),
        alternate_shell: Seq::empty(),
        work_dir: Seq::empty(),
        request_data: None,
        license_cache: false,
        multitransport_flags: None,
        timezone_info: nameless_timezone(),
    }
}

/// Whether these are the settings of the client: the codecs are those of the empty configuration,
/// the first of which is RemoteFX.
pub open spec fn is_client_configuration(
    config: RdpConfigView,
    password: Seq<char>,
    desktop_size: DesktopSize,
) -> bool {
    codecs_for(Seq::empty()) matches Some(codecs) && config == settings(
        password,
        desktop_size,
        codecs,
    ) && codec_ids(codecs).len() > 0 && codec_ids(codecs)[0] == CODEC_ID_REMOTEFX
}

/// Two configurations of the client differ in nothing but the password and the size of the desktop.
pub proof fn configurations_differ_in_password_and_size(
    a: RdpConfigView,
    a_password: Seq<char>,
    a_size: DesktopSize,
    b: RdpConfigView,
    b_password: Seq<char>,
    b_size: DesktopSize,
)
    requires
        is_client_configuration(a, a_password, a_size),
        is_client_configuration(b, b_password, b_size),
    ensures
        a.password == a_password,
        a.desktop_size == a_size,
        b == (RdpConfigView { password: b_password, desktop_size: b_size, ..a }),
{
}

/// The settings of the connection for the user with the given password.
pub fn build_rdp_config(password: String, desktop_size: DesktopSize) -> (config: RdpConfig)
    ensures
        is_client_configuration(config@, password@, desktop_size),
        config.username@ == USER@,
        config.password@ == password@,
        config.domain is None,
        !config.enable_tls,
        config.enable_credssp,
        config.keyboard_type is IbmEnhanced,
        config.keyboard_subtype == 0,
        config.keyboard_layout == 0x409,
        config.keyboard_functional_keys_count == 12,
        config.ime_file_name@.len() == 0,
        config.dig_product_id@.len() == 0,
        config.desktop_size.width == desktop_size.width,
        config.desktop_size.height == desktop_size.height,
        config.desktop_scale_factor == 0,
        config.bitmap is Some && config.bitmap->Some_0.lossy_compression
            && config.bitmap->Some_0.color_depth == 32,
        codecs_for(Seq::empty()) == Some(config.bitmap->Some_0.codecs),
        config.client_build == 0,
        config.client_name@ == "ironrdp-winit"@,
        config.client_dir@ == "C:\\Windows\\System32\\mstscax.dll"@,
        config.platform is Unix,
        config.hardware_id is None,
        !config.enable_server_pointer,
        config.pointer_software_rendering,
        !config.autologon,
        !config.enable_audio_playback,
        config.compression_type == Some(CompressionType::Rdp61),
        config.performance_flags.font_smoothing && config.performance_flags.desktop_composition,
        config.alternate_shell@.len() == 0,
        config.work_dir@.len() == 0,
        config.request_data is None,
        !config.license_cache,
        config.multitransport_flags is None,
        timezone_contents(config.timezone_info) == nameless_timezone(),
{
    let configuration: Vec<&str> = Vec::new();
    assert(texts_view(configuration@) =~= Seq::empty());
    let codecs = client_codecs(configuration.as_slice()).unwrap();
    let config = RdpConfig {
        username: USER.to_owned(),
        password,
        domain: None,
        enable_tls: false,
        enable_credssp: true,
        keyboard_type: KeyboardType::IbmEnhanced,
        keyboard_subtype: 0,
        keyboard_layout: 0x409,
        keyboard_functional_keys_count: 12,
        ime_file_name: String::new(),
        dig_product_id: String::new(),
        desktop_size,
        desktop_scale_factor: 0,
        bitmap: Some(BitmapConfig { lossy_compression: true, color_depth: 32, codecs }),
        client_build: 0,
        client_name: "ironrdp-winit".to_owned(),
        client_dir: "C:\\Windows\\System32\\mstscax.dll".to_owned(),
        platform: PlatformType::Unix,
        hardware_id: None,
        enable_server_pointer: false,
        pointer_software_rendering: true,
        autologon: false,
        enable_audio_playback: false,
        compression_type: Some(CompressionType::Rdp61),
        performance_flags: PerformanceFlags { font_smoothing: true, desktop_composition: true },
        alternate_shell: String::new(),
        work_dir: String::new(),
        request_data: None,
        license_cache: false,
        multitransport_flags: None,
        timezone_info: default_timezone(),
    };
    proof {
        assert(config@.ime_file_name =~= Seq::empty());
        assert(config@.dig_product_id =~= Seq::empty());
        assert(config@.alternate_shell =~= Seq::empty());
        assert(config@.work_dir =~= Seq::empty());
    }
    config
}

/// Whatever the password and the size of the desktop, they are passed on as they are, the user is
/// authenticated before the session, the pointer is left to the window, and nothing is asked for
/// that this client has no use for.
pub proof fn the_settings_of_the_client_are_fixed(
    config: RdpConfigView,
    password: Seq<char>,
    desktop_size: DesktopSize,
)
    requires
        is_client_configuration(config, password, desktop_size),
    ensures
        config.username == USER@ && config.password == password && config.domain is None,
        config.desktop_size == desktop_size && config.desktop_scale_factor == 0,
        !config.enable_tls && config.enable_credssp && !config.autologon,
        !config.enable_server_pointer && config.pointer_software_rendering,
        !config.enable_audio_playback && !config.license_cache,
        config.request_data is None && config.multitransport_flags is None,
        config.hardware_id is None && config.client_build == 0,
        config.keyboard_type is IbmEnhanced && config.keyboard_subtype == 0,
        config.keyboard_layout == 0x409 && config.keyboard_functional_keys_count == 12,
        config.bitmap is Some && config.bitmap->Some_0.lossy_compression,
        config.bitmap->Some_0.color_depth == 32,
        codec_ids(config.bitmap->Some_0.codecs)[0] == 3,
        config.platform is Unix && config.compression_type == Some(CompressionType::Rdp61),
        config.performance_flags.font_smoothing && config.performance_flags.desktop_composition,
        config.client_name == "ironrdp-winit"@,
        config.client_dir == "C:\\Windows\\System32\\mstscax.dll"@,
        config.ime_file_name.len() == 0 && config.dig_product_id.len() == 0,
        config.alternate_shell.len() == 0 && config.work_dir.len() == 0,
        config.timezone_info.bias == 0 && config.timezone_info.standard_bias == 0
            && config.timezone_info.daylight_bias == 0,
        config.timezone_info.standard_date is None && config.timezone_info.daylight_date is None,
        config.timezone_info.standard_name.len() == 0 && config.timezone_info.daylight_name.len()
            == 0,
{
}

} // verus!
