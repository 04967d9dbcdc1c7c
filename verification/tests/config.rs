use rdp_client::config::{
    build_rdp_config, CompressionType, DesktopSize, KeyboardType, PlatformType, CODEC_ID_REMOTEFX,
    DESKTOP_HEIGHT, DESKTOP_WIDTH, FULLSCREEN, HOST, PORT, READ_TIMEOUT_MS, RESIZE_DEBOUNCE_SECS,
    USER,
};

#[test]
fn the_connection_is_fixed() {
    assert_eq!(HOST, "192.168.122.56");
    assert_eq!(PORT, 3389);
    assert_eq!(USER, "ardit");
    assert!(FULLSCREEN);
    assert_eq!((DESKTOP_WIDTH, DESKTOP_HEIGHT), (1920, 1080));
    assert_eq!(RESIZE_DEBOUNCE_SECS, 1);
    assert_eq!(READ_TIMEOUT_MS, 10);
}

#[test]
fn the_settings_are_those_of_the_client() {
    let desktop_size = DesktopSize { width: 1280, height: 720 };
    let config = build_rdp_config(String::from("geheim"), desktop_size);
    assert_eq!(config.username, "ardit");
    assert_eq!(config.password, "geheim");
    assert_eq!(config.domain, None);
    assert!(!config.enable_tls);
    assert!(config.enable_credssp);
    assert_eq!(config.keyboard_type, KeyboardType::IbmEnhanced);
    assert_eq!(config.keyboard_subtype, 0);
    assert_eq!(config.keyboard_layout, 0x409);
    assert_eq!(config.keyboard_functional_keys_count, 12);
    assert_eq!(config.ime_file_name, "");
    assert_eq!(config.dig_product_id, "");
    assert_eq!(config.desktop_size, desktop_size);
    assert_eq!(config.desktop_scale_factor, 0);
    assert_eq!(config.client_build, 0);
    assert_eq!(config.client_name, "ironrdp-winit");
    assert_eq!(config.client_dir, "C:\\Windows\\System32\\mstscax.dll");
    assert_eq!(config.platform, PlatformType::Unix);
    assert_eq!(config.hardware_id, None);
    assert!(!config.enable_server_pointer);
    assert!(config.pointer_software_rendering);
    assert!(!config.autologon);
    assert!(!config.enable_audio_playback);
    assert_eq!(config.compression_type, Some(CompressionType::Rdp61));
    assert!(config.performance_flags.font_smoothing);
    assert!(config.performance_flags.desktop_composition);
    assert_eq!(config.alternate_shell, "");
    assert_eq!(config.work_dir, "");
    assert!(config.request_data.is_none());
    assert!(!config.license_cache);
    assert_eq!(config.multitransport_flags, None);
    let timezone = config.timezone_info;
    assert_eq!((timezone.bias, timezone.standard_bias, timezone.daylight_bias), (0, 0, 0));
    assert_eq!((timezone.standard_name.as_str(), timezone.daylight_name.as_str()), ("", ""));
    assert!(timezone.standard_date.0.is_none() && timezone.daylight_date.0.is_none());
}

#[test]
fn configurations_differ_only_where_they_are_told_to() {
    let small = DesktopSize { width: 640, height: 480 };
    let large = DesktopSize { width: 1920, height: 1080 };
    let a = build_rdp_config(String::from("a"), small);
    let b = build_rdp_config(String::from("b"), large);
    assert_eq!((a.password.as_str(), a.desktop_size), ("a", small));
    assert_eq!((b.password.as_str(), b.desktop_size), ("b", large));
    assert_eq!((&a.username, &a.client_name), (&b.username, &b.client_name));
    let codecs = |config: rdp_client::config::RdpConfig| {
        config.bitmap.expect("bitmaps are configured").codecs
    };
    assert_eq!(codecs(a), codecs(b));
}

#[test]
fn remotefx_is_offered_first() {
    let desktop_size = DesktopSize { width: 1920, height: 1080 };
    let config = build_rdp_config(String::from("geheim"), desktop_size);
    let bitmap = config.bitmap.expect("bitmaps are configured");
    assert!(bitmap.lossy_compression);
    assert_eq!(bitmap.color_depth, 32);
    assert_eq!(bitmap.codecs.0[0].id, CODEC_ID_REMOTEFX);
    assert_eq!(bitmap.codecs.0[0].id, 3);
}
