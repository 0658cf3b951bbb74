use ack_replay::settings::{
    default_settings, settings_from_config, ConfigError, EncoderKind, Field, RawConfig,
    DEFAULT_CONFIG,
};
use device_query::Keycode;

fn raw(time: i64, fps: i64, kbps: i64, key: &str, encoder: i64) -> RawConfig {
    RawConfig {
        time: Some(time),
        fps: Some(fps),
        kbps: Some(kbps),
        key: Some(key.to_string()),
        encoder: Some(encoder),
    }
}

#[test]
fn documented_config_loads() {
    let s = settings_from_config(&raw(10, 60, 10000, "F10", 0)).unwrap();
    assert_eq!(s.segment_secs, 10);
    assert_eq!(s.fps, 60);
    assert_eq!(s.bitrate_bps, 10_000_000);
    assert_eq!(s.encoder, EncoderKind::Software);
    assert_eq!(s.encoder.codec_name(), "libx264");
    assert_eq!(s.key.code(), Keycode::F10);
    assert_eq!(s.key.name(), "F10");
}

#[test]
fn defaults_match_default_config() {
    let d = default_settings();
    let s = settings_from_config(&raw(10, 60, 10000, "F10", 0)).unwrap();
    assert_eq!(
        (d.segment_secs, d.fps, d.bitrate_bps, d.encoder, d.key.code(), d.key.name()),
        (s.segment_secs, s.fps, s.bitrate_bps, s.encoder, s.key.code(), s.key.name())
    );
}

#[test]
fn missing_fps_is_refused() {
    let mut c = raw(10, 60, 10000, "F10", 0);
    c.fps = None;
    assert_eq!(settings_from_config(&c).unwrap_err(), ConfigError::Missing(Field::Fps));
}

#[test]
fn default_config_text_is_documented_json() {
    assert_eq!(
        DEFAULT_CONFIG,
        "{\"time\":10,\"fps\":60,\"kbps\":10000,\"key\":\"F10\", \"encoder\": 0}"
    );
}

#[test]
fn each_missing_field_is_named() {
    let mut c = raw(10, 60, 10000, "F10", 0);
    c.time = None;
    assert_eq!(settings_from_config(&c).unwrap_err(), ConfigError::Missing(Field::Time));
    let mut c = raw(10, 60, 10000, "F10", 0);
    c.kbps = None;
    assert_eq!(settings_from_config(&c).unwrap_err(), ConfigError::Missing(Field::Kbps));
    let mut c = raw(10, 60, 10000, "F10", 0);
    c.encoder = None;
    assert_eq!(settings_from_config(&c).unwrap_err(), ConfigError::Missing(Field::Encoder));
    let mut c = raw(10, 60, 10000, "F10", 0);
    c.key = None;
    assert_eq!(settings_from_config(&c).unwrap_err(), ConfigError::Missing(Field::Key));
}

#[test]
fn out_of_range_fields_are_refused() {
    assert_eq!(
        settings_from_config(&raw(0, 60, 10000, "F10", 0)).unwrap_err(),
        ConfigError::Invalid(Field::Time)
    );
    assert_eq!(
        settings_from_config(&raw(10, 0, 10000, "F10", 0)).unwrap_err(),
        ConfigError::Invalid(Field::Fps)
    );
    assert_eq!(
        settings_from_config(&raw(10, 60, 9_223_372_036_854_776, "F10", 0)).unwrap_err(),
        ConfigError::Invalid(Field::Kbps)
    );
}

#[test]
fn encoder_index_is_clamped() {
    assert_eq!(settings_from_config(&raw(10, 60, 1, "F10", -5)).unwrap().encoder, EncoderKind::Software);
    assert_eq!(settings_from_config(&raw(10, 60, 1, "F10", 1)).unwrap().encoder, EncoderKind::Amf);
    assert_eq!(settings_from_config(&raw(10, 60, 1, "F10", 2)).unwrap().encoder, EncoderKind::Nvenc);
    assert_eq!(settings_from_config(&raw(10, 60, 1, "F10", 9)).unwrap().encoder, EncoderKind::Qsv);
    assert_eq!(EncoderKind::Qsv.codec_name(), "h264_qsv");
    assert_eq!(EncoderKind::Nvenc.index(), 2);
}

#[test]
fn unknown_key_name_is_refused() {
    assert_eq!(
        settings_from_config(&raw(10, 60, 10000, "NoSuchKey", 0)).unwrap_err(),
        ConfigError::Invalid(Field::Key)
    );
    let s = settings_from_config(&raw(10, 60, 10000, "LControl", 0)).unwrap();
    assert_eq!(s.key.code(), Keycode::LControl);
    assert_eq!(s.key.name(), "LControl");
}

#[test]
fn any_representable_bitrate_loads() {
    assert_eq!(settings_from_config(&raw(10, 60, -5, "F10", 0)).unwrap().bitrate_bps, -5000);
    assert_eq!(settings_from_config(&raw(10, 60, 0, "F10", 0)).unwrap().bitrate_bps, 0);
    assert_eq!(
        settings_from_config(&raw(10, 60, 9_223_372_036_854_775, "F10", 0)).unwrap().bitrate_bps,
        9_223_372_036_854_775_000
    );
}
