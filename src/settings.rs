use vstd::prelude::*;
use crate::hotkey::{is_key_name, lookup_hotkey, Hotkey};

verus! {

/// Configuration file written when none exists or the existing one is invalid.
pub const DEFAULT_CONFIG: &'static str = "{\"time\":10,\"fps\":60,\"kbps\":10000,\"key\":\"F10\", \"encoder\": 0}";

/// Name of the configuration file.
pub const CONFIG_FILE: &'static str = "ack.cfg";

/// Largest accepted frame rate: one frame per nanosecond.
pub const MAX_FPS: i64 = 1_000_000_000;

/// Smallest and largest bitrates, in kilobits per second, whose value in bits
/// per second fits in an `i64`.
pub const MIN_KBPS: i64 = -9_223_372_036_854_775;
pub const MAX_KBPS: i64 = 9_223_372_036_854_775;

/// Largest accepted segment duration in seconds.
pub const MAX_SEGMENT_SECS: i64 = 4_294_967_295;

/// The video encoders the recorder can drive.
#[derive(Clone, Copy, Debug, PartialEq, Eq, Structural)]
pub enum EncoderKind {
    Software,
    Amf,
    Nvenc,
    Qsv,
}

/// Clamps an encoder index into `0..=3`.
pub open spec fn clamp_index(i: int) -> int {
    if i < 0 {
        0
    } else if i > 3 {
        3
    } else {
        i
    }
}

pub open spec fn encoder_of_index(i: int) -> EncoderKind {
    if i <= 0 {
        EncoderKind::Software
    } else if i == 1 {
        EncoderKind::Amf
    } else if i == 2 {
        EncoderKind::Nvenc
    } else {
        EncoderKind::Qsv
    }
}

pub open spec fn index_of_encoder(e: EncoderKind) -> int {
    match e {
        EncoderKind::Software => 0,
        EncoderKind::Amf => 1,
        EncoderKind::Nvenc => 2,
        EncoderKind::Qsv => 3,
    }
}

pub open spec fn codec_name_spec(e: EncoderKind) -> Seq<char> {
    match e {
        EncoderKind::Software => "libx264"@,
        EncoderKind::Amf => "h264_amf"@,
        EncoderKind::Nvenc => "h264_nvenc"@,
        EncoderKind::Qsv => "h264_qsv"@,
    }
}

impl EncoderKind {
    /// The encoder for a configured index, clamped into `0..=3` first.
    pub fn from_index(i: i64) -> (r: EncoderKind)
        ensures
            r == encoder_of_index(clamp_index(i as int)),
            index_of_encoder(r) == clamp_index(i as int),
    {
        if i <= 0 {
            EncoderKind::Software
        } else if i == 1 {
            EncoderKind::Amf
        } else if i == 2 {
            EncoderKind::Nvenc
        } else {
            EncoderKind::Qsv
        }
    }

    pub fn index(&self) -> (r: u8)
        ensures
            r as int == index_of_encoder(*self),
    {
        match self {
            EncoderKind::Software => 0,
            EncoderKind::Amf => 1,
            EncoderKind::Nvenc => 2,
            EncoderKind::Qsv => 3,
        }
    }

    /// The encoder's codec identifier as the encoder process expects it.
    pub fn codec_name(&self) -> (r: &'static str)
        ensures
            r@ == codec_name_spec(*self),
    {
        match self {
            EncoderKind::Software => "libx264",
            EncoderKind::Amf => "h264_amf",
            EncoderKind::Nvenc => "h264_nvenc",
            EncoderKind::Qsv => "h264_qsv",
        }
    }
}

/// A configuration field.
#[derive(Clone, Copy, Debug, PartialEq, Eq, Structural)]
pub enum Field {
    Time,
    Fps,
    Kbps,
    Key,
    Encoder,
}

/// Why a configuration was refused.
#[derive(Clone, Copy, Debug, PartialEq, Eq, Structural)]
pub enum ConfigError {
    /// The field is absent or not of the right JSON type.
    Missing(Field),
    /// The field is present but out of range.
    Invalid(Field),
}

/// Configuration fields as read from the file, numbers truncated to integers.
#[derive(Clone, Debug)]
pub struct RawConfig {
    pub time: Option<i64>,
    pub fps: Option<i64>,
    pub kbps: Option<i64>,
    pub key: Option<String>,
    pub encoder: Option<i64>,
}

/// Session parameters, fixed for a whole run.
#[derive(Debug)]
pub struct Settings {
    /// Segment duration in seconds.
    pub segment_secs: u32,
    /// Frames per second.
    pub fps: u32,
    /// Target bitrate in bits per second.
    pub bitrate_bps: i64,
    pub encoder: EncoderKind,
    /// The save-clip hotkey.
    pub key: Hotkey,
}

impl Settings {
    pub open spec fn wf(&self) -> bool {
        &&& self.segment_secs > 0
        &&& 0 < self.fps <= MAX_FPS
        &&& self.bitrate_bps % 1000 == 0
        &&& MIN_KBPS * 1000 <= self.bitrate_bps <= MAX_KBPS * 1000
    }
}

/// The settings that `DEFAULT_CONFIG` describes.
pub fn default_settings() -> (r: Settings)
    ensures
        r.wf(),
        r.segment_secs == 10,
        r.fps == 60,
        r.bitrate_bps == 10_000_000,
        r.encoder == EncoderKind::Software,
        r.key.spec_name() == "F10"@,
{
    let key = lookup_hotkey("F10").unwrap();
    Settings {
        segment_secs: 10,
        fps: 60,
        bitrate_bps: 10_000_000,
        encoder: EncoderKind::Software,
        key,
    }
}

/// The first field, in the order time, fps, kbps, encoder, key, that is
/// missing or out of range; `None` when every field is acceptable.
pub open spec fn config_error(c: RawConfig) -> Option<ConfigError> {
    if c.time.is_none() {
        Some(ConfigError::Missing(Field::Time))
    } else if c.fps.is_none() {
        Some(ConfigError::Missing(Field::Fps))
    } else if c.kbps.is_none() {
        Some(ConfigError::Missing(Field::Kbps))
    } else if c.encoder.is_none() {
        Some(ConfigError::Missing(Field::Encoder))
    } else if c.key.is_none() {
        Some(ConfigError::Missing(Field::Key))
    } else if !(0 < c.time.unwrap() <= MAX_SEGMENT_SECS) {
        Some(ConfigError::Invalid(Field::Time))
    } else if !(0 < c.fps.unwrap() <= MAX_FPS) {
        Some(ConfigError::Invalid(Field::Fps))
    } else if !(MIN_KBPS <= c.kbps.unwrap() <= MAX_KBPS) {
        Some(ConfigError::Invalid(Field::Kbps))
    } else if !is_key_name(c.key.unwrap()@) {
        Some(ConfigError::Invalid(Field::Key))
    } else {
        None
    }
}

/// Validates configuration fields and looks up the hotkey by name. Kilobits per second become bits per
/// second, and the encoder index is clamped into `0..=3`.
pub fn settings_from_config(c: &RawConfig) -> (r: Result<Settings, ConfigError>)
    ensures
        config_error(*c) is None <==> r is Ok,
        r matches Err(e) ==> config_error(*c) == Some(e),
        r matches Ok(s) ==> {
            &&& s.wf()
            &&& s.segment_secs == c.time.unwrap()
            &&& s.fps == c.fps.unwrap()
            &&& s.bitrate_bps == c.kbps.unwrap() * 1000
            &&& s.encoder == encoder_of_index(clamp_index(c.encoder.unwrap() as int))
            &&& s.key.spec_name() == c.key.unwrap()@
        },
        c.key is Some && c.key.unwrap()@ == "F10"@ ==> is_key_name(c.key.unwrap()@),
{
    let lookup = match &c.key {
        Some(k) => lookup_hotkey(k.as_str()),
        None => None,
    };
    let time = match c.time {
        Some(v) => v,
        None => return Err(ConfigError::Missing(Field::Time)),
    };
    let fps = match c.fps {
        Some(v) => v,
        None => return Err(ConfigError::Missing(Field::Fps)),
    };
    let kbps = match c.kbps {
        Some(v) => v,
        None => return Err(ConfigError::Missing(Field::Kbps)),
    };
    let encoder = match c.encoder {
        Some(v) => v,
        None => return Err(ConfigError::Missing(Field::Encoder)),
    };
    if c.key.is_none() {
        return Err(ConfigError::Missing(Field::Key));
    }
    if !(0 < time && time <= MAX_SEGMENT_SECS) {
        return Err(ConfigError::Invalid(Field::Time));
    }
    if !(0 < fps && fps <= MAX_FPS) {
        return Err(ConfigError::Invalid(Field::Fps));
    }
    if !(MIN_KBPS <= kbps && kbps <= MAX_KBPS) {
        return Err(ConfigError::Invalid(Field::Kbps));
    }
    let code = match lookup {
        Some(k) => k,
        None => return Err(ConfigError::Invalid(Field::Key)),
    };
    Ok(Settings {
        segment_secs: time as u32,
        fps: fps as u32,
        bitrate_bps: kbps * 1000,
        encoder: EncoderKind::from_index(encoder),
        key: code,
    })
}

} // verus!
