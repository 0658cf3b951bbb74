use ack_replay::settings::{default_settings, EncoderKind};
use ack_replay::spawn::{clip_file_name, clip_name_at, concat_args, decimal_string, signed_decimal_string, frame_bytes, segment_args};

#[test]
fn decimal_strings() {
    assert_eq!(decimal_string(0), "0");
    assert_eq!(decimal_string(1920), "1920");
    assert_eq!(decimal_string(u64::MAX), u64::MAX.to_string());
}

#[test]
fn segment_arguments() {
    let mut s = default_settings();
    s.encoder = EncoderKind::Nvenc;
    let a = segment_args(&s, 1920, 1080);
    let expected = [
        "-y", "-f", "rawvideo", "-vcodec", "rawvideo", "-pixel_format", "bgra", "-video_size",
        "1920x1080", "-framerate", "60", "-i", "-", "-c:v", "h264_nvenc", "-tune", "zerolatency",
        "-b:v", "10000k", "-pix_fmt", "yuv420p", "-f", "segment", "-segment_time", "10",
        "-segment_wrap", "2", "-reset_timestamps", "1", "buffer%d.mp4",
    ];
    assert_eq!(a, expected.iter().map(|x| x.to_string()).collect::<Vec<_>>());
}

#[test]
fn concat_arguments_and_clip_name() {
    let name = clip_file_name("2024-01-02.03_04_05");
    assert_eq!(name, "clip_2024-01-02.03_04_05.mp4");
    let a = concat_args(&name);
    assert_eq!(
        a,
        ["-y", "-f", "concat", "-safe", "0", "-i", "concat_list.txt", "-c", "copy", "clip_2024-01-02.03_04_05.mp4"]
            .iter()
            .map(|x| x.to_string())
            .collect::<Vec<_>>()
    );
}

#[test]
fn frame_sizes() {
    assert_eq!(frame_bytes(1920, 1080), Some(8_294_400));
    assert_eq!(frame_bytes(u32::MAX, u32::MAX), None);
}

#[test]
fn clip_name_from_unix_time() {
    assert_eq!(clip_name_at(0).unwrap(), "clip_1970-01-01.00_00_00.mp4");
    assert_eq!(clip_name_at(1_546_300_800 + 3_723).unwrap(), "clip_2019-01-01.01_02_03.mp4");
    assert_eq!(clip_name_at(i64::MAX), None);
}

#[test]
fn negative_bitrate_argument() {
    let mut s = default_settings();
    s.bitrate_bps = -5000;
    assert_eq!(segment_args(&s, 640, 480)[18], "-5k");
    assert_eq!(signed_decimal_string(i64::MIN), i64::MIN.to_string());
    assert_eq!(signed_decimal_string(42), "42");
}
