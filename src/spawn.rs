use vstd::prelude::*;
use crate::finalize::{MANIFEST_FILE, SEGMENT_PATTERN};
use crate::settings::{Settings, codec_name_spec};

verus! {

/// Path of the encoder program.
pub const ENCODER_PROGRAM: &'static str = "./ffmpeg.exe";

pub open spec fn digit_char(d: nat) -> char {
    if d == 0 {
        '0'
    } else if d == 1 {
        '1'
    } else if d == 2 {
        '2'
    } else if d == 3 {
        '3'
    } else if d == 4 {
        '4'
    } else if d == 5 {
        '5'
    } else if d == 6 {
        '6'
    } else if d == 7 {
        '7'
    } else if d == 8 {
        '8'
    } else {
        '9'
    }
}

/// Decimal digits of `n`, without leading zeros.
pub open spec fn decimal(n: nat) -> Seq<char>
    decreases n,
{
    if n < 10 {
        seq![digit_char(n)]
    } else {
        decimal(n / 10).push(digit_char(n % 10))
    }
}

fn digit_str(d: u64) -> (r: &'static str)
    requires
        d < 10,
    ensures
        r@ == seq![digit_char(d as nat)],
{
    proof {
        reveal_strlit("0");
        reveal_strlit("1");
        reveal_strlit("2");
        reveal_strlit("3");
        reveal_strlit("4");
        reveal_strlit("5");
        reveal_strlit("6");
        reveal_strlit("7");
        reveal_strlit("8");
        reveal_strlit("9");
    }
    let r = if d == 0 {
        "0"
    } else if d == 1 {
        "1"
    } else if d == 2 {
        "2"
    } else if d == 3 {
        "3"
    } else if d == 4 {
        "4"
    } else if d == 5 {
        "5"
    } else if d == 6 {
        "6"
    } else if d == 7 {
        "7"
    } else if d == 8 {
        "8"
    } else {
        "9"
    };
    assert(r@ =~= seq![digit_char(d as nat)]);
    r
}

/// `n` written in decimal.
pub fn decimal_string(n: u64) -> (r: String)
    ensures
        r@ == decimal(n as nat),
    decreases n,
{
    if n < 10 {
        String::from_str(digit_str(n))
    } else {
        let mut s = decimal_string(n / 10);
        s.append(digit_str(n % 10));
        s
    }
}

/// `n` written in decimal, with a minus sign when negative.
pub open spec fn signed_decimal(n: int) -> Seq<char> {
    if n < 0 {
        "-"@ + decimal((-n) as nat)
    } else {
        decimal(n as nat)
    }
}

pub fn signed_decimal_string(n: i64) -> (r: String)
    ensures
        r@ == signed_decimal(n as int),
{
    if n < 0 {
        let mut r = String::from_str("-");
        let m: u64 = (-(n as i128)) as u64;
        let digits = decimal_string(m);
        r.append(digits.as_str());
        r
    } else {
        decimal_string(n as u64)
    }
}

pub open spec fn views(v: Seq<String>) -> Seq<Seq<char>> {
    v.map_values(|s: String| s@)
}

fn push_arg(args: &mut Vec<String>, a: String)
    ensures
        views(final(args)@) == views(old(args)@).push(a@),
{
    args.push(a);
    assert(views(args@) =~= views(old(args)@).push(a@));
}

fn push_lit(args: &mut Vec<String>, a: &str)
    ensures
        views(final(args)@) == views(old(args)@).push(a@),
{
    push_arg(args, String::from_str(a));
}

/// Arguments of the encoder process for one recording segment: raw BGRA
/// frames of the capture size on standard input, the configured codec and
/// bitrate, and a segment muxer that wraps over two files.
pub open spec fn segment_args_spec(s: Settings, width: nat, height: nat) -> Seq<Seq<char>> {
    seq![
        "-y"@, "-f"@, "rawvideo"@, "-vcodec"@, "rawvideo"@, "-pixel_format"@, "bgra"@,
        "-video_size"@, decimal(width) + "x"@ + decimal(height),
        "-framerate"@, decimal(s.fps as nat),
        "-i"@, "-"@,
        "-c:v"@, codec_name_spec(s.encoder),
        "-tune"@, "zerolatency"@,
        "-b:v"@, signed_decimal(s.bitrate_bps / 1000) + "k"@,
        "-pix_fmt"@, "yuv420p"@,
        "-f"@, "segment"@,
        "-segment_time"@, decimal(s.segment_secs as nat),
        "-segment_wrap"@, "2"@,
        "-reset_timestamps"@, "1"@,
        SEGMENT_PATTERN@
    ]
}

/// The argument list of every segment's encoder process. It depends on the
/// settings and the capture size alone, so every spawn passes the same one.
pub fn segment_args(s: &Settings, width: u32, height: u32) -> (r: Vec<String>)
    requires
        s.wf(),
    ensures
        views(r@) == segment_args_spec(*s, width as nat, height as nat),
{
    let mut a: Vec<String> = Vec::new();
    push_lit(&mut a, "-y");
    push_lit(&mut a, "-f");
    push_lit(&mut a, "rawvideo");
    push_lit(&mut a, "-vcodec");
    push_lit(&mut a, "rawvideo");
    push_lit(&mut a, "-pixel_format");
    push_lit(&mut a, "bgra");
    push_lit(&mut a, "-video_size");
    let mut size = decimal_string(width as u64);
    size.append("x");
    let h = decimal_string(height as u64);
    size.append(h.as_str());
    push_arg(&mut a, size);
    push_lit(&mut a, "-framerate");
    push_arg(&mut a, decimal_string(s.fps as u64));
    push_lit(&mut a, "-i");
    push_lit(&mut a, "-");
    push_lit(&mut a, "-c:v");
    push_lit(&mut a, s.encoder.codec_name());
    push_lit(&mut a, "-tune");
    push_lit(&mut a, "zerolatency");
    push_lit(&mut a, "-b:v");
    let kbps = s.bitrate_bps / 1000;
    assert(kbps == s.bitrate_bps as int / 1000) by {
        assert(s.bitrate_bps % 1000 == 0);
    }
    let mut rate = signed_decimal_string(kbps);
    rate.append("k");
    push_arg(&mut a, rate);
    push_lit(&mut a, "-pix_fmt");
    push_lit(&mut a, "yuv420p");
    push_lit(&mut a, "-f");
    push_lit(&mut a, "segment");
    push_lit(&mut a, "-segment_time");
    push_arg(&mut a, decimal_string(s.segment_secs as u64));
    push_lit(&mut a, "-segment_wrap");
    push_lit(&mut a, "2");
    push_lit(&mut a, "-reset_timestamps");
    push_lit(&mut a, "1");
    push_lit(&mut a, SEGMENT_PATTERN);
    assert(views(a@) =~= segment_args_spec(*s, width as nat, height as nat));
    a
}

/// Arguments of the encoder process that joins the manifest's files into
/// `output` by stream copy, without re-encoding.
pub open spec fn concat_args_spec(output: Seq<char>) -> Seq<Seq<char>> {
    seq![
        "-y"@, "-f"@, "concat"@, "-safe"@, "0"@, "-i"@, MANIFEST_FILE@, "-c"@, "copy"@, output
    ]
}

pub fn concat_args(output: &str) -> (r: Vec<String>)
    ensures
        views(r@) == concat_args_spec(output@),
{
    let mut a: Vec<String> = Vec::new();
    push_lit(&mut a, "-y");
    push_lit(&mut a, "-f");
    push_lit(&mut a, "concat");
    push_lit(&mut a, "-safe");
    push_lit(&mut a, "0");
    push_lit(&mut a, "-i");
    push_lit(&mut a, MANIFEST_FILE);
    push_lit(&mut a, "-c");
    push_lit(&mut a, "copy");
    push_lit(&mut a, output);
    assert(views(a@) =~= concat_args_spec(output@));
    a
}

/// How the completion time appears in a clip's name.
pub const CLIP_STAMP_FORMAT: &'static str = "[year]-[month]-[day].[hour]_[minute]_[second]";

/// Earliest and latest Unix times that the time crate can represent: the
/// first second of year -9999 and the last of year 9999, in UTC.
pub const MIN_UNIX_SECS: i64 = -377_705_116_800;
pub const MAX_UNIX_SECS: i64 = 253_402_300_799;

/// The UTC time of a Unix timestamp, written by a time format description.
pub uninterp spec fn utc_formatted(unix_secs: int, description: Seq<char>) -> Seq<char>;

/// Relies on time's `format_description::parse`, `OffsetDateTime::from_unix_timestamp`
/// and `OffsetDateTime::format`: the UTC time of `unix_secs` written as
/// `description` says; `None` where the crate refuses the description or the
/// time. It accepts the clip-name description, and every time within its range.
#[verifier::external_body]
fn format_utc(unix_secs: i64, description: &str) -> (r: Option<String>)
    ensures
        r matches Some(s) ==> s@ == utc_formatted(unix_secs as int, description@),
        description@ == CLIP_STAMP_FORMAT@ && MIN_UNIX_SECS <= unix_secs <= MAX_UNIX_SECS ==> r is Some,
        !(MIN_UNIX_SECS <= unix_secs <= MAX_UNIX_SECS) ==> r is None,
{
    let fmt = time::format_description::parse(description).ok()?;
    time::OffsetDateTime::from_unix_timestamp(unix_secs).ok()?.format(&fmt).ok()
}

pub open spec fn clip_name_spec(unix_secs: int) -> Seq<char> {
    "clip_"@ + utc_formatted(unix_secs, CLIP_STAMP_FORMAT@) + ".mp4"@
}

/// Name of a clip finished at the Unix time `unix_secs`, with second
/// precision; `None` where the time lies outside the years -9999 to 9999.
pub fn clip_name_at(unix_secs: i64) -> (r: Option<String>)
    ensures
        r is Some <==> MIN_UNIX_SECS <= unix_secs <= MAX_UNIX_SECS,
        r matches Some(n) ==> n@ == clip_name_spec(unix_secs as int),
{
    match format_utc(unix_secs, CLIP_STAMP_FORMAT) {
        Some(stamp) => Some(clip_file_name(stamp.as_str())),
        None => None,
    }
}

/// Name of a clip finished at the time written as `stamp`.
pub fn clip_file_name(stamp: &str) -> (r: String)
    ensures
        r@ == "clip_"@ + stamp@ + ".mp4"@,
{
    let mut r = String::from_str("clip_");
    r.append(stamp);
    r.append(".mp4");
    r
}

/// Bytes in one raw BGRA frame of the given size; `None` when that number
/// does not fit in 64 bits.
pub fn frame_bytes(width: u32, height: u32) -> (r: Option<u64>)
    ensures
        width * height * 4 <= u64::MAX <==> r is Some,
        r matches Some(n) ==> n == width * height * 4,
{
    assert((width as int) * (height as int) <= (u32::MAX as int) * (u32::MAX as int)) by (nonlinear_arith)
        requires
            width <= u32::MAX,
            height <= u32::MAX,
    ;
    let px = (width as u64) * (height as u64);
    if px > u64::MAX / 4 {
        None
    } else {
        Some(px * 4)
    }
}

} // verus!
