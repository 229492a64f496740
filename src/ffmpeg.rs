//! The argument lists handed to the audio tool, the concat list it reads, and
//! the messages made of its failures.

use vstd::prelude::*;
use crate::encoder::{encoder_name, AacEncoder};
use crate::chapter_import::{all_digits, all_digits_exec, digits_exec, digits_value, ffprobe_time_spec, parse_ffprobe_time};
use crate::quality::{QualityError, QualityProfile, QualitySpec};
use crate::text::{chars_of, contains, decimal, lower_of, push_decimal, str_contains, string_of, to_lower};

verus! {

/// Where the audio tool and its prober are found.
#[derive(Debug, Clone)]
pub struct FFmpeg {
    /// Path of the audio tool.
    pub ffmpeg_path: String,
    /// Path of the prober.
    pub ffprobe_path: String,
}

impl FFmpeg {
    /// The tool at the given paths.
    pub fn with_paths(ffmpeg_path: String, ffprobe_path: String) -> (r: FFmpeg)
        ensures
            r.ffmpeg_path == ffmpeg_path,
            r.ffprobe_path == ffprobe_path,
    {
        FFmpeg { ffmpeg_path, ffprobe_path }
    }
}

/// The texts of a list of strings.
pub open spec fn texts(v: Seq<String>) -> Seq<Seq<char>> {
    v.map_values(|s: String| s@)
}

/// The codec arguments: stream copy, or the encoder with bitrate, sample rate
/// and channels, and automatic threading for an encoder that gains from it.
pub open spec fn codec_args(
    bitrate: u32,
    sample_rate: u32,
    channels: u8,
    use_copy: bool,
    e: AacEncoder,
) -> Seq<Seq<char>> {
    if use_copy {
        seq!["-c"@, "copy"@]
    } else {
        seq![
            "-c:a"@,
            encoder_name(e),
            "-b:a"@,
            decimal(bitrate as nat) + "k"@,
            "-ar"@,
            decimal(sample_rate as nat),
            "-ac"@,
            decimal(channels as nat),
        ] + if e == AacEncoder::Native {
            seq!["-threads"@, "0"@]
        } else {
            Seq::empty()
        }
    }
}

/// The arguments that turn one input file into the output file.
pub open spec fn convert_args_spec(
    input: Seq<char>,
    output: Seq<char>,
    bitrate: u32,
    sample_rate: u32,
    channels: u8,
    use_copy: bool,
    e: AacEncoder,
) -> Seq<Seq<char>> {
    seq!["-y"@, "-i"@, input, "-vn"@] + codec_args(bitrate, sample_rate, channels, use_copy, e)
        + seq!["-movflags"@, "+faststart"@, output]
}

/// The arguments that join the files of a concat list into the output file.
pub open spec fn concat_args_spec(
    list: Seq<char>,
    output: Seq<char>,
    bitrate: u32,
    sample_rate: u32,
    channels: u8,
    use_copy: bool,
    e: AacEncoder,
) -> Seq<Seq<char>> {
    seq!["-y"@, "-f"@, "concat"@, "-safe"@, "0"@, "-i"@, list, "-vn"@] + codec_args(
        bitrate,
        sample_rate,
        channels,
        use_copy,
        e,
    ) + seq!["-movflags"@, "+faststart"@, output]
}

fn push_arg(v: &mut Vec<String>, s: &str)
    ensures
        texts(final(v)@) == texts(old(v)@).push(s@),
{
    v.push(s.to_owned());
    assert(texts(final(v)@) =~= texts(old(v)@).push(s@));
}

fn push_args(v: &mut Vec<String>, w: Vec<String>)
    ensures
        texts(final(v)@) == texts(old(v)@) + texts(w@),
{
    let ghost start = texts(v@);
    let mut i: usize = 0;
    while i < w.len()
        invariant
            i <= w@.len(),
            texts(v@) == start + texts(w@.subrange(0, i as int)),
        decreases w@.len() - i,
    {
        push_arg(v, w[i].as_str());
        i = i + 1;
        assert(texts(v@) =~= start + texts(w@.subrange(0, i as int)));
    }
    assert(w@.subrange(0, w@.len() as int) =~= w@);
}

fn number_text(n: u64) -> (r: String)
    ensures
        r@ == decimal(n as nat),
{
    let mut v: Vec<char> = Vec::new();
    push_decimal(&mut v, n);
    assert(v@ =~= decimal(n as nat));
    string_of(&v)
}

fn codec_args_exec(quality: &QualityProfile, use_copy: bool, encoder: AacEncoder) -> (r: Vec<String>)
    ensures
        texts(r@) == codec_args(quality.bitrate, quality.sample_rate, quality.channels, use_copy, encoder),
{
    let mut v: Vec<String> = Vec::new();
    if use_copy {
        push_arg(&mut v, "-c");
        push_arg(&mut v, "copy");
        assert(texts(v@) =~= seq!["-c"@, "copy"@]);
        return v;
    }
    push_arg(&mut v, "-c:a");
    push_arg(&mut v, encoder.name());
    push_arg(&mut v, "-b:a");
    let mut b = number_text(quality.bitrate as u64);
    b.append("k");
    push_arg(&mut v, b.as_str());
    push_arg(&mut v, "-ar");
    let sr = number_text(quality.sample_rate as u64);
    push_arg(&mut v, sr.as_str());
    push_arg(&mut v, "-ac");
    let ch = number_text(quality.channels as u64);
    push_arg(&mut v, ch.as_str());
    if encoder.supports_threading() {
        push_arg(&mut v, "-threads");
        push_arg(&mut v, "0");
    }
    assert(texts(v@) =~= codec_args(
        quality.bitrate,
        quality.sample_rate,
        quality.channels,
        use_copy,
        encoder,
    ));
    v
}

/// The arguments that turn `input` into `output` with `quality`, copying the
/// stream when `use_copy` holds.
pub fn convert_args(
    input: &str,
    output: &str,
    quality: &QualityProfile,
    use_copy: bool,
    encoder: AacEncoder,
) -> (r: Vec<String>)
    ensures
        texts(r@) == convert_args_spec(
            input@,
            output@,
            quality.bitrate,
            quality.sample_rate,
            quality.channels,
            use_copy,
            encoder,
        ),
{
    let mut v: Vec<String> = Vec::new();
    push_arg(&mut v, "-y");
    push_arg(&mut v, "-i");
    push_arg(&mut v, input);
    push_arg(&mut v, "-vn");
    push_args(&mut v, codec_args_exec(quality, use_copy, encoder));
    push_arg(&mut v, "-movflags");
    push_arg(&mut v, "+faststart");
    push_arg(&mut v, output);
    assert(texts(v@) =~= convert_args_spec(
        input@,
        output@,
        quality.bitrate,
        quality.sample_rate,
        quality.channels,
        use_copy,
        encoder,
    ));
    v
}

/// The arguments that join the files listed in `list` into `output`.
pub fn concat_args(
    list: &str,
    output: &str,
    quality: &QualityProfile,
    use_copy: bool,
    encoder: AacEncoder,
) -> (r: Vec<String>)
    ensures
        texts(r@) == concat_args_spec(
            list@,
            output@,
            quality.bitrate,
            quality.sample_rate,
            quality.channels,
            use_copy,
            encoder,
        ),
{
    let mut v: Vec<String> = Vec::new();
    push_arg(&mut v, "-y");
    push_arg(&mut v, "-f");
    push_arg(&mut v, "concat");
    push_arg(&mut v, "-safe");
    push_arg(&mut v, "0");
    push_arg(&mut v, "-i");
    push_arg(&mut v, list);
    push_arg(&mut v, "-vn");
    push_args(&mut v, codec_args_exec(quality, use_copy, encoder));
    push_arg(&mut v, "-movflags");
    push_arg(&mut v, "+faststart");
    push_arg(&mut v, output);
    assert(texts(v@) =~= concat_args_spec(
        list@,
        output@,
        quality.bitrate,
        quality.sample_rate,
        quality.channels,
        use_copy,
        encoder,
    ));
    v
}

/// A path with each single quote written as `'\''`, for a quoted concat entry.
pub open spec fn escape_quotes(s: Seq<char>) -> Seq<char>
    decreases s.len(),
{
    if s.len() == 0 {
        Seq::empty()
    } else {
        escape_quotes(s.drop_last()) + if s.last() == '\'' {
            seq!['\'', '\\', '\'', '\'']
        } else {
            seq![s.last()]
        }
    }
}

/// The concat list naming `paths` in order, one `file '<path>'` line each.
pub open spec fn concat_list_spec(paths: Seq<Seq<char>>) -> Seq<char>
    decreases paths.len(),
{
    if paths.len() == 0 {
        Seq::empty()
    } else {
        concat_list_spec(paths.drop_last()) + "file '"@ + escape_quotes(paths.last()) + "'\n"@
    }
}

fn push_escaped(out: &mut Vec<char>, s: &str)
    ensures
        final(out)@ == old(out)@ + escape_quotes(s@),
{
    let v = chars_of(s);
    let ghost start = out@;
    let mut i: usize = 0;
    while i < v.len()
        invariant
            i <= v@.len(),
            v@ == s@,
            out@ == start + escape_quotes(v@.subrange(0, i as int)),
        decreases v@.len() - i,
    {
        let c = v[i];
        assert(v@.subrange(0, i + 1).drop_last() =~= v@.subrange(0, i as int));
        if c == '\'' {
            out.push('\'');
            out.push('\\');
            out.push('\'');
            out.push('\'');
        } else {
            out.push(c);
        }
        i = i + 1;
        assert(out@ =~= start + escape_quotes(v@.subrange(0, i as int)));
    }
    assert(v@.subrange(0, v@.len() as int) =~= v@);
}

/// The text of the concat list for `paths`.
pub fn concat_list(paths: &Vec<String>) -> (r: String)
    ensures
        r@ == concat_list_spec(texts(paths@)),
{
    let mut out: Vec<char> = Vec::new();
    let mut i: usize = 0;
    while i < paths.len()
        invariant
            i <= paths@.len(),
            out@ == concat_list_spec(texts(paths@.subrange(0, i as int))),
        decreases paths@.len() - i,
    {
        assert(texts(paths@.subrange(0, i + 1)).drop_last() =~= texts(paths@.subrange(0, i as int)));
        assert(texts(paths@.subrange(0, i + 1)).last() == paths@[i as int]@);
        crate::text::push_str(&mut out, "file '");
        push_escaped(&mut out, paths[i].as_str());
        crate::text::push_str(&mut out, "'\n");
        i = i + 1;
        assert(out@ =~= concat_list_spec(texts(paths@.subrange(0, i as int))));
    }
    assert(paths@.subrange(0, paths@.len() as int) =~= paths@);
    string_of(&out)
}

/// The message for a failed run of the audio tool: output that mentions the
/// encoder gets the encoder's name and a hint; other output is reported as a
/// failed concatenation or conversion.
pub open spec fn failure_message_spec(stderr: Seq<char>, e: AacEncoder, concatenating: bool) -> Seq<char> {
    if contains(lower_of(stderr), "encoder"@) {
        "FFmpeg encoding failed with encoder '"@ + encoder_name(e) + "': "@ + stderr
            + "\nTip: Run 'audiobook-forge check' to verify encoder availability"@
    } else if concatenating {
        "FFmpeg concatenation failed: "@ + stderr
    } else {
        "FFmpeg conversion failed: "@ + stderr
    }
}

/// Builds the message for a failed run of the audio tool (see [`failure_message_spec`]).
pub fn failure_message(stderr: &str, encoder: AacEncoder, concatenating: bool) -> (r: String)
    ensures
        r@ == failure_message_spec(stderr@, encoder, concatenating),
{
    let lowered = to_lower(stderr);
    if str_contains(lowered.as_str(), "encoder") {
        let mut m = "FFmpeg encoding failed with encoder '".to_owned();
        m.append(encoder.name());
        m.append("': ");
        m.append(stderr);
        m.append("\nTip: Run 'audiobook-forge check' to verify encoder availability");
        m
    } else if concatenating {
        let mut m = "FFmpeg concatenation failed: ".to_owned();
        m.append(stderr);
        m
    } else {
        let mut m = "FFmpeg conversion failed: ".to_owned();
        m.append(stderr);
        m
    }
}

/// The value of a text of decimal digits that fits in 32 bits.
pub open spec fn u32_text(s: Seq<char>) -> Option<u32> {
    if s.len() > 0 && all_digits(s) && digits_value(s) <= u32::MAX {
        Some(digits_value(s) as u32)
    } else {
        None
    }
}

/// Reads a text of decimal digits as a 32-bit number.
pub fn parse_u32_text(s: &str) -> (r: Option<u32>)
    ensures
        r == u32_text(s@),
{
    let v = chars_of(s);
    let n = v.len();
    assert(v@.subrange(0, n as int) =~= s@);
    if n == 0 || !all_digits_exec(&v, 0, n) {
        return None;
    }
    match digits_exec(&v, 0, n) {
        Some(x) => if x <= u32::MAX as u64 {
            Some(x as u32)
        } else {
            None
        },
        None => None,
    }
}

/// Why a probe report gave no quality profile.
#[derive(Debug, Clone, Copy, PartialEq, Eq, Structural)]
pub enum ProbeError {
    /// No readable bitrate, neither on the stream nor on the container.
    NoBitrate,
    /// No readable sample rate.
    NoSampleRate,
    /// No channel count.
    NoChannels,
    /// No codec name.
    NoCodec,
    /// No readable duration, neither on the stream nor on the container.
    NoDuration,
    /// The numbers read make no valid profile.
    Invalid(QualityError),
}

/// The fields of a probe report that a profile is made from, as found:
/// bitrates and duration of the audio stream and of the container, in text.
pub struct ProbeFields {
    pub stream_bit_rate: Option<String>,
    pub format_bit_rate: Option<String>,
    pub sample_rate: Option<String>,
    pub channels: Option<u64>,
    pub codec_name: Option<String>,
    pub stream_duration: Option<String>,
    pub format_duration: Option<String>,
}

/// The first of two optional texts that is present.
pub open spec fn either(a: Option<String>, b: Option<String>) -> Option<Seq<char>> {
    match a {
        Some(s) => Some(s@),
        None => match b {
            Some(s) => Some(s@),
            None => None,
        },
    }
}

/// The profile a probe report describes: the stream's bitrate (else the
/// container's) in kbps, the sample rate, the channel count (low eight bits),
/// the codec, and the stream's duration (else the container's) in milliseconds.
pub open spec fn probe_spec(p: ProbeFields) -> Result<QualitySpec, ProbeError> {
    let br = match either(p.stream_bit_rate, p.format_bit_rate) {
        Some(t) => u32_text(t),
        None => None,
    };
    let sr = match p.sample_rate {
        Some(t) => u32_text(t@),
        None => None,
    };
    let dur = match either(p.stream_duration, p.format_duration) {
        Some(t) => ffprobe_time_spec(t),
        None => None,
    };
    if br is None {
        Err(ProbeError::NoBitrate)
    } else if sr is None {
        Err(ProbeError::NoSampleRate)
    } else if p.channels is None {
        Err(ProbeError::NoChannels)
    } else if p.codec_name is None {
        Err(ProbeError::NoCodec)
    } else if dur is None {
        Err(ProbeError::NoDuration)
    } else {
        let q = QualitySpec {
            bitrate: (br->0 / 1000) as u32,
            sample_rate: sr->0,
            channels: (p.channels->0 % 256) as u8,
            codec: p.codec_name->0@,
            duration_ms: dur->0 as u64,
        };
        if q.bitrate == 0 {
            Err(ProbeError::Invalid(QualityError::ZeroBitrate))
        } else if q.sample_rate == 0 {
            Err(ProbeError::Invalid(QualityError::ZeroSampleRate))
        } else if q.channels != 1 && q.channels != 2 {
            Err(ProbeError::Invalid(QualityError::BadChannels(q.channels)))
        } else {
            Ok(q)
        }
    }
}

fn pick(a: &Option<String>, b: &Option<String>) -> (r: Option<String>)
    ensures
        match either(*a, *b) {
            Some(t) => r is Some && r->0@ == t,
            None => r is None,
        },
{
    match a {
        Some(s) => Some(s.clone()),
        None => match b {
            Some(s) => Some(s.clone()),
            None => None,
        },
    }
}

/// The quality profile described by a probe report (see [`probe_spec`]).
pub fn profile_from_probe(p: &ProbeFields) -> (r: Result<QualityProfile, ProbeError>)
    ensures
        match probe_spec(*p) {
            Ok(q) => r is Ok && r->Ok_0@ == q,
            Err(e) => r == Err::<QualityProfile, ProbeError>(e),
        },
{
    let br = match pick(&p.stream_bit_rate, &p.format_bit_rate) {
        Some(t) => parse_u32_text(t.as_str()),
        None => None,
    };
    let sr = match &p.sample_rate {
        Some(t) => parse_u32_text(t.as_str()),
        None => None,
    };
    let dur = match pick(&p.stream_duration, &p.format_duration) {
        Some(t) => parse_ffprobe_time(t.as_str()),
        None => None,
    };
    let bitrate = match br {
        Some(b) => b / 1000,
        None => {
            return Err(ProbeError::NoBitrate);
        },
    };
    let sample_rate = match sr {
        Some(s) => s,
        None => {
            return Err(ProbeError::NoSampleRate);
        },
    };
    let channels = match p.channels {
        Some(c) => (c % 256) as u8,
        None => {
            return Err(ProbeError::NoChannels);
        },
    };
    let codec = match &p.codec_name {
        Some(c) => c.clone(),
        None => {
            return Err(ProbeError::NoCodec);
        },
    };
    let duration_ms = match dur {
        Some(d) => d,
        None => {
            return Err(ProbeError::NoDuration);
        },
    };
    match QualityProfile::new(bitrate, sample_rate, channels, codec, duration_ms) {
        Ok(q) => Ok(q),
        Err(e) => Err(ProbeError::Invalid(e)),
    }
}

} // verus!
