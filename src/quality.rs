//! Audio quality profiles: validation, ordering, concat compatibility and presets.

use vstd::prelude::*;
use crate::text::{lower_of, to_lower};

verus! {

/// Bitrate, sample rate, channel layout, codec and duration of an audio track.
#[derive(Debug, Clone)]
pub struct QualityProfile {
    /// Bitrate in kbps.
    pub bitrate: u32,
    /// Sample rate in Hz.
    pub sample_rate: u32,
    /// Number of channels: 1 for mono, 2 for stereo.
    pub channels: u8,
    /// Codec name, such as "mp3" or "aac".
    pub codec: String,
    /// Duration in milliseconds.
    pub duration_ms: u64,
}

/// The value a `QualityProfile` stands for, with the codec as characters.
pub struct QualitySpec {
    pub bitrate: u32,
    pub sample_rate: u32,
    pub channels: u8,
    pub codec: Seq<char>,
    pub duration_ms: u64,
}

impl View for QualityProfile {
    type V = QualitySpec;

    open spec fn view(&self) -> QualitySpec {
        QualitySpec {
            bitrate: self.bitrate,
            sample_rate: self.sample_rate,
            channels: self.channels,
            codec: self.codec@,
            duration_ms: self.duration_ms,
        }
    }
}

/// Why a quality profile was refused.
#[derive(Debug, Clone, Copy, PartialEq, Eq, Structural)]
pub enum QualityError {
    /// The bitrate was zero.
    ZeroBitrate,
    /// The sample rate was zero.
    ZeroSampleRate,
    /// The channel count was neither 1 nor 2.
    BadChannels(u8),
}

/// A profile's numbers are in range: positive bitrate and sample rate, mono or stereo.
pub open spec fn profile_wf(q: QualitySpec) -> bool {
    q.bitrate > 0 && q.sample_rate > 0 && (q.channels == 1 || q.channels == 2)
}

/// The rank of a (lowercased) codec name: aac above mp3 above anything else.
pub open spec fn codec_rank(lowered: Seq<char>) -> int {
    if lowered == "aac"@ {
        2
    } else if lowered == "mp3"@ {
        1
    } else {
        0
    }
}

/// `a` is a better profile than `b`: higher bitrate, then higher sample rate,
/// then the preferred channel layout, then the better-ranked codec.
pub open spec fn better(a: QualitySpec, b: QualitySpec, prefer_stereo: bool) -> bool {
    if a.bitrate != b.bitrate {
        a.bitrate > b.bitrate
    } else if a.sample_rate != b.sample_rate {
        a.sample_rate > b.sample_rate
    } else if a.channels != b.channels {
        if prefer_stereo {
            a.channels > b.channels
        } else {
            a.channels < b.channels
        }
    } else {
        codec_rank(lower_of(a.codec)) > codec_rank(lower_of(b.codec))
    }
}

/// Two profiles can be joined without re-encoding: same bitrate, sample rate,
/// channels, and the same codec up to case.
pub open spec fn compatible(a: QualitySpec, b: QualitySpec) -> bool {
    a.bitrate == b.bitrate && a.sample_rate == b.sample_rate && a.channels == b.channels
        && lower_of(a.codec) == lower_of(b.codec)
}

/// The fixed (bitrate, sample rate, channels) of a known preset name, already lowercased.
pub open spec fn preset_numbers(lowered: Seq<char>) -> Option<(u32, u32, u8)> {
    if lowered == "low"@ {
        Some((64u32, 22050u32, 1u8))
    } else if lowered == "medium"@ {
        Some((96u32, 44100u32, 2u8))
    } else if lowered == "high"@ {
        Some((128u32, 48000u32, 2u8))
    } else {
        None
    }
}

/// What the preset called `name` makes of `source`, if `name` is a known preset.
pub open spec fn preset_profile(name: Seq<char>, source: QualitySpec) -> Option<QualitySpec> {
    match preset_numbers(lower_of(name)) {
        Some(n) => Some(
            QualitySpec {
                bitrate: n.0,
                sample_rate: n.1,
                channels: n.2,
                codec: "aac"@,
                duration_ms: source.duration_ms,
            },
        ),
        None => None,
    }
}

/// `source` with the preset `preset` applied: unchanged when there is none, or
/// when it names no known preset.
pub open spec fn applied(source: QualitySpec, preset: Option<Seq<char>>) -> QualitySpec {
    match preset {
        Some(name) => match preset_profile(name, source) {
            Some(q) => q,
            None => source,
        },
        None => source,
    }
}

fn codec_rank_exec(codec: &String) -> (r: u8)
    ensures
        r as int == codec_rank(lower_of(codec@)),
{
    let lowered = to_lower(codec.as_str());
    if lowered == "aac".to_owned() {
        2
    } else if lowered == "mp3".to_owned() {
        1
    } else {
        0
    }
}

impl QualityProfile {
    /// Builds a profile, refusing a zero bitrate, a zero sample rate, or a
    /// channel count other than 1 or 2 (checked in that order).
    pub fn new(bitrate: u32, sample_rate: u32, channels: u8, codec: String, duration_ms: u64) -> (r:
        Result<QualityProfile, QualityError>)
        ensures
            bitrate == 0 ==> r == Err::<QualityProfile, QualityError>(QualityError::ZeroBitrate),
            bitrate != 0 && sample_rate == 0 ==> r == Err::<QualityProfile, QualityError>(
                QualityError::ZeroSampleRate,
            ),
            bitrate != 0 && sample_rate != 0 && channels != 1 && channels != 2 ==> r == Err::<
                QualityProfile,
                QualityError,
            >(QualityError::BadChannels(channels)),
            r is Ok <==> bitrate != 0 && sample_rate != 0 && (channels == 1 || channels == 2),
            r matches Ok(p) ==> p@ == (QualitySpec {
                bitrate,
                sample_rate,
                channels,
                codec: codec@,
                duration_ms,
            }) && profile_wf(p@),
    {
        if bitrate == 0 {
            return Err(QualityError::ZeroBitrate);
        }
        if sample_rate == 0 {
            return Err(QualityError::ZeroSampleRate);
        }
        if channels != 1 && channels != 2 {
            return Err(QualityError::BadChannels(channels));
        }
        Ok(QualityProfile { bitrate, sample_rate, channels, codec, duration_ms })
    }

    /// A copy of this profile.
    pub fn duplicate(&self) -> (r: QualityProfile)
        ensures
            r@ == self@,
    {
        QualityProfile {
            bitrate: self.bitrate,
            sample_rate: self.sample_rate,
            channels: self.channels,
            codec: self.codec.clone(),
            duration_ms: self.duration_ms,
        }
    }

    /// Whether this profile is better than `other` (see [`better`]).
    pub fn is_better_than(&self, other: &QualityProfile, prefer_stereo: bool) -> (r: bool)
        ensures
            r == better(self@, other@, prefer_stereo),
    {
        if self.bitrate != other.bitrate {
            return self.bitrate > other.bitrate;
        }
        if self.sample_rate != other.sample_rate {
            return self.sample_rate > other.sample_rate;
        }
        if self.channels != other.channels {
            if prefer_stereo {
                return self.channels > other.channels;
            } else {
                return self.channels < other.channels;
            }
        }
        codec_rank_exec(&self.codec) > codec_rank_exec(&other.codec)
    }

    /// Whether this profile and `other` can be concatenated without re-encoding.
    pub fn is_compatible_for_concat(&self, other: &QualityProfile) -> (r: bool)
        ensures
            r == compatible(self@, other@),
    {
        self.bitrate == other.bitrate && self.sample_rate == other.sample_rate && self.channels
            == other.channels && to_lower(self.codec.as_str()) == to_lower(other.codec.as_str())
    }

    /// The AAC profile to convert this one into: same sample rate, channels and
    /// duration, with a bitrate of at least 128 kbps.
    pub fn to_aac_equivalent(&self) -> (r: QualityProfile)
        ensures
            r.bitrate == (if self.bitrate > 128 { self.bitrate } else { 128 }),
            r.sample_rate == self.sample_rate,
            r.channels == self.channels,
            r.codec@ == "aac"@,
            r.duration_ms == self.duration_ms,
    {
        let bitrate = if self.bitrate > 128 { self.bitrate } else { 128 };
        QualityProfile {
            bitrate,
            sample_rate: self.sample_rate,
            channels: self.channels,
            codec: "aac".to_owned(),
            duration_ms: self.duration_ms,
        }
    }

    /// The profile of the preset `preset` (matched without regard to case:
    /// low, medium, high), keeping the duration of `source`; `None` for
    /// "source" and any other name.
    pub fn from_preset(preset: &str, source: &QualityProfile) -> (r: Option<QualityProfile>)
        ensures
            r is Some <==> preset_profile(preset@, source@) is Some,
            r matches Some(q) ==> preset_profile(preset@, source@) == Some(q@),
    {
        let lowered = to_lower(preset);
        let numbers: Option<(u32, u32, u8)> = if lowered == "low".to_owned() {
            Some((64, 22050, 1))
        } else if lowered == "medium".to_owned() {
            Some((96, 44100, 2))
        } else if lowered == "high".to_owned() {
            Some((128, 48000, 2))
        } else {
            None
        };
        match numbers {
            Some(n) => Some(
                QualityProfile {
                    bitrate: n.0,
                    sample_rate: n.1,
                    channels: n.2,
                    codec: "aac".to_owned(),
                    duration_ms: source.duration_ms,
                },
            ),
            None => None,
        }
    }

    /// This profile with the optional preset applied (see [`applied`]).
    pub fn apply_preset(&self, preset: Option<&str>) -> (r: QualityProfile)
        ensures
            r@ == applied(
                self@,
                match preset {
                    Some(p) => Some(p@),
                    None => None,
                },
            ),
    {
        match preset {
            Some(p) => match Self::from_preset(p, self) {
                Some(q) => q,
                None => self.duplicate(),
            },
            None => self.duplicate(),
        }
    }
}

/// No profile is better than itself, whatever the channel preference.
pub proof fn lemma_better_irreflexive(p: QualitySpec, prefer_stereo: bool)
    ensures
        !better(p, p, prefer_stereo),
{
}

/// Concat compatibility is symmetric, and holds whenever bitrate, sample rate,
/// channels and the codec up to case agree.
pub proof fn lemma_compatible_symmetric(p: QualitySpec, q: QualitySpec)
    ensures
        compatible(p, q) == compatible(q, p),
        p.bitrate == q.bitrate && p.sample_rate == q.sample_rate && p.channels == q.channels
            && lower_of(p.codec) == lower_of(q.codec) ==> compatible(p, q) && compatible(q, p),
{
}

/// A preset name that lowercases to "source" leaves a profile unchanged.
pub proof fn lemma_source_preset_identity(p: QualitySpec, name: Seq<char>)
    requires
        lower_of(name) == "source"@,
    ensures
        applied(p, Some(name)) == p,
{
    reveal_strlit("source");
    reveal_strlit("low");
    reveal_strlit("medium");
    reveal_strlit("high");
    assert("source"@.len() == 6);
    assert("source"@ != "low"@);
    assert("source"@[0] != "medium"@[0]);
    assert("source"@ != "medium"@);
    assert("source"@ != "high"@);
}

/// Applying a preset to its own output changes nothing.
pub proof fn lemma_preset_idempotent(p: QualitySpec, name: Seq<char>)
    ensures
        applied(applied(p, Some(name)), Some(name)) == applied(p, Some(name)),
{
}

} // verus!
