//! AAC encoder choice.

use vstd::prelude::*;
use crate::text::{lower_of, to_lower};
use crate::text::{chars_of, contains, contains_exec, split_chars, split_on, trim_start_of, is_ws};

verus! {

/// The AAC encoders the audio tool can be asked for.
#[derive(Debug, Clone, Copy, PartialEq, Eq, Structural)]
pub enum AacEncoder {
    /// The hardware encoder of Apple Silicon ("aac_at").
    AppleSilicon,
    /// The Fraunhofer FDK encoder ("libfdk_aac").
    LibFdk,
    /// The audio tool's own encoder ("aac").
    Native,
}

/// The name the audio tool knows an encoder by.
pub open spec fn encoder_name(e: AacEncoder) -> Seq<char> {
    match e {
        AacEncoder::AppleSilicon => "aac_at"@,
        AacEncoder::LibFdk => "libfdk_aac"@,
        AacEncoder::Native => "aac"@,
    }
}

/// The encoder a lowercased name stands for, if any.
pub open spec fn encoder_from_name(lowered: Seq<char>) -> Option<AacEncoder> {
    if lowered == "aac_at"@ {
        Some(AacEncoder::AppleSilicon)
    } else if lowered == "libfdk_aac"@ || lowered == "libfdk"@ {
        Some(AacEncoder::LibFdk)
    } else if lowered == "aac"@ {
        Some(AacEncoder::Native)
    } else {
        None
    }
}

/// The order in which encoders are preferred: hardware, then FDK, then native.
pub open spec fn preference_order() -> Seq<AacEncoder> {
    seq![AacEncoder::AppleSilicon, AacEncoder::LibFdk, AacEncoder::Native]
}

/// The preferred encoder among those available: the first of the preference
/// order that is available, else the native one.
pub open spec fn best_available(available: Seq<AacEncoder>) -> AacEncoder {
    if available.contains(AacEncoder::AppleSilicon) {
        AacEncoder::AppleSilicon
    } else if available.contains(AacEncoder::LibFdk) {
        AacEncoder::LibFdk
    } else {
        AacEncoder::Native
    }
}

impl AacEncoder {
    /// The encoder's name for the audio tool.
    pub fn name(&self) -> (r: &'static str)
        ensures
            r@ == encoder_name(*self),
    {
        match self {
            AacEncoder::AppleSilicon => "aac_at",
            AacEncoder::LibFdk => "libfdk_aac",
            AacEncoder::Native => "aac",
        }
    }

    /// Whether the encoder gains from several threads (only the native one does).
    pub fn supports_threading(&self) -> (r: bool)
        ensures
            r == (*self == AacEncoder::Native),
    {
        match self {
            AacEncoder::AppleSilicon => false,
            AacEncoder::LibFdk => false,
            AacEncoder::Native => true,
        }
    }

    /// The encoder named `s`, in any case ("libfdk" is accepted for the FDK one).
    pub fn from_str(s: &str) -> (r: Option<AacEncoder>)
        ensures
            r == encoder_from_name(lower_of(s@)),
    {
        let l = to_lower(s);
        if l == "aac_at".to_owned() {
            Some(AacEncoder::AppleSilicon)
        } else if l == "libfdk_aac".to_owned() || l == "libfdk".to_owned() {
            Some(AacEncoder::LibFdk)
        } else if l == "aac".to_owned() {
            Some(AacEncoder::Native)
        } else {
            None
        }
    }

    /// The encoder's name as an owned string.
    pub fn to_name_string(&self) -> (r: String)
        ensures
            r@ == encoder_name(*self),
    {
        self.name().to_owned()
    }
}

fn list_has(v: &Vec<AacEncoder>, e: AacEncoder) -> (r: bool)
    ensures
        r == v@.contains(e),
{
    let mut i: usize = 0;
    while i < v.len()
        invariant
            i <= v@.len(),
            forall|j: int| 0 <= j < i ==> v@[j] != e,
        decreases v@.len() - i,
    {
        if v[i] == e {
            return true;
        }
        i = i + 1;
    }
    false
}

/// Encoder selection from the set the audio tool reports.
pub struct EncoderDetector;

impl EncoderDetector {
    /// The best encoder among `available` (see [`best_available`]).
    pub fn detect_best_encoder(available: &Vec<AacEncoder>) -> (r: AacEncoder)
        ensures
            r == best_available(available@),
    {
        if list_has(available, AacEncoder::AppleSilicon) {
            AacEncoder::AppleSilicon
        } else if list_has(available, AacEncoder::LibFdk) {
            AacEncoder::LibFdk
        } else {
            AacEncoder::Native
        }
    }

    /// The encoders of the preference order whose availability flag is set,
    /// in that order; `flags` holds one flag per encoder of the order.
    pub fn get_available_encoders(flags: [bool; 3]) -> (r: Vec<AacEncoder>)
        ensures
            r@ == preference_order().filter(|e: AacEncoder| flags@[index_in_order(e)]),
    {
        let mut r: Vec<AacEncoder> = Vec::new();
        if flags[0] {
            r.push(AacEncoder::AppleSilicon);
        }
        if flags[1] {
            r.push(AacEncoder::LibFdk);
        }
        if flags[2] {
            r.push(AacEncoder::Native);
        }
        proof {
            let p = preference_order();
            let f = |e: AacEncoder| flags@[index_in_order(e)];
            reveal_with_fuel(Seq::filter, 4);
            assert(p.drop_last().drop_last().drop_last() =~= Seq::<AacEncoder>::empty());
            assert(p.drop_last().drop_last() =~= seq![AacEncoder::AppleSilicon]);
            assert(p.drop_last() =~= seq![AacEncoder::AppleSilicon, AacEncoder::LibFdk]);
            assert(r@ =~= p.filter(f));
        }
        r
    }
}

/// The position of an encoder in the preference order.
pub open spec fn index_in_order(e: AacEncoder) -> int {
    match e {
        AacEncoder::AppleSilicon => 0,
        AacEncoder::LibFdk => 1,
        AacEncoder::Native => 2,
    }
}

/// The encoder to use: a recognised override wins; then the legacy hardware
/// flag; then the configured name, where "auto" or an unknown name falls back
/// to the detected encoder.
pub open spec fn resolve_spec(
    configured: Seq<char>,
    legacy_hardware: Option<bool>,
    cli_override: Option<Seq<char>>,
    detected: AacEncoder,
) -> AacEncoder {
    let from_cli = match cli_override {
        Some(s) => encoder_from_name(lower_of(s)),
        None => None,
    };
    if from_cli is Some {
        from_cli->0
    } else if legacy_hardware is Some {
        if legacy_hardware->0 {
            AacEncoder::AppleSilicon
        } else {
            AacEncoder::Native
        }
    } else if lower_of(configured) == "auto"@ {
        detected
    } else {
        match encoder_from_name(lower_of(lower_of(configured))) {
            Some(e) => e,
            None => detected,
        }
    }
}

/// Chooses the encoder from the configured name, the legacy hardware flag, an
/// optional override, and the encoder detected on this machine.
pub fn resolve_encoder(
    configured: &str,
    legacy_hardware: Option<bool>,
    cli_override: Option<&str>,
    detected: AacEncoder,
) -> (r: AacEncoder)
    ensures
        r == resolve_spec(
            configured@,
            legacy_hardware,
            match cli_override {
                Some(s) => Some(s@),
                None => None,
            },
            detected,
        ),
{
    if let Some(s) = cli_override {
        if let Some(e) = AacEncoder::from_str(s) {
            return e;
        }
    }
    if let Some(hw) = legacy_hardware {
        return if hw {
            AacEncoder::AppleSilicon
        } else {
            AacEncoder::Native
        };
    }
    let lowered = to_lower(configured);
    if lowered == "auto".to_owned() {
        return detected;
    }
    match AacEncoder::from_str(lowered.as_str()) {
        Some(e) => e,
        None => detected,
    }
}

/// The encoder chosen once and reused: the cached one if there is one, else
/// the best of `available`, which is then cached.
pub fn get_encoder(cache: &mut Option<AacEncoder>, available: &Vec<AacEncoder>) -> (r: AacEncoder)
    ensures
        match *old(cache) {
            Some(e) => r == e && *final(cache) == Some(e),
            None => r == best_available(available@) && *final(cache) == Some(r),
        },
{
    match *cache {
        Some(e) => e,
        None => {
            let e = EncoderDetector::detect_best_encoder(available);
            *cache = Some(e);
            e
        },
    }
}


/// A line of the audio tool's encoder listing names audio encoder `e`: once
/// trimmed at the start it begins with 'A', and it mentions the name.
pub open spec fn lists_encoder(line: Seq<char>, e: AacEncoder) -> bool {
    let t = trim_start_of(line);
    t.len() > 0 && t[0] == 'A' && contains(line, encoder_name(e))
}

fn trimmed_starts_with_a(v: &Vec<char>) -> (r: bool)
    ensures
        r == (trim_start_of(v@).len() > 0 && trim_start_of(v@)[0] == 'A'),
{
    let n = v.len();
    let mut a: usize = 0;
    assert(v@.subrange(0, n as int) =~= v@);
    while a < n && is_ws(v[a])
        invariant
            a <= n,
            n == v@.len(),
            trim_start_of(v@) == trim_start_of(v@.subrange(a as int, n as int)),
        decreases n - a,
    {
        assert(v@.subrange(a as int, n as int).drop_first() =~= v@.subrange(a + 1, n as int));
        a = a + 1;
    }
    assert(trim_start_of(v@.subrange(a as int, n as int)) == v@.subrange(a as int, n as int));
    a < n && v[a] == 'A'
}

/// Whether the encoder listing `listing` has a line naming audio encoder `e`.
pub fn encoder_listed(listing: &str, e: AacEncoder) -> (r: bool)
    ensures
        r == exists|i: int|
            0 <= i < split_on(listing@, '\n').len() && lists_encoder(
                #[trigger] split_on(listing@, '\n')[i],
                e,
            ),
{
    let v = chars_of(listing);
    let lines = split_chars(&v, '\n');
    let ghost ls = lines@.map_values(|p: Vec<char>| p@);
    let name = chars_of(e.name());
    let mut i: usize = 0;
    while i < lines.len()
        invariant
            i <= lines@.len(),
            ls == lines@.map_values(|p: Vec<char>| p@),
            ls == split_on(listing@, '\n'),
            name@ == encoder_name(e),
            forall|k: int| 0 <= k < i ==> !lists_encoder(#[trigger] ls[k], e),
        decreases lines@.len() - i,
    {
        assert(ls[i as int] == lines@[i as int]@);
        if trimmed_starts_with_a(&lines[i]) && contains_exec(&lines[i], &name) {
            return true;
        }
        i = i + 1;
    }
    false
}

} // verus!
