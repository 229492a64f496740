//! The external tools the conversion needs, and whether they were found.

use vstd::prelude::*;
use crate::encoder::{encoder_name, AacEncoder};
use crate::text::{chars_of, contains, contains_exec, is_ws, split_chars, split_on, string_of, ws_of};

verus! {

/// Whether one tool was found, with its version and location when known.
#[derive(Debug, Clone)]
pub struct DependencyStatus {
    pub name: String,
    pub found: bool,
    pub version: Option<String>,
    pub path: Option<String>,
}

/// Checks on the external tools.
pub struct DependencyChecker;

/// The names of encoders, in order.
pub open spec fn encoder_names(v: Seq<AacEncoder>) -> Seq<Seq<char>> {
    v.map_values(|e: AacEncoder| encoder_name(e))
}

impl DependencyChecker {
    /// The status of tool `name` located at `path` (not found when `None`),
    /// with the version it reported.
    pub fn status(name: &str, path: Option<String>, version: Option<String>) -> (r: DependencyStatus)
        ensures
            r.name@ == name@,
            r.found == path is Some,
            r.path == path,
            r.version == (if path is Some { version } else { None }),
    {
        match path {
            Some(p) => DependencyStatus { name: name.to_owned(), found: true, version, path: Some(p) },
            None => DependencyStatus { name: name.to_owned(), found: false, version: None, path: None },
        }
    }

    /// Whether every tool was found.
    pub fn all_dependencies_met(statuses: &Vec<DependencyStatus>) -> (r: bool)
        ensures
            r == forall|i: int| 0 <= i < statuses@.len() ==> (#[trigger] statuses@[i]).found,
    {
        let mut i: usize = 0;
        while i < statuses.len()
            invariant
                i <= statuses@.len(),
                forall|k: int| 0 <= k < i ==> (#[trigger] statuses@[k]).found,
            decreases statuses@.len() - i,
        {
            if !statuses[i].found {
                return false;
            }
            i = i + 1;
        }
        true
    }

    /// The names of the available encoders, in order.
    pub fn get_available_encoders(available: &Vec<AacEncoder>) -> (r: Vec<String>)
        ensures
            r@.map_values(|s: String| s@) == encoder_names(available@),
    {
        let mut out: Vec<String> = Vec::new();
        let mut i: usize = 0;
        while i < available.len()
            invariant
                i <= available@.len(),
                out@.map_values(|s: String| s@) == encoder_names(available@).subrange(0, i as int),
            decreases available@.len() - i,
        {
            let ghost before = out@;
            let name = available[i].to_name_string();
            out.push(name);
            assert(out@.map_values(|s: String| s@) =~= before.map_values(|s: String| s@).push(name@));
            assert(out@.map_values(|s: String| s@) =~= encoder_names(available@).subrange(0, i + 1));
            i = i + 1;
        }
        assert(encoder_names(available@).subrange(0, i as int) =~= encoder_names(available@));
        out
    }

    /// The name of the encoder in use.
    pub fn get_selected_encoder(encoder: AacEncoder) -> (r: String)
        ensures
            r@ == encoder_name(encoder),
    {
        encoder.to_name_string()
    }
}

/// The finished words and the word in progress after reading `s`.
pub open spec fn word_state(s: Seq<char>) -> (Seq<Seq<char>>, Seq<char>)
    decreases s.len(),
{
    if s.len() == 0 {
        (Seq::empty(), Seq::empty())
    } else {
        let (ws, cur) = word_state(s.drop_last());
        if ws_of(s.last()) {
            if cur.len() > 0 {
                (ws.push(cur), Seq::empty())
            } else {
                (ws, Seq::empty())
            }
        } else {
            (ws, cur.push(s.last()))
        }
    }
}

/// The words of `s`: its maximal runs of non-whitespace characters.
pub open spec fn words_of(s: Seq<char>) -> Seq<Seq<char>> {
    let (ws, cur) = word_state(s);
    if cur.len() > 0 {
        ws.push(cur)
    } else {
        ws
    }
}

fn words_exec(v: &Vec<char>) -> (r: Vec<Vec<char>>)
    ensures
        r@.map_values(|w: Vec<char>| w@) == words_of(v@),
{
    let mut done: Vec<Vec<char>> = Vec::new();
    let mut cur: Vec<char> = Vec::new();
    let mut i: usize = 0;
    while i < v.len()
        invariant
            i <= v@.len(),
            (done@.map_values(|w: Vec<char>| w@), cur@) == word_state(v@.subrange(0, i as int)),
        decreases v@.len() - i,
    {
        assert(v@.subrange(0, i + 1).drop_last() =~= v@.subrange(0, i as int));
        assert(v@.subrange(0, i + 1).last() == v@[i as int]);
        let c = v[i];
        if is_ws(c) {
            if cur.len() > 0 {
                let ghost before = done@;
                let w = cur;
                done.push(w);
                cur = Vec::new();
                assert(done@.map_values(|w: Vec<char>| w@) =~= before.map_values(|w: Vec<char>| w@).push(
                    w@,
                ));
            }
        } else {
            cur.push(c);
        }
        i = i + 1;
    }
    assert(v@.subrange(0, i as int) =~= v@);
    if cur.len() > 0 {
        let ghost before = done@;
        let w = cur;
        done.push(w);
        assert(done@.map_values(|w: Vec<char>| w@) =~= before.map_values(|w: Vec<char>| w@).push(w@));
    }
    done
}

/// The version the audio tool reports: the third word of its first line.
pub open spec fn ffmpeg_version_spec(output: Seq<char>) -> Option<Seq<char>> {
    let w = words_of(split_on(output, '\n')[0]);
    if w.len() >= 3 {
        Some(w[2])
    } else {
        None
    }
}

/// The version the tagging tool reports: the last word of its first line
/// that mentions "version".
pub open spec fn tagger_version_spec(output: Seq<char>) -> Option<Seq<char>> {
    let lines = split_on(output, '\n');
    let i = first_line_with(lines, 0);
    if i < 0 || words_of(lines[i]).len() == 0 {
        None
    } else {
        Some(words_of(lines[i]).last())
    }
}

/// The first line from `i` on that mentions "version", or -1.
pub open spec fn first_line_with(lines: Seq<Seq<char>>, i: int) -> int
    decreases lines.len() - i,
{
    if i < 0 || i >= lines.len() {
        -1
    } else if contains(lines[i], "version"@) {
        i
    } else {
        first_line_with(lines, i + 1)
    }
}

/// The version the muxer reports: the first word of its first line that
/// mentions "version".
pub open spec fn muxer_version_spec(output: Seq<char>) -> Option<Seq<char>> {
    let w = words_of(split_on(output, '\n')[0]);
    let i = first_word_with(w, 0);
    if i < 0 {
        None
    } else {
        Some(w[i])
    }
}

/// The first word from `i` on that mentions "version", or -1.
pub open spec fn first_word_with(words: Seq<Seq<char>>, i: int) -> int
    decreases words.len() - i,
{
    if i < 0 || i >= words.len() {
        -1
    } else if contains(words[i], "version"@) {
        i
    } else {
        first_word_with(words, i + 1)
    }
}

fn first_line_words(output: &str) -> (r: Vec<Vec<char>>)
    ensures
        r@.map_values(|w: Vec<char>| w@) == words_of(split_on(output@, '\n')[0]),
{
    let v = chars_of(output);
    let lines = split_chars(&v, '\n');
    proof {
        crate::text::lemma_split_nonempty(output@, '\n');
    }
    assert(lines@.map_values(|p: Vec<char>| p@)[0] == lines@[0]@);
    words_exec(&lines[0])
}

impl DependencyChecker {
    /// The audio tool's version from its `-version` output (see [`ffmpeg_version_spec`]).
    pub fn ffmpeg_version(output: &str) -> (r: Option<String>)
        ensures
            match ffmpeg_version_spec(output@) {
                Some(t) => r is Some && r->0@ == t,
                None => r is None,
            },
    {
        let w = first_line_words(output);
        assert(w@.len() == words_of(split_on(output@, '\n')[0]).len());
        if w.len() >= 3 {
            assert(w@.map_values(|w: Vec<char>| w@)[2] == w@[2]@);
            Some(string_of(&w[2]))
        } else {
            None
        }
    }

    /// The tagging tool's version from its `--version` output (see [`tagger_version_spec`]).
    pub fn atomic_parsley_version(output: &str) -> (r: Option<String>)
        ensures
            match tagger_version_spec(output@) {
                Some(t) => r is Some && r->0@ == t,
                None => r is None,
            },
    {
        let v = chars_of(output);
        let lines = split_chars(&v, '\n');
        let ghost ls = lines@.map_values(|p: Vec<char>| p@);
        let key = chars_of("version");
        let mut i: usize = 0;
        while i < lines.len()
            invariant
                i <= lines@.len(),
                ls == lines@.map_values(|p: Vec<char>| p@),
                ls == split_on(output@, '\n'),
                key@ == "version"@,
                first_line_with(ls, 0) == first_line_with(ls, i as int),
            decreases lines@.len() - i,
        {
            assert(ls[i as int] == lines@[i as int]@);
            if contains_exec(&lines[i], &key) {
                let w = words_exec(&lines[i]);
                if w.len() == 0 {
                    return None;
                }
                assert(w@.map_values(|w: Vec<char>| w@).last() == w@[w@.len() - 1]@);
                return Some(string_of(&w[w.len() - 1]));
            }
            i = i + 1;
        }
        None
    }

    /// The muxer's version from its `-version` output (see [`muxer_version_spec`]).
    pub fn mp4box_version(output: &str) -> (r: Option<String>)
        ensures
            match muxer_version_spec(output@) {
                Some(t) => r is Some && r->0@ == t,
                None => r is None,
            },
    {
        let w = first_line_words(output);
        let ghost ws = w@.map_values(|w: Vec<char>| w@);
        let key = chars_of("version");
        let mut i: usize = 0;
        while i < w.len()
            invariant
                i <= w@.len(),
                ws == w@.map_values(|w: Vec<char>| w@),
                ws == words_of(split_on(output@, '\n')[0]),
                key@ == "version"@,
                first_word_with(ws, 0) == first_word_with(ws, i as int),
            decreases w@.len() - i,
        {
            assert(ws[i as int] == w@[i as int]@);
            if contains_exec(&w[i], &key) {
                return Some(string_of(&w[i]));
            }
            i = i + 1;
        }
        None
    }
}

} // verus!
