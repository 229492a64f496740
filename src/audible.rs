//! Catalogue data: regions, authors, series, search results and chapters.

use vstd::prelude::*;
use crate::chapters::Chapter;
use crate::text::{lower_of, to_lower};

verus! {

/// A catalogue region.
#[derive(Debug, Clone, Copy, PartialEq, Eq, Structural)]
pub enum AudibleRegion {
    US,
    CA,
    UK,
    AU,
    FR,
    DE,
    JP,
    IT,
    IN,
    ES,
}

/// The region code of the chapter service.
pub open spec fn region_code(r: AudibleRegion) -> Seq<char> {
    match r {
        AudibleRegion::US => "us"@,
        AudibleRegion::CA => "ca"@,
        AudibleRegion::UK => "uk"@,
        AudibleRegion::AU => "au"@,
        AudibleRegion::FR => "fr"@,
        AudibleRegion::DE => "de"@,
        AudibleRegion::JP => "jp"@,
        AudibleRegion::IT => "it"@,
        AudibleRegion::IN => "in"@,
        AudibleRegion::ES => "es"@,
    }
}

/// The region of a lowercased code, if any.
pub open spec fn region_of_code(c: Seq<char>) -> Option<AudibleRegion> {
    if c == "us"@ {
        Some(AudibleRegion::US)
    } else if c == "ca"@ {
        Some(AudibleRegion::CA)
    } else if c == "uk"@ {
        Some(AudibleRegion::UK)
    } else if c == "au"@ {
        Some(AudibleRegion::AU)
    } else if c == "fr"@ {
        Some(AudibleRegion::FR)
    } else if c == "de"@ {
        Some(AudibleRegion::DE)
    } else if c == "jp"@ {
        Some(AudibleRegion::JP)
    } else if c == "it"@ {
        Some(AudibleRegion::IT)
    } else if c == "in"@ {
        Some(AudibleRegion::IN)
    } else if c == "es"@ {
        Some(AudibleRegion::ES)
    } else {
        None
    }
}

impl AudibleRegion {
    /// The region code, such as "us" or "uk".
    pub fn tld(&self) -> (r: &'static str)
        ensures
            r@ == region_code(*self),
    {
        match self {
            AudibleRegion::US => "us",
            AudibleRegion::CA => "ca",
            AudibleRegion::UK => "uk",
            AudibleRegion::AU => "au",
            AudibleRegion::FR => "fr",
            AudibleRegion::DE => "de",
            AudibleRegion::JP => "jp",
            AudibleRegion::IT => "it",
            AudibleRegion::IN => "in",
            AudibleRegion::ES => "es",
        }
    }

    /// The catalogue's domain suffix, such as ".com" or ".co.uk".
    pub fn audible_tld(&self) -> (r: &'static str)
        ensures
            r@ == match *self {
                AudibleRegion::US => ".com"@,
                AudibleRegion::CA => ".ca"@,
                AudibleRegion::UK => ".co.uk"@,
                AudibleRegion::AU => ".com.au"@,
                AudibleRegion::FR => ".fr"@,
                AudibleRegion::DE => ".de"@,
                AudibleRegion::JP => ".co.jp"@,
                AudibleRegion::IT => ".it"@,
                AudibleRegion::IN => ".in"@,
                AudibleRegion::ES => ".es"@,
            },
    {
        match self {
            AudibleRegion::US => ".com",
            AudibleRegion::CA => ".ca",
            AudibleRegion::UK => ".co.uk",
            AudibleRegion::AU => ".com.au",
            AudibleRegion::FR => ".fr",
            AudibleRegion::DE => ".de",
            AudibleRegion::JP => ".co.jp",
            AudibleRegion::IT => ".it",
            AudibleRegion::IN => ".in",
            AudibleRegion::ES => ".es",
        }
    }

    /// The region with the code `s`, in any case; an unknown code is refused.
    pub fn from_str(s: &str) -> (r: Result<AudibleRegion, UnknownRegion>)
        ensures
            match region_of_code(lower_of(s@)) {
                Some(g) => r == Ok::<AudibleRegion, UnknownRegion>(g),
                None => r is Err,
            },
    {
        match Self::lookup(s) {
            Some(g) => Ok(g),
            None => Err(UnknownRegion),
        }
    }

    fn lookup(s: &str) -> (r: Option<AudibleRegion>)
        ensures
            r == region_of_code(lower_of(s@)),
    {
        let l = to_lower(s);
        if l == "us".to_owned() {
            Some(AudibleRegion::US)
        } else if l == "ca".to_owned() {
            Some(AudibleRegion::CA)
        } else if l == "uk".to_owned() {
            Some(AudibleRegion::UK)
        } else if l == "au".to_owned() {
            Some(AudibleRegion::AU)
        } else if l == "fr".to_owned() {
            Some(AudibleRegion::FR)
        } else if l == "de".to_owned() {
            Some(AudibleRegion::DE)
        } else if l == "jp".to_owned() {
            Some(AudibleRegion::JP)
        } else if l == "it".to_owned() {
            Some(AudibleRegion::IT)
        } else if l == "in".to_owned() {
            Some(AudibleRegion::IN)
        } else if l == "es".to_owned() {
            Some(AudibleRegion::ES)
        } else {
            None
        }
    }

    /// The region code as an owned string.
    pub fn to_code_string(&self) -> (r: String)
        ensures
            r@ == region_code(*self),
    {
        self.tld().to_owned()
    }
}

impl Default for AudibleRegion {
    fn default() -> (r: AudibleRegion)
        ensures
            r == AudibleRegion::US,
    {
        AudibleRegion::US
    }
}

/// A region code that names no region. Valid codes: us, ca, uk, au, fr, de, jp, it, in, es.
#[derive(Debug, Clone, Copy, PartialEq, Eq, Structural)]
pub struct UnknownRegion;

/// An author in the catalogue.
#[derive(Debug, Clone)]
pub struct AudibleAuthor {
    pub asin: Option<String>,
    pub name: String,
}

/// A series in the catalogue.
#[derive(Debug, Clone)]
pub struct AudibleSeries {
    pub asin: Option<String>,
    pub name: String,
    pub sequence: Option<String>,
}

/// One hit of a catalogue search.
#[derive(Debug, Clone)]
pub struct AudibleSearchResult {
    pub asin: String,
    pub title: String,
    pub subtitle: Option<String>,
    pub authors: Vec<String>,
    pub narrators: Vec<String>,
    pub runtime_ms: Option<u64>,
}

impl AudibleSearchResult {
    /// The runtime in whole minutes, when known.
    pub fn runtime_minutes(&self) -> (r: Option<u32>)
        ensures
            match self.runtime_ms {
                Some(ms) => r == Some((ms / 60000) as u32),
                None => r is None,
            },
    {
        match self.runtime_ms {
            Some(ms) => Some((ms / 60000) as u32),
            None => None,
        }
    }
}

/// A book's record in the catalogue.
#[derive(Debug, Clone)]
pub struct AudibleMetadata {
    pub asin: String,
    pub title: String,
    pub subtitle: Option<String>,
    pub authors: Vec<AudibleAuthor>,
    pub narrators: Vec<String>,
    pub publisher: Option<String>,
    pub published_year: Option<u32>,
    pub description: Option<String>,
    pub cover_url: Option<String>,
    pub isbn: Option<String>,
    pub genres: Vec<String>,
    pub tags: Vec<String>,
    pub series: Vec<AudibleSeries>,
    pub language: Option<String>,
    /// Runtime in milliseconds.
    pub runtime_length_ms: Option<u64>,
    /// Average rating in hundredths of a star.
    pub rating: Option<u32>,
    pub is_abridged: Option<bool>,
}

/// The texts joined with ", " between them.
pub open spec fn comma_joined(parts: Seq<Seq<char>>) -> Seq<char>
    decreases parts.len(),
{
    if parts.len() == 0 {
        Seq::empty()
    } else if parts.len() == 1 {
        parts[0]
    } else {
        comma_joined(parts.drop_last()) + ", "@ + parts.last()
    }
}

/// The names of the authors, in order.
pub open spec fn author_names(a: Seq<AudibleAuthor>) -> Seq<Seq<char>> {
    a.map_values(|x: AudibleAuthor| x.name@)
}

/// The texts of a list of strings.
pub open spec fn name_texts(v: Seq<String>) -> Seq<Seq<char>> {
    v.map_values(|x: String| x@)
}

fn join_names(parts: &Vec<String>) -> (r: String)
    ensures
        r@ == comma_joined(name_texts(parts@)),
{
    let ghost ps = name_texts(parts@);
    let mut out = String::new();
    let mut i: usize = 0;
    while i < parts.len()
        invariant
            i <= parts@.len(),
            ps == name_texts(parts@),
            out@ == comma_joined(ps.subrange(0, i as int)),
        decreases parts@.len() - i,
    {
        assert(ps.subrange(0, i + 1).drop_last() =~= ps.subrange(0, i as int));
        if i > 0 {
            out.append(", ");
        }
        out.append(parts[i].as_str());
        proof {
            if i == 0 {
                assert(ps.subrange(0, 1)[0] == ps[0]);
                assert(out@ =~= comma_joined(ps.subrange(0, 1)));
            }
        }
        i = i + 1;
    }
    assert(ps.subrange(0, i as int) =~= ps);
    out
}

impl AudibleMetadata {
    /// The runtime in whole minutes, when known.
    pub fn runtime_minutes(&self) -> (r: Option<u32>)
        ensures
            match self.runtime_length_ms {
                Some(ms) => r == Some((ms / 60000) as u32),
                None => r is None,
            },
    {
        match self.runtime_length_ms {
            Some(ms) => Some((ms / 60000) as u32),
            None => None,
        }
    }

    /// The first author's name.
    pub fn primary_author(&self) -> (r: Option<&str>)
        ensures
            self.authors@.len() == 0 ==> r is None,
            self.authors@.len() > 0 ==> r is Some && r->0@ == self.authors@[0].name@,
    {
        if self.authors.len() > 0 {
            Some(self.authors[0].name.as_str())
        } else {
            None
        }
    }

    /// The authors' names joined with ", ".
    pub fn authors_string(&self) -> (r: String)
        ensures
            r@ == comma_joined(author_names(self.authors@)),
    {
        let mut names: Vec<String> = Vec::new();
        let mut i: usize = 0;
        while i < self.authors.len()
            invariant
                i <= self.authors@.len(),
                name_texts(names@) == author_names(self.authors@).subrange(0, i as int),
            decreases self.authors@.len() - i,
        {
            let ghost before = names@;
            let n = self.authors[i].name.clone();
            names.push(n);
            assert(name_texts(names@) =~= name_texts(before).push(n@));
            assert(name_texts(names@) =~= author_names(self.authors@).subrange(0, i + 1));
            i = i + 1;
        }
        assert(author_names(self.authors@).subrange(0, i as int) =~= author_names(self.authors@));
        join_names(&names)
    }

    /// The narrators joined with ", ".
    pub fn narrators_string(&self) -> (r: String)
        ensures
            r@ == comma_joined(name_texts(self.narrators@)),
    {
        join_names(&self.narrators)
    }

    /// The first narrator.
    pub fn primary_narrator(&self) -> (r: Option<&str>)
        ensures
            self.narrators@.len() == 0 ==> r is None,
            self.narrators@.len() > 0 ==> r is Some && r->0@ == self.narrators@[0]@,
    {
        if self.narrators.len() > 0 {
            Some(self.narrators[0].as_str())
        } else {
            None
        }
    }
}

/// A chapter as the chapter service reports it.
#[derive(Debug, Clone)]
pub struct AudibleChapter {
    pub title: String,
    /// Length in milliseconds.
    pub length_ms: u64,
    /// Start in milliseconds from the beginning.
    pub start_offset_ms: u64,
    /// Start in seconds.
    pub start_offset_sec: Option<u32>,
}

impl AudibleChapter {
    /// The end in milliseconds; start and length must not overflow.
    pub fn end_offset_ms(&self) -> (r: u64)
        requires
            self.start_offset_ms + self.length_ms <= u64::MAX,
        ensures
            r == self.start_offset_ms + self.length_ms,
    {
        self.start_offset_ms + self.length_ms
    }

    /// The chapter numbered `number` with this title and span.
    pub fn to_chapter(&self, number: u32) -> (r: Chapter)
        requires
            self.start_offset_ms + self.length_ms <= u64::MAX,
        ensures
            r.number == number,
            r.title == self.title,
            r.start_time_ms == self.start_offset_ms,
            r.end_time_ms == self.start_offset_ms + self.length_ms,
    {
        Chapter::new(number, self.title.clone(), self.start_offset_ms, self.end_offset_ms())
    }
}

/// The chapter service's answer for one book.
#[derive(Debug, Clone)]
pub struct AudnexChaptersResponse {
    pub asin: String,
    pub brand_intro_duration_ms: Option<u64>,
    pub brand_outro_duration_ms: Option<u64>,
    pub chapters: Vec<AudibleChapter>,
    pub is_accurate: Option<bool>,
    pub region: Option<String>,
    pub runtime_length_ms: Option<u64>,
}

/// How well a catalogue entry matches.
#[derive(Debug, Clone, Copy, PartialEq, Eq, Structural)]
pub enum MatchConfidence {
    Strong,
    Medium,
    Low,
    /// Weak or no clear match.
    NoMatch,
}

/// Where current metadata was read from.
#[derive(Debug, Clone, Copy, PartialEq, Eq, Structural)]
pub enum MetadataSource {
    Embedded,
    Filename,
    Manual,
}

} // verus!
