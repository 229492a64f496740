//! Reading an author and a title out of a file name such as "Author - Title".

use vstd::prelude::*;
use crate::audible::MetadataSource;
use crate::path::{file_name, file_name_of, slice_chars, stem, stem_of};
use crate::text::{chars_of, find_first, first_index, string_of, trim_chars, trim_of};

verus! {

/// `s` with each underscore turned into a space.
pub open spec fn underscores_to_spaces(s: Seq<char>) -> Seq<char> {
    Seq::new(s.len(), |i: int| if s[i] == '_' { ' ' } else { s[i] })
}

/// The author and title around the first `sep` in `s`, cleaned of underscores
/// and surrounding whitespace, when `sep` occurs and both are non-empty.
pub open spec fn split_by(s: Seq<char>, sep: Seq<char>) -> Option<(Seq<char>, Seq<char>)> {
    let k = first_index(s, sep);
    if k < 0 {
        None
    } else {
        let author = trim_of(underscores_to_spaces(s.subrange(0, k)));
        let title = trim_of(underscores_to_spaces(s.subrange(k + sep.len(), s.len() as int)));
        if author.len() > 0 && title.len() > 0 {
            Some((author, title))
        } else {
            None
        }
    }
}

/// The author and title of a file name: the first of the separators
/// " - ", "_-_", " -_ ", "_ -_", "_- " that splits it into two non-empty parts.
pub open spec fn author_title_spec(s: Seq<char>) -> Option<(Seq<char>, Seq<char>)> {
    if split_by(s, " - "@) is Some {
        split_by(s, " - "@)
    } else if split_by(s, "_-_"@) is Some {
        split_by(s, "_-_"@)
    } else if split_by(s, " -_ "@) is Some {
        split_by(s, " -_ "@)
    } else if split_by(s, "_ -_"@) is Some {
        split_by(s, "_ -_"@)
    } else {
        split_by(s, "_- "@)
    }
}

fn spaces_for_underscores(v: &Vec<char>) -> (r: Vec<char>)
    ensures
        r@ == underscores_to_spaces(v@),
{
    let mut out: Vec<char> = Vec::new();
    let mut i: usize = 0;
    while i < v.len()
        invariant
            i <= v@.len(),
            out@ =~= underscores_to_spaces(v@).subrange(0, i as int),
        decreases v@.len() - i,
    {
        if v[i] == '_' {
            out.push(' ');
        } else {
            out.push(v[i]);
        }
        i = i + 1;
    }
    out
}

fn split_exec(s: &Vec<char>, sep: &str) -> (r: Option<(String, String)>)
    ensures
        match split_by(s@, sep@) {
            Some((a, t)) => r matches Some((x, y)) && x@ == a && y@ == t,
            None => r is None,
        },
{
    let p = chars_of(sep);
    match find_first(s, &p) {
        None => None,
        Some(k) => {
            let n = s.len();
            let head = slice_chars(s, 0, k);
            let tail = slice_chars(s, k + p.len(), n);
            let a = trim_chars(&spaces_for_underscores(&head));
            let t = trim_chars(&spaces_for_underscores(&tail));
            if a.len() > 0 && t.len() > 0 {
                Some((string_of(&a), string_of(&t)))
            } else {
                None
            }
        },
    }
}

/// The author and title of a file name (see [`author_title_spec`]).
pub fn parse_author_title_pattern(filename: &str) -> (r: Option<(String, String)>)
    ensures
        match author_title_spec(filename@) {
            Some((a, t)) => r matches Some((x, y)) && x@ == a && y@ == t,
            None => r is None,
        },
{
    let s = chars_of(filename);
    let r1 = split_exec(&s, " - ");
    if r1.is_some() {
        return r1;
    }
    let r2 = split_exec(&s, "_-_");
    if r2.is_some() {
        return r2;
    }
    let r3 = split_exec(&s, " -_ ");
    if r3.is_some() {
        return r3;
    }
    let r4 = split_exec(&s, "_ -_");
    if r4.is_some() {
        return r4;
    }
    split_exec(&s, "_- ")
}

/// Metadata already known about a finished book.
#[derive(Debug, Clone)]
pub struct CurrentMetadata {
    pub title: Option<String>,
    pub author: Option<String>,
    pub year: Option<u32>,
    /// Duration in milliseconds.
    pub duration_ms: Option<u64>,
    pub source: MetadataSource,
}

impl CurrentMetadata {
    /// Whether there is enough to search with: a title or an author.
    pub fn is_sufficient(&self) -> (r: bool)
        ensures
            r == (self.title is Some || self.author is Some),
    {
        self.title.is_some() || self.author.is_some()
    }

    /// Each field from this record, else from `other`; the source stays this one's.
    pub fn merge_with(self, other: CurrentMetadata) -> (r: CurrentMetadata)
        ensures
            r.title == (if self.title is Some { self.title } else { other.title }),
            r.author == (if self.author is Some { self.author } else { other.author }),
            r.year == (if self.year is Some { self.year } else { other.year }),
            r.duration_ms == (if self.duration_ms is Some { self.duration_ms } else { other.duration_ms }),
            r.source == self.source,
    {
        CurrentMetadata {
            title: if self.title.is_some() { self.title } else { other.title },
            author: if self.author.is_some() { self.author } else { other.author },
            year: if self.year.is_some() { self.year } else { other.year },
            duration_ms: if self.duration_ms.is_some() { self.duration_ms } else { other.duration_ms },
            source: self.source,
        }
    }
}

/// The file stem a path offers for naming: empty when it has no file name.
pub open spec fn name_stem(path: Seq<char>) -> Seq<char> {
    if file_name_of(path).len() == 0 {
        Seq::empty()
    } else {
        stem_of(file_name_of(path))
    }
}

/// Metadata read from a file name: author and title when the stem has the
/// "Author - Title" shape, else the whole stem as the title.
pub fn extract_from_filename(path: &str) -> (r: CurrentMetadata)
    ensures
        r.source == MetadataSource::Filename,
        r.year is None && r.duration_ms is None,
        match author_title_spec(name_stem(path@)) {
            Some((a, t)) => r.author is Some && r.author->0@ == a && r.title is Some && r.title->0@ == t,
            None => r.author is None && r.title is Some && r.title->0@ == name_stem(path@),
        },
{
    let n = file_name(path);
    let s = if n.as_str().is_empty() {
        String::new()
    } else {
        stem(n.as_str())
    };
    match parse_author_title_pattern(s.as_str()) {
        Some((author, title)) => CurrentMetadata {
            title: Some(title),
            author: Some(author),
            year: None,
            duration_ms: None,
            source: MetadataSource::Filename,
        },
        None => CurrentMetadata {
            title: Some(s),
            author: None,
            year: None,
            duration_ms: None,
            source: MetadataSource::Filename,
        },
    }
}

} // verus!
