//! Sorting the files of a folder into buckets and classifying the folder.
//!
//! Listing directories is left to the caller, who hands in the paths of the
//! regular files found directly in a folder.

use vstd::prelude::*;
use crate::book::{case_of, folder_name, BookCase, BookFolder};
use crate::config::{default_cover_names, names_of, Config};
use crate::path::{extension, extension_of, file_name, file_name_of};
use crate::sorting::{natural_sort, natural_sorted, texts_of};
use crate::text::{chars_of, lower_of, to_lower};

verus! {

/// The bucket a file falls into.
#[derive(Debug, Clone, Copy, PartialEq, Eq, Structural)]
pub enum FileKind {
    /// A convertible source: mp3 or m4a.
    Source,
    /// A finished output: m4b.
    Output,
    /// A cue sheet.
    Cue,
    /// An image: jpg, jpeg or png.
    Image,
    /// Anything else.
    Other,
}

/// The bucket of a file with the given lowercased extension.
pub open spec fn kind_of_extension(ext: Option<Seq<char>>) -> FileKind {
    match ext {
        Some(e) => if e == "mp3"@ || e == "m4a"@ {
            FileKind::Source
        } else if e == "m4b"@ {
            FileKind::Output
        } else if e == "cue"@ {
            FileKind::Cue
        } else if e == "jpg"@ || e == "png"@ || e == "jpeg"@ {
            FileKind::Image
        } else {
            FileKind::Other
        },
        None => FileKind::Other,
    }
}

/// The bucket of the file at `path`.
pub open spec fn kind_of(path: Seq<char>) -> FileKind {
    kind_of_extension(
        match extension_of(file_name_of(path)) {
            Some(e) => Some(lower_of(e)),
            None => None,
        },
    )
}

/// Finds book folders and the files in them.
#[derive(Debug, Clone)]
pub struct Scanner {
    /// File names taken as cover images, compared without regard to case.
    pub cover_filenames: Vec<String>,
    /// Extract an embedded cover when no cover file is found.
    pub auto_extract_cover: bool,
}

/// The file at `path` is a cover image by name.
pub open spec fn is_cover_spec(covers: Seq<String>, path: Seq<char>) -> bool {
    exists|i: int| 0 <= i < covers.len() && lower_of(covers[i]@) == lower_of(file_name_of(path))
}

/// The sources, outputs, cue sheet and cover found among the first `n` files.
pub struct Buckets {
    pub sources: Seq<Seq<char>>,
    pub outputs: Seq<Seq<char>>,
    pub cue: Option<Seq<char>>,
    pub cover: Option<Seq<char>>,
}

/// The buckets of the first `n` files: sources and outputs in order, the last
/// cue sheet, and the first image whose name is a cover name.
pub open spec fn buckets(covers: Seq<String>, files: Seq<Seq<char>>, n: nat) -> Buckets
    decreases n,
{
    if n == 0 || n > files.len() {
        Buckets { sources: Seq::empty(), outputs: Seq::empty(), cue: None, cover: None }
    } else {
        let b = buckets(covers, files, (n - 1) as nat);
        let f = files[n - 1];
        match kind_of(f) {
            FileKind::Source => Buckets { sources: b.sources.push(f), ..b },
            FileKind::Output => Buckets { outputs: b.outputs.push(f), ..b },
            FileKind::Cue => Buckets { cue: Some(f), ..b },
            FileKind::Image => if b.cover is None && is_cover_spec(covers, f) {
                Buckets { cover: Some(f), ..b }
            } else {
                b
            },
            FileKind::Other => b,
        }
    }
}

/// Whether the text's first character is a dot.
pub open spec fn hidden_name(name: Seq<char>) -> bool {
    name.len() > 0 && name[0] == '.'
}

fn opt_text(o: &Option<String>) -> (r: Option<String>)
    ensures
        r == *o,
{
    match o {
        Some(s) => Some(s.clone()),
        None => None,
    }
}

impl Scanner {
    /// A scanner looking for cover.jpg, folder.jpg, cover.png and folder.png,
    /// extracting embedded covers.
    pub fn new() -> (r: Scanner)
        ensures
            names_of(r.cover_filenames@) == default_cover_names(),
            r.auto_extract_cover,
    {
        Scanner { cover_filenames: crate::config::default_cover_filenames(), auto_extract_cover: true }
    }

    /// A scanner looking for the given cover names, extracting embedded covers.
    pub fn with_cover_filenames(cover_filenames: Vec<String>) -> (r: Scanner)
        ensures
            r.cover_filenames == cover_filenames,
            r.auto_extract_cover,
    {
        Scanner { cover_filenames, auto_extract_cover: true }
    }

    /// A scanner with the cover settings of `config`.
    pub fn from_config(config: &Config) -> (r: Scanner)
        ensures
            names_of(r.cover_filenames@) == names_of(config.metadata.cover_filenames@),
            r.auto_extract_cover == config.metadata.auto_extract_cover,
    {
        let mut v: Vec<String> = Vec::new();
        let src = &config.metadata.cover_filenames;
        let mut i: usize = 0;
        while i < src.len()
            invariant
                i <= src@.len(),
                names_of(v@) == names_of(src@).subrange(0, i as int),
            decreases src@.len() - i,
        {
            let c = src[i].clone();
            assert(names_of(src@)[i as int] == c@);
            let ghost before = v@;
            v.push(c);
            assert(names_of(v@) =~= names_of(before).push(c@));
            assert(names_of(v@) =~= names_of(src@).subrange(0, i + 1));
            i = i + 1;
        }
        assert(names_of(src@).subrange(0, i as int) =~= names_of(src@));
        Scanner { cover_filenames: v, auto_extract_cover: config.metadata.auto_extract_cover }
    }

    /// Whether the final component of `path` starts with a dot.
    pub fn is_hidden(&self, path: &str) -> (r: bool)
        ensures
            r == hidden_name(file_name_of(path@)),
    {
        let name = file_name(path);
        let v = chars_of(name.as_str());
        v.len() > 0 && v[0] == '.'
    }

    /// Whether the file name of `path` equals a cover name, ignoring case.
    pub fn is_cover_art(&self, path: &str) -> (r: bool)
        ensures
            r == is_cover_spec(self.cover_filenames@, path@),
    {
        let name = file_name(path);
        let lowered = to_lower(name.as_str());
        let mut i: usize = 0;
        while i < self.cover_filenames.len()
            invariant
                i <= self.cover_filenames@.len(),
                lowered@ == lower_of(file_name_of(path@)),
                forall|k: int|
                    0 <= k < i ==> lower_of(#[trigger] self.cover_filenames@[k]@) != lowered@,
            decreases self.cover_filenames@.len() - i,
        {
            if to_lower(self.cover_filenames[i].as_str()) == lowered {
                return true;
            }
            i = i + 1;
        }
        false
    }

    /// The bucket of the file at `path` (see [`kind_of`]).
    pub fn file_kind(path: &str) -> (r: FileKind)
        ensures
            r == kind_of(path@),
    {
        let name = file_name(path);
        match extension(name.as_str()) {
            None => FileKind::Other,
            Some(e) => {
                let l = to_lower(e.as_str());
                if l == "mp3".to_owned() || l == "m4a".to_owned() {
                    FileKind::Source
                } else if l == "m4b".to_owned() {
                    FileKind::Output
                } else if l == "cue".to_owned() {
                    FileKind::Cue
                } else if l == "jpg".to_owned() || l == "png".to_owned() || l == "jpeg".to_owned() {
                    FileKind::Image
                } else {
                    FileKind::Other
                }
            },
        }
    }

    /// The book in folder `path` whose regular files are `files`: the files
    /// are bucketed, the folder classified, and the sources put in natural
    /// order. `None` for a folder of case D.
    pub fn scan_folder(&self, path: String, files: &Vec<String>) -> (r: Option<BookFolder>)
        ensures
            ({
                let b = buckets(self.cover_filenames@, texts_of(files@), files@.len());
                let case = case_of(b.sources.len(), b.outputs.len());
                if case == BookCase::D {
                    r is None
                } else {
                    &&& r is Some
                    &&& r->0.folder_path == path
                    &&& r->0.name@ == folder_name(path@)
                    &&& r->0.case == case
                    &&& texts_of(r->0.mp3_files@) == natural_sorted(b.sources)
                    &&& texts_of(r->0.m4b_files@) == b.outputs
                    &&& match b.cue {
                        Some(c) => r->0.cue_file is Some && r->0.cue_file->0@ == c,
                        None => r->0.cue_file is None,
                    }
                    &&& match b.cover {
                        Some(c) => r->0.cover_file is Some && r->0.cover_file->0@ == c,
                        None => r->0.cover_file is None,
                    }
                    &&& r->0.tracks@.len() == 0
                }
            }),
    {
        let mut book = BookFolder::new(path);
        let ghost fs = texts_of(files@);
        let mut i: usize = 0;
        while i < files.len()
            invariant
                i <= files@.len(),
                fs == texts_of(files@),
                ({
                    let b = buckets(self.cover_filenames@, fs, i as nat);
                    &&& texts_of(book.mp3_files@) == b.sources
                    &&& texts_of(book.m4b_files@) == b.outputs
                    &&& match b.cue {
                        Some(c) => book.cue_file is Some && book.cue_file->0@ == c,
                        None => book.cue_file is None,
                    }
                    &&& match b.cover {
                        Some(c) => book.cover_file is Some && book.cover_file->0@ == c,
                        None => book.cover_file is None,
                    }
                }),
                book.tracks@.len() == 0,
                book.folder_path == path,
                book.name@ == folder_name(path@),
            decreases files@.len() - i,
        {
            let f = files[i].clone();
            assert(fs[i as int] == f@);
            let kind = Self::file_kind(f.as_str());
            let ghost before_src = book.mp3_files@;
            let ghost before_out = book.m4b_files@;
            match kind {
                FileKind::Source => {
                    book.mp3_files.push(f);
                    assert(texts_of(book.mp3_files@) =~= texts_of(before_src).push(fs[i as int]));
                },
                FileKind::Output => {
                    book.m4b_files.push(f);
                    assert(texts_of(book.m4b_files@) =~= texts_of(before_out).push(fs[i as int]));
                },
                FileKind::Cue => {
                    book.cue_file = Some(f);
                },
                FileKind::Image => {
                    if book.cover_file.is_none() && self.is_cover_art(f.as_str()) {
                        book.cover_file = Some(f);
                    }
                },
                FileKind::Other => {},
            }
            i = i + 1;
        }
        book.classify();
        if book.case == BookCase::D {
            return None;
        }
        natural_sort(&mut book.mp3_files);
        Some(book)
    }

    /// Whether an embedded cover should be extracted for `book`: extraction
    /// is on, no cover file was found, and there is a source to take it from.
    pub fn wants_embedded_cover(&self, book: &BookFolder) -> (r: bool)
        ensures
            r == (self.auto_extract_cover && book.cover_file is None && book.mp3_files@.len() > 0),
    {
        self.auto_extract_cover && book.cover_file.is_none() && book.mp3_files.len() > 0
    }
}

/// The extension is "m4b" up to ASCII case.
pub open spec fn m4b_extension(e: Seq<char>) -> bool {
    e.len() == 3 && (e[0] == 'm' || e[0] == 'M') && e[1] == '4' && (e[2] == 'b' || e[2] == 'B')
}

/// Whether the file at `path` has the finished-output extension, in any ASCII case.
pub fn is_m4b_file(path: &str) -> (r: bool)
    ensures
        r == match extension_of(file_name_of(path@)) {
            Some(e) => m4b_extension(e),
            None => false,
        },
{
    let name = file_name(path);
    match extension(name.as_str()) {
        None => false,
        Some(e) => {
            let v = chars_of(e.as_str());
            v.len() == 3 && (v[0] == 'm' || v[0] == 'M') && v[1] == '4' && (v[2] == 'b' || v[2] == 'B')
        },
    }
}

} // verus!
