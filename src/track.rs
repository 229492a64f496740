//! A single analysed audio track.

use vstd::prelude::*;
use crate::path::{extension, extension_of, file_name, file_name_of, stem, stem_of};
use crate::quality::QualityProfile;
use crate::text::{lower_of, to_lower};

verus! {

/// An audio file with its quality profile and its optional tag fields.
#[derive(Debug, Clone)]
pub struct Track {
    /// Path of the audio file.
    pub file_path: String,
    /// Quality profile of the file.
    pub quality: QualityProfile,
    /// Track title.
    pub title: Option<String>,
    /// Track number.
    pub track_number: Option<u32>,
    /// Album (book) title.
    pub album: Option<String>,
    /// Artist (author).
    pub artist: Option<String>,
    /// Album artist.
    pub album_artist: Option<String>,
    /// Year.
    pub year: Option<u32>,
    /// Genre.
    pub genre: Option<String>,
    /// Comment.
    pub comment: Option<String>,
}

/// The stem reported for a track path: the file name without its extension,
/// or "unknown" when the path has no file name.
pub open spec fn track_stem(p: Seq<char>) -> Seq<char> {
    let n = file_name_of(p);
    if n.len() == 0 {
        "unknown"@
    } else {
        stem_of(n)
    }
}

/// The lowercased extension of a track path, if its file name has one.
pub open spec fn track_extension(p: Seq<char>) -> Option<Seq<char>> {
    match extension_of(file_name_of(p)) {
        Some(e) => Some(lower_of(e)),
        None => None,
    }
}

impl Track {
    /// A track with no tag fields.
    pub fn new(file_path: String, quality: QualityProfile) -> (r: Track)
        ensures
            r.file_path == file_path,
            r.quality == quality,
            r.title is None && r.track_number is None && r.album is None && r.artist is None,
            r.album_artist is None && r.year is None && r.genre is None && r.comment is None,
    {
        Track {
            file_path,
            quality,
            title: None,
            track_number: None,
            album: None,
            artist: None,
            album_artist: None,
            year: None,
            genre: None,
            comment: None,
        }
    }

    /// The file name without its extension.
    pub fn get_filename_stem(&self) -> (r: String)
        ensures
            r@ == track_stem(self.file_path@),
    {
        let name = file_name(self.file_path.as_str());
        if name.as_str().is_empty() {
            "unknown".to_owned()
        } else {
            stem(name.as_str())
        }
    }

    /// The lowercased file extension.
    pub fn get_extension(&self) -> (r: Option<String>)
        ensures
            match track_extension(self.file_path@) {
                Some(e) => r is Some && r->0@ == e,
                None => r is None,
            },
    {
        let name = file_name(self.file_path.as_str());
        match extension(name.as_str()) {
            Some(e) => Some(to_lower(e.as_str())),
            None => None,
        }
    }

    /// Whether the extension is mp3, in any case.
    pub fn is_mp3(&self) -> (r: bool)
        ensures
            r == (track_extension(self.file_path@) == Some("mp3"@)),
    {
        match self.get_extension() {
            Some(e) => e == "mp3".to_owned(),
            None => false,
        }
    }

    /// Whether the extension is m4a or m4b, in any case.
    pub fn is_m4a(&self) -> (r: bool)
        ensures
            r == (track_extension(self.file_path@) == Some("m4a"@) || track_extension(
                self.file_path@,
            ) == Some("m4b"@)),
    {
        match self.get_extension() {
            Some(e) => e == "m4a".to_owned() || e == "m4b".to_owned(),
            None => false,
        }
    }
}

} // verus!
