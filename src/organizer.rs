//! Moving book folders into the destination folder of their case.
//!
//! The organizer decides; whoever owns the file system performs the moves.
//! What already exists on disk is handed in as a list of paths.

use vstd::prelude::*;
use crate::book::{BookCase, BookFolder};
use crate::config::Config;
use crate::path::{file_name, file_name_of, join, join_of, parent, parent_of};
use crate::text::{decimal, push_decimal, push_str, string_of};

verus! {

/// What was done with a folder.
#[derive(Debug, Clone, Copy, PartialEq, Eq, Structural)]
pub enum OrganizeAction {
    /// Moved to the folder of books to convert.
    MovedToConvert,
    /// Moved to the folder of finished books.
    MovedToM4B,
    /// Left alone: already in place, or it could not be moved.
    Skipped,
    /// Left alone: not an audiobook folder (case D).
    SkippedInvalid,
}

impl OrganizeAction {
    /// A sentence describing the action.
    pub fn description(&self) -> (r: &'static str)
        ensures
            r@ == match *self {
                OrganizeAction::MovedToConvert => "Moved to conversion folder"@,
                OrganizeAction::MovedToM4B => "Moved to M4B folder"@,
                OrganizeAction::Skipped => "Already in correct location"@,
                OrganizeAction::SkippedInvalid => "Skipped (not a valid audiobook)"@,
            },
    {
        match self {
            OrganizeAction::MovedToConvert => "Moved to conversion folder",
            OrganizeAction::MovedToM4B => "Moved to M4B folder",
            OrganizeAction::Skipped => "Already in correct location",
            OrganizeAction::SkippedInvalid => "Skipped (not a valid audiobook)",
        }
    }
}

/// The outcome for one folder.
#[derive(Debug, Clone)]
pub struct OrganizeResult {
    pub book_name: String,
    pub source_path: String,
    /// Where the folder goes, when it moves.
    pub destination_path: Option<String>,
    pub action: OrganizeAction,
    pub success: bool,
    pub error_message: Option<String>,
}

/// Why a folder could not be organised.
#[derive(Debug, Clone, Copy, PartialEq, Eq, Structural)]
pub enum OrganizeError {
    /// The source path has no final component.
    InvalidSourcePath,
    /// Every numbered alternative name is taken.
    NamingConflictExhausted,
}

/// The message for an organising error.
pub open spec fn error_text(e: OrganizeError) -> Seq<char> {
    match e {
        OrganizeError::InvalidSourcePath => "Invalid source path"@,
        OrganizeError::NamingConflictExhausted => "Could not resolve naming conflict"@,
    }
}

impl OrganizeError {
    /// The message for this error.
    pub fn message(&self) -> (r: String)
        ensures
            r@ == error_text(*self),
    {
        match self {
            OrganizeError::InvalidSourcePath => "Invalid source path".to_owned(),
            OrganizeError::NamingConflictExhausted => "Could not resolve naming conflict".to_owned(),
        }
    }
}

/// Sorts book folders under a root into a folder for books to convert and a
/// folder for finished books.
#[derive(Debug, Clone)]
pub struct Organizer {
    pub root: String,
    pub m4b_folder: String,
    pub convert_folder: String,
    /// Decide only; move nothing.
    pub dry_run: bool,
}

/// The texts of a list of strings.
pub open spec fn path_texts(v: Seq<String>) -> Seq<Seq<char>> {
    v.map_values(|s: String| s@)
}

/// The alternative name number `i` for `path`: its file name with `_i` appended.
pub open spec fn numbered(path: Seq<char>, i: nat) -> Seq<char> {
    join_of(parent_of(path), file_name_of(path) + "_"@ + decimal(i))
}

/// Largest suffix number tried.
pub const MAX_SUFFIX: u64 = 999;

/// The first free alternative name for `path` numbered `i` or more, up to [`MAX_SUFFIX`].
pub open spec fn first_free(path: Seq<char>, taken: Seq<Seq<char>>, i: nat) -> Option<Seq<char>>
    decreases 1000 - i,
{
    if i > MAX_SUFFIX {
        None
    } else if !taken.contains(numbered(path, i)) {
        Some(numbered(path, i))
    } else {
        first_free(path, taken, i + 1)
    }
}

/// A free name for `path`: itself if free, else its first free numbered
/// alternative from `_2` on.
pub open spec fn resolve_spec(path: Seq<char>, taken: Seq<Seq<char>>) -> Option<Seq<char>> {
    if !taken.contains(path) {
        Some(path)
    } else {
        first_free(path, taken, 2)
    }
}

proof fn lemma_first_free_free(path: Seq<char>, taken: Seq<Seq<char>>, i: nat)
    ensures
        first_free(path, taken, i) matches Some(d) ==> !taken.contains(d),
    decreases 1000 - i,
{
    if i <= MAX_SUFFIX && taken.contains(numbered(path, i)) {
        lemma_first_free_free(path, taken, i + 1);
    }
}

/// A resolved name is never one already taken.
pub proof fn lemma_resolved_name_is_free(path: Seq<char>, taken: Seq<Seq<char>>)
    ensures
        resolve_spec(path, taken) matches Some(d) ==> !taken.contains(d),
{
    lemma_first_free_free(path, taken, 2);
}

/// The destination root for a case, if the case has one.
pub open spec fn target_spec(o: Organizer, case: BookCase) -> Option<Seq<char>> {
    match case {
        BookCase::A | BookCase::B => Some(join_of(o.root@, o.convert_folder@)),
        BookCase::C => Some(join_of(o.root@, o.m4b_folder@)),
        BookCase::D => None,
    }
}

/// Where a book goes and what action that is, given the paths taken.
pub open spec fn organize_spec(o: Organizer, book: BookFolder, taken: Seq<Seq<char>>) -> Result<
    (Option<Seq<char>>, OrganizeAction),
    OrganizeError,
> {
    match target_spec(o, book.case) {
        None => Ok((None, OrganizeAction::SkippedInvalid)),
        Some(target) => {
            let action = if book.case == BookCase::C {
                OrganizeAction::MovedToM4B
            } else {
                OrganizeAction::MovedToConvert
            };
            if parent_of(book.folder_path@) == target {
                Ok((None, OrganizeAction::Skipped))
            } else if file_name_of(book.folder_path@).len() == 0 {
                Err(OrganizeError::InvalidSourcePath)
            } else {
                match resolve_spec(join_of(target, file_name_of(book.folder_path@)), taken) {
                    Some(d) => Ok((Some(d), action)),
                    None => Err(OrganizeError::NamingConflictExhausted),
                }
            }
        },
    }
}

/// `r` is the record of organising `book` with the paths `taken`.
pub open spec fn result_matches(o: Organizer, book: BookFolder, taken: Seq<Seq<char>>, r: OrganizeResult) -> bool {
    &&& r.book_name == book.name
    &&& r.source_path == book.folder_path
    &&& match organize_spec(o, book, taken) {
        Ok((d, a)) => {
            &&& r.success
            &&& r.action == a
            &&& r.error_message is None
            &&& match d {
                Some(p) => r.destination_path is Some && r.destination_path->0@ == p,
                None => r.destination_path is None,
            }
        },
        Err(e) => {
            &&& !r.success
            &&& r.action == OrganizeAction::Skipped
            &&& r.destination_path is None
            &&& r.error_message is Some && r.error_message->0@ == error_text(e)
        },
    }
}

/// The destinations of the records, in order.
pub open spec fn destinations(rs: Seq<OrganizeResult>) -> Seq<Seq<char>>
    decreases rs.len(),
{
    if rs.len() == 0 {
        Seq::empty()
    } else {
        destinations(rs.drop_last()) + match rs.last().destination_path {
            Some(p) => seq![p@],
            None => Seq::<Seq<char>>::empty(),
        }
    }
}

fn list_has(v: &Vec<String>, p: &String) -> (r: bool)
    ensures
        r == path_texts(v@).contains(p@),
{
    let mut i: usize = 0;
    while i < v.len()
        invariant
            i <= v@.len(),
            forall|j: int| 0 <= j < i ==> v@[j]@ != p@,
        decreases v@.len() - i,
    {
        if v[i] == *p {
            assert(path_texts(v@)[i as int] == p@);
            return true;
        }
        i = i + 1;
    }
    assert forall|j: int| 0 <= j < path_texts(v@).len() implies path_texts(v@)[j] != p@ by {}
    false
}

fn numbered_exec(dir: &str, base: &str, i: u64) -> (r: String)
    ensures
        r@ == join_of(dir@, base@ + "_"@ + decimal(i as nat)),
{
    let mut v: Vec<char> = Vec::new();
    push_str(&mut v, base);
    push_str(&mut v, "_");
    push_decimal(&mut v, i);
    let name = string_of(&v);
    join(dir, name.as_str())
}

impl Organizer {
    /// An organizer for `root` with the folder names of `config`, moving for real.
    pub fn new(root: String, config: &Config) -> (r: Organizer)
        ensures
            r.root == root,
            r.m4b_folder == config.organization.m4b_folder,
            r.convert_folder == config.organization.convert_folder,
            !r.dry_run,
    {
        Organizer {
            root,
            m4b_folder: config.organization.m4b_folder.clone(),
            convert_folder: config.organization.convert_folder.clone(),
            dry_run: false,
        }
    }

    /// An organizer for `root` with the folder names of `config` and the given dry-run flag.
    pub fn with_dry_run(root: String, config: &Config, dry_run: bool) -> (r: Organizer)
        ensures
            r.root == root,
            r.m4b_folder == config.organization.m4b_folder,
            r.convert_folder == config.organization.convert_folder,
            r.dry_run == dry_run,
    {
        Organizer {
            root,
            m4b_folder: config.organization.m4b_folder.clone(),
            convert_folder: config.organization.convert_folder.clone(),
            dry_run,
        }
    }

    /// The destination root for `case`: cases A and B go to the conversion
    /// folder, C to the finished folder, D nowhere.
    pub fn get_target_folder(&self, case: BookCase) -> (r: Option<String>)
        ensures
            match target_spec(*self, case) {
                Some(t) => r is Some && r->0@ == t,
                None => r is None,
            },
    {
        match case {
            BookCase::A | BookCase::B => Some(join(self.root.as_str(), self.convert_folder.as_str())),
            BookCase::C => Some(join(self.root.as_str(), self.m4b_folder.as_str())),
            BookCase::D => None,
        }
    }

    /// A free name for `path` given the paths `taken` (see [`resolve_spec`]).
    pub fn resolve_naming_conflict(&self, path: &String, taken: &Vec<String>) -> (r: Result<
        String,
        OrganizeError,
    >)
        ensures
            match resolve_spec(path@, path_texts(taken@)) {
                Some(p) => r is Ok && r->Ok_0@ == p,
                None => r == Err::<String, OrganizeError>(OrganizeError::NamingConflictExhausted),
            },
    {
        if !list_has(taken, path) {
            return Ok(path.clone());
        }
        let dir = parent(path.as_str());
        let base = file_name(path.as_str());
        let mut i: u64 = 2;
        while i <= MAX_SUFFIX
            invariant
                2 <= i <= MAX_SUFFIX + 1,
                path_texts(taken@).contains(path@),
                dir@ == parent_of(path@),
                base@ == file_name_of(path@),
                first_free(path@, path_texts(taken@), 2) == first_free(
                    path@,
                    path_texts(taken@),
                    i as nat,
                ),
            decreases MAX_SUFFIX + 1 - i,
        {
            let candidate = numbered_exec(dir.as_str(), base.as_str(), i);
            assert(candidate@ == numbered(path@, i as nat));
            if !list_has(taken, &candidate) {
                assert(first_free(path@, path_texts(taken@), i as nat) == Some(numbered(path@, i as nat)));
                return Ok(candidate);
            }
            i = i + 1;
        }
        Err(OrganizeError::NamingConflictExhausted)
    }

    /// Decides where `book` goes given the paths `taken` (see [`organize_spec`]).
    pub fn organize_book(&self, book: &BookFolder, taken: &Vec<String>) -> (r: Result<
        OrganizeResult,
        OrganizeError,
    >)
        ensures
            match organize_spec(*self, *book, path_texts(taken@)) {
                Ok(_) => r is Ok && result_matches(*self, *book, path_texts(taken@), r->Ok_0),
                Err(e) => r == Err::<OrganizeResult, OrganizeError>(e),
            },
    {
        let target = match self.get_target_folder(book.case) {
            Some(t) => t,
            None => {
                return Ok(
                    OrganizeResult {
                        book_name: book.name.clone(),
                        source_path: book.folder_path.clone(),
                        destination_path: None,
                        action: OrganizeAction::SkippedInvalid,
                        success: true,
                        error_message: None,
                    },
                );
            },
        };
        let action = if book.case == BookCase::C {
            OrganizeAction::MovedToM4B
        } else {
            OrganizeAction::MovedToConvert
        };
        let up = parent(book.folder_path.as_str());
        if up == target {
            return Ok(
                OrganizeResult {
                    book_name: book.name.clone(),
                    source_path: book.folder_path.clone(),
                    destination_path: None,
                    action: OrganizeAction::Skipped,
                    success: true,
                    error_message: None,
                },
            );
        }
        let name = file_name(book.folder_path.as_str());
        if name.as_str().is_empty() {
            return Err(OrganizeError::InvalidSourcePath);
        }
        let destination = join(target.as_str(), name.as_str());
        let final_destination = self.resolve_naming_conflict(&destination, taken)?;
        Ok(
            OrganizeResult {
                book_name: book.name.clone(),
                source_path: book.folder_path.clone(),
                destination_path: Some(final_destination),
                action,
                success: true,
                error_message: None,
            },
        )
    }

    /// Decides for each book in turn; a book's destination counts as taken for
    /// the books after it, and a book that cannot be organised gets a failed
    /// record without stopping the others.
    pub fn organize_batch(&self, books: &Vec<BookFolder>, taken: &Vec<String>) -> (r: Vec<
        OrganizeResult,
    >)
        ensures
            r@.len() == books@.len(),
            forall|i: int|
                0 <= i < r@.len() ==> result_matches(
                    *self,
                    books@[i],
                    path_texts(taken@) + destinations(r@.subrange(0, i)),
                    #[trigger] r@[i],
                ),
    {
        let mut results: Vec<OrganizeResult> = Vec::new();
        let mut now_taken: Vec<String> = taken.clone();
        let mut i: usize = 0;
        while i < books.len()
            invariant
                i <= books@.len(),
                results@.len() == i,
                path_texts(now_taken@) == path_texts(taken@) + destinations(results@),
                forall|k: int|
                    0 <= k < i ==> result_matches(
                        *self,
                        books@[k],
                        path_texts(taken@) + destinations(results@.subrange(0, k)),
                        #[trigger] results@[k],
                    ),
            decreases books@.len() - i,
        {
            let book = &books[i];
            let record = match self.organize_book(book, &now_taken) {
                Ok(res) => res,
                Err(e) => OrganizeResult {
                    book_name: book.name.clone(),
                    source_path: book.folder_path.clone(),
                    destination_path: None,
                    action: OrganizeAction::Skipped,
                    success: false,
                    error_message: Some(e.message()),
                },
            };
            let ghost before = results@;
            let ghost before_taken = now_taken@;
            let ghost added: Seq<Seq<char>> = if record.destination_path is Some {
                seq![record.destination_path->0@]
            } else {
                Seq::<Seq<char>>::empty()
            };
            if let Some(d) = &record.destination_path {
                now_taken.push(d.clone());
                assert(path_texts(now_taken@) =~= path_texts(before_taken) + added);
            } else {
                assert(path_texts(now_taken@) =~= path_texts(before_taken) + added);
            }
            results.push(record);
            proof {
                assert(results@.subrange(0, i as int) =~= before);
                assert(results@.drop_last() =~= before);
                assert(destinations(results@) == destinations(before) + added);
                assert forall|k: int| 0 <= k < i implies results@.subrange(0, k) =~= before.subrange(
                    0,
                    k,
                ) by {}
                assert(path_texts(now_taken@) =~= path_texts(taken@) + destinations(results@));
            }
            i = i + 1;
        }
        results
    }
}

} // verus!
