//! The asset record and the decisions made about it: which URL variant to
//! fetch, the effective file extension, and the rating-based destination.

use vstd::prelude::*;
use vstd::string::StringExecFns;
use crate::text::{contains_substr, i32_to_string, spec_contains, spec_int_str};

verus! {

/// Why a download was abandoned.
#[derive(Clone, Copy, Debug, PartialEq, Eq, Structural)]
pub enum DownloadError {
    /// The URL variant selected for use is absent from the record.
    MissingUrl,
    /// Directory creation, file creation, or a write failed.
    FilesystemError,
    /// Request construction or the network transfer failed.
    TransferError,
}

/// Content-sensitivity rating, decoded from its single-character wire form.
/// Every character decodes: anything outside the four known codes is
/// `Unknown`, never an error.
#[derive(Clone, Copy, Debug, PartialEq, Eq, Structural)]
pub enum Rating {
    Sensitive,
    Questionable,
    Explicit,
    General,
    Unknown,
}

impl Rating {
    /// The rating a wire character denotes.
    pub open spec fn spec_of_char(c: char) -> Rating {
        if c == 's' {
            Rating::Sensitive
        } else if c == 'q' {
            Rating::Questionable
        } else if c == 'e' {
            Rating::Explicit
        } else if c == 'g' {
            Rating::General
        } else {
            Rating::Unknown
        }
    }

    pub fn of_char(c: char) -> (r: Rating)
        ensures
            r == Rating::spec_of_char(c),
    {
        if c == 's' {
            Rating::Sensitive
        } else if c == 'q' {
            Rating::Questionable
        } else if c == 'e' {
            Rating::Explicit
        } else if c == 'g' {
            Rating::General
        } else {
            Rating::Unknown
        }
    }

    /// The destination subfolder this rating buckets assets into.
    pub open spec fn spec_folder(self) -> Seq<char> {
        match self {
            Rating::Sensitive => "sensitive"@,
            Rating::Questionable => "questionable"@,
            Rating::Explicit => "explicit"@,
            Rating::General => "general"@,
            Rating::Unknown => "unknown"@,
        }
    }

    pub fn folder_name(self) -> (name: String)
        ensures
            name@ == self.spec_folder(),
    {
        match self {
            Rating::Sensitive => String::from_str("sensitive"),
            Rating::Questionable => String::from_str("questionable"),
            Rating::Explicit => String::from_str("explicit"),
            Rating::General => String::from_str("general"),
            Rating::Unknown => String::from_str("unknown"),
        }
    }
}

/// Subfolder for a wire-format rating character: total, and `"unknown"` for
/// every character outside the four known codes.
pub open spec fn spec_subfolder(c: char) -> Seq<char> {
    Rating::spec_of_char(c).spec_folder()
}

/// Law: the rating-to-subfolder mapping is total and exact — each of the
/// four known codes maps to its named bucket, and every other character maps
/// to `"unknown"`; no rating value is ever rejected.
pub proof fn lemma_subfolder_total(c: char)
    ensures
        c == 's' ==> spec_subfolder(c) == "sensitive"@,
        c == 'q' ==> spec_subfolder(c) == "questionable"@,
        c == 'e' ==> spec_subfolder(c) == "explicit"@,
        c == 'g' ==> spec_subfolder(c) == "general"@,
        (c != 's' && c != 'q' && c != 'e' && c != 'g') ==> spec_subfolder(c) == "unknown"@,
{
}

/// Metadata record describing one remote media asset.
#[derive(Debug)]
pub struct Post {
    /// Unique identifier from the source system.
    pub id: i32,
    /// Popularity score; used only for naming, never validated.
    pub score: i32,
    /// Content rating in its single-character wire form.
    pub rating: char,
    /// File extension as reported by the source; may mislabel animated
    /// assets as the generic container type.
    pub file_ext: String,
    /// Standard-resolution asset location, when known.
    pub file_url: Option<String>,
    /// Higher-fidelity or differently-encoded location, when known.
    pub large_file_url: Option<String>,
}

impl Post {
    /// The alternate variant is selected exactly when the alternate URL is
    /// present and denotes the animated-video encoding.
    pub open spec fn spec_alt_selected(self) -> bool {
        match self.large_file_url {
            Some(u) => spec_contains(u@, ".webm"@),
            None => false,
        }
    }

    /// Extension the saved file gets: the declared one, except that the
    /// generic container label is corrected to the video encoding's true
    /// extension when the alternate variant was selected.
    pub open spec fn spec_effective_ext(self) -> Seq<char> {
        if self.file_ext@ == "zip"@ && self.spec_alt_selected() {
            "webm"@
        } else {
            self.file_ext@
        }
    }

    /// The URL variant chosen for the fetch, if the record carries it.
    pub open spec fn spec_selected_url(self) -> Option<Seq<char>> {
        if self.spec_alt_selected() {
            match self.large_file_url {
                Some(u) => Some(u@),
                None => None,
            }
        } else {
            match self.file_url {
                Some(u) => Some(u@),
                None => None,
            }
        }
    }

    /// Whether the record is downloadable at all: the chosen variant exists.
    pub open spec fn spec_has_url(self) -> bool {
        self.spec_selected_url() is Some
    }

    /// Destination filename: `"{score}_{id}.{ext}"`, scores and identifiers
    /// rendered in plain decimal, negative values kept verbatim.
    pub open spec fn spec_filename(self) -> Seq<char> {
        spec_int_str(self.score as int) + "_"@ + spec_int_str(self.id as int) + "."@
            + self.spec_effective_ext()
    }

    /// Destination directory under `base`: one subfolder per rating bucket.
    pub open spec fn spec_dir(self, base: Seq<char>) -> Seq<char> {
        base + "/"@ + spec_subfolder(self.rating)
    }

    /// Full destination path under `base`.
    pub open spec fn spec_path(self, base: Seq<char>) -> Seq<char> {
        self.spec_dir(base) + "/"@ + self.spec_filename()
    }

    pub fn alt_selected(&self) -> (alt: bool)
        ensures
            alt == self.spec_alt_selected(),
    {
        match &self.large_file_url {
            Some(u) => contains_substr(u.as_str(), ".webm"),
            None => false,
        }
    }

    pub fn effective_ext(&self) -> (ext: String)
        ensures
            ext@ == self.spec_effective_ext(),
    {
        let zip = String::from_str("zip");
        if self.file_ext == zip && self.alt_selected() {
            String::from_str("webm")
        } else {
            self.file_ext.clone()
        }
    }

    pub fn filename(&self) -> (name: String)
        ensures
            name@ == self.spec_filename(),
    {
        let mut name = i32_to_string(self.score);
        name.append("_");
        let id_str = i32_to_string(self.id);
        name.append(id_str.as_str());
        name.append(".");
        let ext = self.effective_ext();
        name.append(ext.as_str());
        name
    }

    pub fn dir(&self, base: &str) -> (dir: String)
        ensures
            dir@ == self.spec_dir(base@),
    {
        let mut dir = String::from_str(base);
        dir.append("/");
        let folder = Rating::of_char(self.rating).folder_name();
        dir.append(folder.as_str());
        dir
    }

    pub fn path(&self, base: &str) -> (path: String)
        ensures
            path@ == self.spec_path(base@),
    {
        let mut path = self.dir(base);
        path.append("/");
        let name = self.filename();
        path.append(name.as_str());
        path
    }
}

/// Law: when the declared extension is the generic container type and the
/// alternate URL denotes the animated-video encoding, the effective
/// extension becomes that encoding's true extension and the alternate URL is
/// the one chosen for the fetch.
pub proof fn lemma_animated_container_corrected(post: Post)
    requires
        post.file_ext@ == "zip"@,
        post.spec_alt_selected(),
    ensures
        post.spec_effective_ext() == "webm"@,
        post.spec_selected_url() matches Some(u) && (post.large_file_url matches Some(a) && u
            == a@),
{
}

} // verus!
