//! File records: path-derived metadata and raw content for a target file.
//!
//! A `FileObject` is an immutable snapshot of a file: its metadata is
//! derived from the path (the filename is the last `/`-delimited segment,
//! the filetype is the last `.`-delimited segment of the filename) and its
//! data is the content split into lines. Reading the file from disk is the
//! caller's job; the raw text is handed in and every failure is surfaced
//! as a `CakeError` naming the check that failed.
//!
//! Compatible filetypes: csv
use vstd::prelude::*;

use crate::text::split_on;
use crate::text::split_text;
use crate::text::str_views;
use crate::text::suffix_after_last;
use crate::text::suffix_after_last_char;

verus! {

/// Why a load failed, with enough context to report it.
#[derive(Debug)]
pub enum CakeError {
    /// The path has no extractable filename segment.
    InvalidPath { path: String },
    /// The filename has no extension segment.
    InvalidFiletype { path: String },
    /// The extension is not in the supported-type allow-list.
    UnsupportedFiletype { filetype: String },
    /// The file is missing, unreadable, or not valid text. Raised by the
    /// caller doing the read; path parsing alone never produces it.
    Io { path: String },
}

/// Metadata derived from a target file's path.
#[derive(Debug)]
pub struct FileMetadata {
    /// Full path to the file.
    pub path: String,
    /// Filename: the last `/`-delimited segment of the path.
    pub name: String,
    /// Stored file size.
    pub size: u32,
    /// Type of file (i.e. "csv"): the last `.`-delimited segment of the name.
    pub filetype: String,
    pub created_date: u32,
    pub last_modified_date: u32,
}

/// A loaded file: metadata derived from its path plus its content lines.
#[derive(Debug)]
pub struct FileObject {
    pub metadata: FileMetadata,
    pub data: Vec<String>,
}

/// The filename a path yields: everything after the last `/`, or the whole
/// path when it has no `/`.
pub open spec fn filename_of(path: Seq<char>) -> Seq<char> {
    suffix_after_last(path, '/')
}

/// The extension a path yields: everything after the last `.` of its
/// filename. Meaningful only when the filename contains a `.`.
pub open spec fn extension_of(path: Seq<char>) -> Seq<char> {
    suffix_after_last(filename_of(path), '.')
}

/// A path from which metadata can be loaded: it yields a filename, and
/// that filename has an extension segment.
pub open spec fn valid_source_path(path: Seq<char>) -> bool {
    filename_of(path).len() > 0 && filename_of(path).contains('.')
}

/// The error that loading metadata from `path` owes: `InvalidPath` when no
/// filename can be extracted, else `InvalidFiletype` when the filename has
/// no `.`.
pub open spec fn path_error_matches(path: Seq<char>, e: CakeError) -> bool {
    match e {
        CakeError::InvalidPath { path: p } => p@ == path && filename_of(path).len() == 0,
        CakeError::InvalidFiletype { path: p } => p@ == path && filename_of(path).len() > 0
            && !filename_of(path).contains('.'),
        _ => false,
    }
}

/// Metadata correctly derived from `path`, with the size and date
/// placeholders left at zero.
pub open spec fn metadata_matches(path: Seq<char>, m: FileMetadata) -> bool {
    &&& m.path@ == path
    &&& m.name@ == filename_of(path)
    &&& m.filetype@ == extension_of(path)
    &&& m.size == 0
    &&& m.created_date == 0
    &&& m.last_modified_date == 0
}

/// Parses the target filename from a path: the segment after the last `/`.
/// Yields nothing when that segment is empty (an empty path, or one that
/// ends in `/`).
pub fn get_filename_from_path(path: &String) -> (r: Option<String>)
    ensures
        match r {
            Some(name) => name@ == filename_of(path@) && name@.len() > 0,
            None => filename_of(path@).len() == 0,
        },
{
    let (_, name) = suffix_after_last_char(path.as_str(), '/');
    if name.as_str().unicode_len() == 0 {
        None
    } else {
        Some(name)
    }
}

/// Parses the target filename's extension for the filetype: the segment
/// after the last `.` of the filename. Yields nothing when the path has no
/// filename or the filename has no `.`.
pub fn get_filetype_from_path(path: &String) -> (r: Option<String>)
    ensures
        match r {
            Some(ext) => valid_source_path(path@) && ext@ == extension_of(path@),
            None => !valid_source_path(path@),
        },
{
    match get_filename_from_path(path) {
        None => None,
        Some(name) => {
            let (found, ext) = suffix_after_last_char(name.as_str(), '.');
            if found {
                Some(ext)
            } else {
                None
            }
        },
    }
}

/// Generates metadata from a target filepath. Fails with `InvalidPath`
/// when the path yields no filename and with `InvalidFiletype` when the
/// filename has no extension segment; the size and date placeholders are
/// left at zero.
pub fn load_metadata(path: &String) -> (r: Result<FileMetadata, CakeError>)
    ensures
        match r {
            Ok(m) => valid_source_path(path@) && metadata_matches(path@, m),
            Err(e) => !valid_source_path(path@) && path_error_matches(path@, e),
        },
{
    let name = match get_filename_from_path(path) {
        Some(name) => name,
        None => {
            return Err(CakeError::InvalidPath { path: path.clone() });
        },
    };
    let filetype = match get_filetype_from_path(path) {
        Some(filetype) => filetype,
        None => {
            return Err(CakeError::InvalidFiletype { path: path.clone() });
        },
    };
    Ok(
        FileMetadata {
            path: path.clone(),
            name,
            size: 0,
            filetype,
            created_date: 0,
            last_modified_date: 0,
        },
    )
}

/// Generates file data from raw content: the content split into lines on
/// the newline character.
pub fn load_data(content: &String) -> (r: Vec<String>)
    ensures
        str_views(r@) == split_text(content@, '\n'),
{
    split_on(content.as_str(), '\n')
}

impl FileObject {
    /// Creates a file record from a filepath and the raw text read from
    /// it. Succeeds exactly when the path yields a filename with an
    /// extension segment.
    pub fn new(path: &String, content: &String) -> (r: Result<FileObject, CakeError>)
        ensures
            match r {
                Ok(obj) => valid_source_path(path@) && metadata_matches(path@, obj.metadata)
                    && str_views(obj.data@) == split_text(content@, '\n'),
                Err(e) => !valid_source_path(path@) && path_error_matches(path@, e),
            },
    {
        let metadata = match load_metadata(path) {
            Ok(m) => m,
            Err(e) => {
                return Err(e);
            },
        };
        let data = load_data(content);
        Ok(FileObject { metadata, data })
    }

    /// The file is supported: its filetype is in the allow-list.
    pub open spec fn is_supported(self) -> bool {
        self.metadata.filetype@ == "csv"@
    }

    /// Returns true exactly when the file's type is a compatible filetype.
    pub fn is_valid(&self) -> (r: bool)
        ensures
            r == self.is_supported(),
    {
        self.metadata.filetype == "csv".to_owned()
    }

    /// Checks that the file's type is supported: fails with
    /// `UnsupportedFiletype` exactly when it is not.
    pub fn validate(&self) -> (r: Result<(), CakeError>)
        ensures
            match r {
                Ok(u) => self.is_supported(),
                Err(e) => !self.is_supported() && match e {
                    CakeError::UnsupportedFiletype { filetype } => filetype@
                        == self.metadata.filetype@,
                    _ => false,
                },
            },
    {
        if !self.is_valid() {
            return Err(
                CakeError::UnsupportedFiletype { filetype: self.metadata.filetype.clone() },
            );
        }
        Ok(())
    }

    /// Read-only projection of the file's metadata.
    pub fn get_metadata(&self) -> (r: &FileMetadata)
        ensures
            *r == self.metadata,
    {
        &self.metadata
    }

    /// Read-only projection of the file's content lines.
    pub fn get_data(&self) -> (r: &Vec<String>)
        ensures
            r@ == self.data@,
    {
        &self.data
    }
}

} // verus!
