//! cake_lib
//!
//! Primitives for flat-file operations: load a delimited text file's
//! path-derived metadata and content into a `FileObject`, and parse the
//! content lines into a `DataFrame` exposing a header row, data rows and
//! their counts. All path and content parsing is verified; reading the
//! file itself is the caller's job, who hands the raw text in.
pub mod file;
pub mod frame;
pub mod text;

use vstd::prelude::*;

use crate::file::path_error_matches;
use crate::file::valid_source_path;
use crate::file::CakeError;
use crate::file::FileObject;
use crate::frame::DataFrame;
use crate::text::split_text;

verus! {

/// Reads csv content into a dataframe. The caller reads the raw text at
/// `path` and hands it in; this validates the path and parses the
/// newline-split content, succeeding exactly when the path yields a
/// filename with an extension segment.
pub fn read_csv(path: &String, content: &String) -> (r: Result<DataFrame, CakeError>)
    ensures
        match r {
            Ok(df) => valid_source_path(path@) && df.parses(split_text(content@, '\n')),
            Err(e) => !valid_source_path(path@) && path_error_matches(path@, e),
        },
{
    let obj = match FileObject::new(path, content) {
        Ok(o) => o,
        Err(e) => {
            return Err(e);
        },
    };
    let data = obj.get_data();
    let df = DataFrame::new(data);
    Ok(df)
}

} // verus!
