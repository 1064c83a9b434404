//! Where the alert history is kept on disk.

use vstd::prelude::*;
use crate::text::concat_str;

verus! {

/// The name of the file that holds the alert history.
pub const FILE_NAME: &'static str = "alert-history.json";

/// The file's path inside a directory, as `Path::join` forms it for a
/// relative name: the name alone inside an empty directory path, otherwise
/// the directory, a `/` unless it already ends with one, and the name.
pub open spec fn history_path(dir: Seq<char>) -> Seq<char> {
    if dir.len() == 0 {
        FILE_NAME@
    } else if dir.last() == '/' {
        dir + FILE_NAME@
    } else {
        dir + "/"@ + FILE_NAME@
    }
}

/// The path of the alert-history file in the application's data directory.
pub fn path(app_data_dir: &str) -> (file: String)
    ensures
        file@ == history_path(app_data_dir@),
{
    let n = app_data_dir.unicode_len();
    if n == 0 {
        FILE_NAME.to_owned()
    } else if app_data_dir.get_char(n - 1) == '/' {
        concat_str(app_data_dir, FILE_NAME)
    } else {
        let with_slash = concat_str(app_data_dir, "/");
        concat_str(with_slash.as_str(), FILE_NAME)
    }
}

} // verus!
