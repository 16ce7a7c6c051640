//! Where the selection is kept on disk.

use vstd::prelude::*;
use crate::peers::PROGRAM_NAME;

verus! {

/// The name of the file that holds the selection.
pub const STORE_FILE: &'static str = "currentplayer";

/// The directory of this program under the user's cache directory: under
/// the configured cache directory where one is configured, else under
/// `.cache` in the home directory.
pub open spec fn cache_dir_of(configured: Option<Seq<char>>, home: Seq<char>) -> Seq<char> {
    let base = match configured {
        Some(dir) => dir,
        None => home + "/.cache"@,
    };
    base + "/"@ + PROGRAM_NAME@
}

/// The path of the selection file in `dir`.
pub open spec fn store_path_of(dir: Seq<char>) -> Seq<char> {
    dir + "/"@ + STORE_FILE@
}

/// The directory in which this program keeps its state. `configured` is the
/// user's cache directory where the environment names one, `home` the home
/// directory.
pub fn cache_dir(configured: Option<&str>, home: &str) -> (dir: String)
    ensures
        dir@ == cache_dir_of(
            match configured {
                Some(c) => Some(c@),
                None => None,
            },
            home@,
        ),
{
    let mut dir = match configured {
        Some(c) => c.to_owned(),
        None => {
            let mut base = home.to_owned();
            base.append("/.cache");
            base
        },
    };
    dir.append("/");
    dir.append(PROGRAM_NAME);
    dir
}

/// The path of the selection file in the directory `dir`.
pub fn store_path(dir: &str) -> (path: String)
    ensures
        path@ == store_path_of(dir@),
{
    let mut path = dir.to_owned();
    path.append("/");
    path.append(STORE_FILE);
    path
}

} // verus!
