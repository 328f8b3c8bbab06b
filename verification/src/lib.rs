//! Locating a browser profile's bookmark database and rendering its rows.
//!
//! The library holds the logic of a small bookmark-export tool: parsing the
//! profile registry file (an INI-style sections file), selecting a profile by
//! name or by its default mark, resolving the bookmark database path, and
//! rendering bookmark rows as tab-separated lines. All file, environment and
//! database access stays outside, in the surrounding binary, which hands the
//! library plain strings.

use vstd::prelude::*;

pub mod bookmarks;
pub mod errors;
pub mod laws;
pub mod platform;
pub mod profiles;
pub mod registry;

verus! {

use vstd::string::StringExecFns;

/// The sequence `b` placed under directory `a`, separated by `/`.
pub open spec fn joined(a: Seq<char>, b: Seq<char>) -> Seq<char> {
    a + "/"@ + b
}

/// Appends a separator and `b` to `a`.
pub fn join_path(a: &str, b: &str) -> (r: String)
    ensures
        r@ == joined(a@, b@),
{
    let mut s = a.to_owned();
    s.append("/");
    s.append(b);
    s
}

/// Whether two strings hold the same characters.
pub fn str_eq(a: &str, b: &str) -> (r: bool)
    ensures
        r == (a@ == b@),
{
    let sa = a.to_owned();
    let sb = b.to_owned();
    sa == sb
}

} // verus!
