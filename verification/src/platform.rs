//! The platform-conventional configuration root, from the base directories.

use vstd::prelude::*;

verus! {

use crate::joined;
use crate::join_path;

/// The platform the tool runs on, as far as the root rule cares.
pub enum Platform {
    Windows,
    MacOs,
    Other,
}

/// The configuration root each platform keeps the registry file under:
/// the data directory's `Mozilla/Firefox` on Windows, its `Firefox` on
/// macOS, and the home directory's `.mozilla/firefox` elsewhere.
pub open spec fn spec_firefox_root(p: Platform, home_dir: Seq<char>, data_dir: Seq<char>) -> Seq<
    char,
> {
    match p {
        Platform::Windows => joined(joined(data_dir, "Mozilla"@), "Firefox"@),
        Platform::MacOs => joined(data_dir, "Firefox"@),
        Platform::Other => joined(joined(home_dir, ".mozilla"@), "firefox"@),
    }
}

/// The configuration root for the platform, built from the base directories.
pub fn firefox_root(p: Platform, home_dir: &str, data_dir: &str) -> (r: String)
    ensures
        r@ == spec_firefox_root(p, home_dir@, data_dir@),
{
    match p {
        Platform::Windows => {
            let m = join_path(data_dir, "Mozilla");
            join_path(m.as_str(), "Firefox")
        },
        Platform::MacOs => join_path(data_dir, "Firefox"),
        Platform::Other => {
            let m = join_path(home_dir, ".mozilla");
            join_path(m.as_str(), "firefox")
        },
    }
}

} // verus!
