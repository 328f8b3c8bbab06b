//! Rendering bookmark rows, and the snapshot path the database is copied to.

use vstd::prelude::*;

verus! {

use vstd::string::StringExecFns;
use crate::joined;
use crate::join_path;

/// One bookmark row: a title, absent for untitled bookmarks, and its URL.
pub struct Bookmark {
    pub title: Option<String>,
    pub url: String,
}

/// The view of an optional title.
pub open spec fn title_view(t: Option<String>) -> Option<Seq<char>> {
    match t {
        Some(s) => Some(s@),
        None => None,
    }
}

/// The output line owed for a row: the title, or the fixed placeholder when
/// it is absent, then a tab, then the URL.
pub open spec fn spec_render(title: Option<Seq<char>>, url: Seq<char>) -> Seq<char> {
    (match title {
        Some(t) => t,
        None => "No Title"@,
    }) + "\t"@ + url
}

/// Renders one bookmark as its tab-separated output line.
pub fn render_bookmark_line(b: &Bookmark) -> (r: String)
    ensures
        r@ == spec_render(title_view(b.title), b.url@),
{
    let mut s = match &b.title {
        Some(t) => t.clone(),
        None => "No Title".to_owned(),
    };
    s.append("\t");
    s.append(b.url.as_str());
    s
}

/// The output lines of a sequence of rows, in row order.
pub open spec fn spec_render_all(rows: Seq<Bookmark>) -> Seq<Seq<char>>
    decreases rows.len(),
{
    if rows.len() == 0 {
        seq![]
    } else {
        seq![spec_render(title_view(rows[0].title), rows[0].url@)] + spec_render_all(
            rows.drop_first(),
        )
    }
}

/// Renders every row as its output line, in row order.
pub fn render_bookmark_lines(rows: &Vec<Bookmark>) -> (r: Vec<String>)
    ensures
        r@.map_values(|s: String| s@) == spec_render_all(rows@),
{
    let mut lines: Vec<String> = Vec::new();
    let n = rows.len();
    let mut i: usize = 0;
    proof {
        assert(lines@.map_values(|s: String| s@) =~= Seq::<Seq<char>>::empty());
        assert(rows@.skip(0) =~= rows@);
        assert(Seq::<Seq<char>>::empty() + spec_render_all(rows@) =~= spec_render_all(rows@));
    }
    while i < n
        invariant
            0 <= i <= n,
            n == rows.len(),
            spec_render_all(rows@) == lines@.map_values(|s: String| s@) + spec_render_all(
                rows@.skip(i as int),
            ),
        decreases n - i,
    {
        proof {
            assert(rows@.skip(i as int)[0] == rows@[i as int]);
            assert(rows@.skip(i as int).drop_first() =~= rows@.skip(i as int + 1));
        }
        let ghost before = lines@.map_values(|s: String| s@);
        let line = render_bookmark_line(&rows[i]);
        let ghost lv = line@;
        lines.push(line);
        proof {
            assert(lines@.map_values(|s: String| s@) =~= before.push(lv));
            assert(before.push(lv) + spec_render_all(rows@.skip(i as int + 1)) =~= before + (
            seq![lv] + spec_render_all(rows@.skip(i as int + 1))));
        }
        i += 1;
    }
    proof {
        assert(rows@.skip(n as int) =~= Seq::<Bookmark>::empty());
        assert(lines@.map_values(|s: String| s@) + Seq::<Seq<char>>::empty() =~= lines@.map_values(
            |s: String| s@,
        ));
    }
    lines
}

/// The fixed path the database is copied to under the temporary directory,
/// overwriting any prior copy.
pub fn snapshot_path(temp_dir: &str) -> (r: String)
    ensures
        r@ == joined(temp_dir@, "firefox_places_copy.sqlite"@),
{
    join_path(temp_dir, "firefox_places_copy.sqlite")
}

} // verus!
