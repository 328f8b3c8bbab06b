//! The selection and rendering rules, stated and proved once over all inputs.

use vstd::prelude::*;

verus! {

use crate::registry::SecModel;
use crate::registry::spec_registry;
use crate::profiles::lookup;
use crate::profiles::is_profile_section;
use crate::profiles::sec_matches;
use crate::profiles::select;
use crate::profiles::resolved_path;
use crate::profiles::spec_locate;
use crate::profiles::spec_profile_names;
use crate::bookmarks::spec_render;
use crate::errors::ErrModel;
use crate::joined;

/// Selection returns a section exactly when one matches, and then a matching
/// one: the first in file order.
pub proof fn lemma_select_characterized(secs: Seq<SecModel>, target: Option<Seq<char>>)
    ensures
        (select(secs, target) is Some) <==> exists|i: int|
            0 <= i < secs.len() && sec_matches(#[trigger] secs[i], target),
        select(secs, target) matches Some(s) ==> sec_matches(s, target),
    decreases secs.len(),
{
    if secs.len() > 0 {
        lemma_select_characterized(secs.drop_first(), target);
        assert(forall|j: int|
            0 <= j < secs.drop_first().len() ==> #[trigger] secs.drop_first()[j] == secs[j + 1]);
        if !sec_matches(secs[0], target) {
            if select(secs.drop_first(), target) is Some {
                let i = choose|i: int|
                    0 <= i < secs.drop_first().len() && sec_matches(
                        #[trigger] secs.drop_first()[i],
                        target,
                    );
                assert(sec_matches(secs[i + 1], target));
            }
            if exists|i: int| 0 <= i < secs.len() && sec_matches(#[trigger] secs[i], target) {
                let i = choose|i: int|
                    0 <= i < secs.len() && sec_matches(#[trigger] secs[i], target);
                assert(sec_matches(secs.drop_first()[i - 1], target));
            }
        }
    }
}

/// The first matching section, in file order, is the one selected.
pub proof fn lemma_select_first(secs: Seq<SecModel>, target: Option<Seq<char>>, i: int)
    requires
        0 <= i < secs.len(),
        sec_matches(secs[i], target),
        forall|j: int| 0 <= j < i ==> !sec_matches(#[trigger] secs[j], target),
    ensures
        select(secs, target) == Some(secs[i]),
    decreases secs.len(),
{
    if i > 0 {
        assert(!sec_matches(secs[0], target));
        assert(secs.drop_first()[i - 1] == secs[i]);
        assert(forall|j: int|
            0 <= j < i - 1 ==> #[trigger] secs.drop_first()[j] == secs[j + 1]);
        lemma_select_first(secs.drop_first(), target, i - 1);
    }
}

/// A registry whose sections none carries the profile prefix lists no names.
pub proof fn lemma_names_empty(secs: Seq<SecModel>)
    requires
        forall|j: int| 0 <= j < secs.len() ==> !is_profile_section(#[trigger] secs[j]),
    ensures
        spec_profile_names(secs) == Seq::<Seq<char>>::empty(),
    decreases secs.len(),
{
    if secs.len() > 0 {
        assert(forall|j: int|
            0 <= j < secs.drop_first().len() ==> #[trigger] secs.drop_first()[j] == secs[j + 1]);
        lemma_names_empty(secs.drop_first());
    }
}

/// A registry file with no section named with the profile prefix: locating
/// fails with the profile-not-found error, whatever the target, and listing
/// yields no names.
pub proof fn lemma_no_profile_sections(
    root: Seq<char>,
    text: Seq<char>,
    target: Option<Seq<char>>,
)
    requires
        forall|j: int|
            0 <= j < spec_registry(text).len() ==> !is_profile_section(
                #[trigger] spec_registry(text)[j],
            ),
    ensures
        spec_locate(root, Some(text), target) == Err::<Seq<char>, ErrModel>(
            ErrModel::ProfileNotFound(target),
        ),
        spec_profile_names(spec_registry(text)) == Seq::<Seq<char>>::empty(),
{
    let secs = spec_registry(text);
    lemma_select_characterized(secs, target);
    lemma_names_empty(secs);
}

/// A registry file holding a default-marked entry: locating with no target
/// resolves that entry's path, the first such entry in file order.
pub proof fn lemma_first_default_selected(root: Seq<char>, text: Seq<char>, i: int)
    requires
        0 <= i < spec_registry(text).len(),
        sec_matches(spec_registry(text)[i], None),
        forall|j: int| 0 <= j < i ==> !sec_matches(#[trigger] spec_registry(text)[j], None),
    ensures
        spec_locate(root, Some(text), None) == Ok::<Seq<char>, ErrModel>(
            resolved_path(root, spec_registry(text)[i]),
        ),
{
    lemma_select_first(spec_registry(text), None, i);
}

/// Locating with a target name resolves only a profile section with a path
/// whose `Name` entry equals the target exactly; its `Default` entry plays
/// no part in the match.
pub proof fn lemma_target_selects_by_name(secs: Seq<SecModel>, t: Seq<char>)
    ensures
        select(secs, Some(t)) matches Some(s) ==> is_profile_section(s) && lookup(
            s.entries,
            "Path"@,
        ) is Some && lookup(s.entries, "Name"@) == Some(t),
        (select(secs, Some(t)) is Some) <==> exists|i: int|
            0 <= i < secs.len() && sec_matches(#[trigger] secs[i], Some(t)),
        forall|s: SecModel| #[trigger]
            sec_matches(s, Some(t)) == (is_profile_section(s) && lookup(s.entries, "Path"@)
                is Some && lookup(s.entries, "Name"@) == Some(t)),
{
    lemma_select_characterized(secs, Some(t));
}

/// How a selected section's path resolves: with `IsRelative` equal to `0` the
/// path is taken verbatim and the fixed database filename appended; with it
/// equal to `1` or absent, the path is joined under the configuration root
/// first.
pub proof fn lemma_resolution_modes(root: Seq<char>, s: SecModel, p: Seq<char>)
    requires
        lookup(s.entries, "Path"@) == Some(p),
    ensures
        lookup(s.entries, "IsRelative"@) == Some("0"@) ==> resolved_path(root, s) == joined(
            p,
            "places.sqlite"@,
        ),
        lookup(s.entries, "IsRelative"@) == Some("1"@) || lookup(s.entries, "IsRelative"@)
            is None ==> resolved_path(root, s) == joined(joined(root, p), "places.sqlite"@),
{
    reveal_strlit("0");
    reveal_strlit("1");
    assert("0"@ != "1"@) by {
        assert("0"@[0] == '0');
        assert("1"@[0] == '1');
        if "0"@ == "1"@ {
            assert("0"@[0] == "1"@[0]);
        }
    }
}

/// A row with no title renders as the fixed placeholder before the tab: the
/// line differs from one rendered with an empty title, and from the bare
/// tab-and-URL line with the title field omitted.
pub proof fn lemma_null_title_placeholder(url: Seq<char>)
    ensures
        spec_render(None, url) == "No Title"@ + "\t"@ + url,
        "No Title"@.len() > 0,
        spec_render(None, url) != spec_render(Some(Seq::<char>::empty()), url),
        spec_render(None, url) != "\t"@ + url,
{
    reveal_strlit("No Title");
    reveal_strlit("\t");
    assert(spec_render(None, url).len() != spec_render(Some(Seq::<char>::empty()), url).len());
    assert(spec_render(None, url).len() != ("\t"@ + url).len());
}

} // verus!
