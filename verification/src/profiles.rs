//! Profile selection and database-path resolution.
//!
//! Only sections whose name starts with the fixed prefix `Profile` describe
//! profiles. A section with no `Path` entry is skipped. With a target name,
//! the first such section whose `Name` entry equals it exactly is selected;
//! with none, the first whose `Default` entry equals `1`. A missing
//! `Default` counts as `0`, a missing `IsRelative` as `1`. The selected
//! path is joined under the configuration root when relative, taken
//! verbatim when absolute, and the fixed database filename is appended.

use vstd::prelude::*;

verus! {

use vstd::string::StrSliceExecFns;
use crate::registry::EntryModel;
use crate::registry::SecModel;
use crate::registry::Entry;
use crate::registry::Section;
use crate::registry::secs_view;
use crate::registry::spec_registry;
use crate::registry::parse_registry;
use crate::joined;
use crate::join_path;
use crate::str_eq;
use crate::errors::RunError;
use crate::errors::ErrModel;

/// The value of the first entry whose key is `key`, if any.
pub open spec fn lookup(entries: Seq<EntryModel>, key: Seq<char>) -> Option<Seq<char>>
    decreases entries.len(),
{
    if entries.len() == 0 {
        None
    } else if entries[0].key == key {
        Some(entries[0].value)
    } else {
        lookup(entries.drop_first(), key)
    }
}

/// Whether the section's name starts with the profile prefix.
pub open spec fn is_profile_section(s: SecModel) -> bool {
    s.name.len() >= 7 && s.name.subrange(0, 7) == "Profile"@
}

/// Whether the section is selected: a profile section with a path whose
/// `Name` equals the target, or, with no target, whose `Default` is `1`.
pub open spec fn sec_matches(s: SecModel, target: Option<Seq<char>>) -> bool {
    is_profile_section(s) && lookup(s.entries, "Path"@) is Some && (match target {
        Some(t) => lookup(s.entries, "Name"@) == Some(t),
        None => lookup(s.entries, "Default"@) == Some("1"@),
    })
}

/// The first section that `sec_matches` the target, in file order.
pub open spec fn select(secs: Seq<SecModel>, target: Option<Seq<char>>) -> Option<SecModel>
    decreases secs.len(),
{
    if secs.len() == 0 {
        None
    } else if sec_matches(secs[0], target) {
        Some(secs[0])
    } else {
        select(secs.drop_first(), target)
    }
}

/// Whether the section's path is relative to the configuration root:
/// true when `IsRelative` is absent or equals `1`.
pub open spec fn entry_is_relative(s: SecModel) -> bool {
    match lookup(s.entries, "IsRelative"@) {
        Some(v) => v == "1"@,
        None => true,
    }
}

/// The database path that the selected section resolves to.
pub open spec fn resolved_path(root: Seq<char>, s: SecModel) -> Seq<char> {
    let p = lookup(s.entries, "Path"@)->Some_0;
    joined(if entry_is_relative(s) { joined(root, p) } else { p }, "places.sqlite"@)
}

/// The view of an optional string.
pub open spec fn opt_view(o: Option<&str>) -> Option<Seq<char>> {
    match o {
        Some(s) => Some(s@),
        None => None,
    }
}

/// What locating the database returns: the resolved path, or the error
/// owed to a missing registry file or an unmatched selection.
pub open spec fn spec_locate(
    root: Seq<char>,
    registry: Option<Seq<char>>,
    target: Option<Seq<char>>,
) -> Result<Seq<char>, ErrModel> {
    match registry {
        None => Err(ErrModel::ConfigNotFound(joined(root, "profiles.ini"@))),
        Some(text) => match select(spec_registry(text), target) {
            None => Err(ErrModel::ProfileNotFound(target)),
            Some(s) => Ok(resolved_path(root, s)),
        },
    }
}

/// The names of the profile sections that carry a `Name` entry, in file order.
pub open spec fn spec_profile_names(secs: Seq<SecModel>) -> Seq<Seq<char>>
    decreases secs.len(),
{
    if secs.len() == 0 {
        seq![]
    } else {
        let rest = spec_profile_names(secs.drop_first());
        if is_profile_section(secs[0]) && lookup(secs[0].entries, "Name"@) is Some {
            seq![lookup(secs[0].entries, "Name"@)->Some_0] + rest
        } else {
            rest
        }
    }
}

/// The models of a sequence of name strings.
pub open spec fn names_view(names: Seq<String>) -> Seq<Seq<char>> {
    names.map_values(|s: String| s@)
}

/// The value of the first entry keyed `key`, as the section stores it.
pub fn lookup_value<'a>(entries: &'a Vec<Entry>, key: &str) -> (r: Option<&'a String>)
    ensures
        match r {
            Some(v) => lookup(entries@.map_values(|e: Entry| e@), key@) == Some(v@),
            None => lookup(entries@.map_values(|e: Entry| e@), key@) is None,
        },
{
    let ghost ev = entries@.map_values(|e: Entry| e@);
    let n = entries.len();
    let mut i: usize = 0;
    proof {
        assert(ev.skip(0) =~= ev);
    }
    while i < n
        invariant
            0 <= i <= n,
            n == entries.len(),
            ev == entries@.map_values(|e: Entry| e@),
            lookup(ev, key@) == lookup(ev.skip(i as int), key@),
        decreases n - i,
    {
        proof {
            assert(ev.skip(i as int)[0] == ev[i as int]);
            assert(ev.skip(i as int).drop_first() =~= ev.skip(i as int + 1));
        }
        if str_eq(entries[i].key.as_str(), key) {
            return Some(&entries[i].value);
        }
        i += 1;
    }
    proof {
        assert(ev.skip(n as int) =~= Seq::<EntryModel>::empty());
    }
    None
}

/// Whether the section's name starts with the profile prefix.
pub fn is_profile_section_exec(sec: &Section) -> (r: bool)
    ensures
        r == is_profile_section(sec@),
{
    let n = sec.name.as_str().unicode_len();
    if n < 7 {
        return false;
    }
    str_eq(sec.name.as_str().substring_char(0, 7), "Profile")
}

/// Whether the section is selected for the target.
fn section_matches(sec: &Section, target: Option<&str>) -> (r: bool)
    ensures
        r == sec_matches(sec@, opt_view(target)),
{
    if !is_profile_section_exec(sec) {
        return false;
    }
    if lookup_value(&sec.entries, "Path").is_none() {
        return false;
    }
    match target {
        Some(t) => match lookup_value(&sec.entries, "Name") {
            Some(n) => str_eq(n.as_str(), t),
            None => false,
        },
        None => match lookup_value(&sec.entries, "Default") {
            Some(v) => str_eq(v.as_str(), "1"),
            None => false,
        },
    }
}

/// The index of the first section selected for the target, if any.
pub fn select_index(secs: &Vec<Section>, target: Option<&str>) -> (r: Option<usize>)
    ensures
        match r {
            Some(i) => i < secs@.len() && select(secs_view(secs@), opt_view(target)) == Some(
                secs@[i as int]@,
            ) && sec_matches(secs@[i as int]@, opt_view(target)),
            None => select(secs_view(secs@), opt_view(target)) is None,
        },
{
    let ghost sv = secs_view(secs@);
    let n = secs.len();
    let mut i: usize = 0;
    proof {
        assert(sv.skip(0) =~= sv);
    }
    while i < n
        invariant
            0 <= i <= n,
            n == secs.len(),
            sv == secs_view(secs@),
            select(sv, opt_view(target)) == select(sv.skip(i as int), opt_view(target)),
        decreases n - i,
    {
        proof {
            assert(sv.skip(i as int)[0] == sv[i as int]);
            assert(sv.skip(i as int).drop_first() =~= sv.skip(i as int + 1));
        }
        if section_matches(&secs[i], target) {
            return Some(i);
        }
        i += 1;
    }
    proof {
        assert(sv.skip(n as int) =~= Seq::<SecModel>::empty());
    }
    None
}

/// Resolves the database path of a selected section.
pub fn resolve_section(root: &str, sec: &Section) -> (r: String)
    requires
        lookup(sec@.entries, "Path"@) is Some,
    ensures
        r@ == resolved_path(root@, sec@),
{
    let p = lookup_value(&sec.entries, "Path").unwrap();
    let is_rel = match lookup_value(&sec.entries, "IsRelative") {
        Some(v) => str_eq(v.as_str(), "1"),
        None => true,
    };
    let dir = if is_rel {
        join_path(root, p.as_str())
    } else {
        p.clone()
    };
    join_path(dir.as_str(), "places.sqlite")
}

/// The path the registry file is expected at, under the configuration root.
pub fn registry_path(root: &str) -> (r: String)
    ensures
        r@ == joined(root@, "profiles.ini"@),
{
    join_path(root, "profiles.ini")
}

/// Locates the bookmark database: `root` is the configuration root,
/// `registry` the text of the registry file (`None` when the file is
/// absent), `target` the requested profile name, if any.
pub fn locate_database(root: &str, registry: Option<&str>, target: Option<&str>) -> (r: Result<
    String,
    RunError,
>)
    ensures
        (match r {
            Ok(p) => Ok::<Seq<char>, ErrModel>(p@),
            Err(e) => Err(e@),
        }) == spec_locate(root@, opt_view(registry), opt_view(target)),
{
    let text = match registry {
        None => {
            return Err(RunError::ConfigNotFound(registry_path(root)));
        },
        Some(t) => t,
    };
    let secs = parse_registry(text);
    match select_index(&secs, target) {
        None => Err(
            RunError::ProfileNotFound(
                match target {
                    Some(t) => Some(t.to_owned()),
                    None => None,
                },
            ),
        ),
        Some(i) => Ok(resolve_section(root, &secs[i])),
    }
}

/// The display names of the profiles in the registry, in file order;
/// an absent registry file lists nothing.
pub fn profile_names(registry: Option<&str>) -> (r: Vec<String>)
    ensures
        names_view(r@) == match opt_view(registry) {
            None => Seq::<Seq<char>>::empty(),
            Some(text) => spec_profile_names(spec_registry(text)),
        },
{
    let mut names: Vec<String> = Vec::new();
    let text = match registry {
        None => {
            proof {
                assert(names_view(names@) =~= Seq::<Seq<char>>::empty());
            }
            return names;
        },
        Some(t) => t,
    };
    let secs = parse_registry(text);
    let ghost sv = secs_view(secs@);
    let n = secs.len();
    let mut i: usize = 0;
    proof {
        assert(names_view(names@) =~= Seq::<Seq<char>>::empty());
        assert(sv.skip(0) =~= sv);
        assert(Seq::<Seq<char>>::empty() + spec_profile_names(sv) =~= spec_profile_names(sv));
    }
    while i < n
        invariant
            0 <= i <= n,
            n == secs.len(),
            sv == secs_view(secs@),
            spec_profile_names(sv) == names_view(names@) + spec_profile_names(
                sv.skip(i as int),
            ),
        decreases n - i,
    {
        proof {
            assert(sv.skip(i as int)[0] == sv[i as int]);
            assert(sv.skip(i as int).drop_first() =~= sv.skip(i as int + 1));
        }
        let ghost before = names_view(names@);
        if is_profile_section_exec(&secs[i]) {
            match lookup_value(&secs[i].entries, "Name") {
                Some(name) => {
                    names.push(name.clone());
                    proof {
                        assert(names_view(names@) =~= before.push(name@));
                        assert(before.push(name@) + spec_profile_names(sv.skip(i as int + 1))
                            =~= before + (seq![name@] + spec_profile_names(
                            sv.skip(i as int + 1),
                        )));
                    }
                },
                None => {},
            }
        }
        i += 1;
    }
    proof {
        assert(sv.skip(n as int) =~= Seq::<SecModel>::empty());
        assert(names_view(names@) + Seq::<Seq<char>>::empty() =~= names_view(names@));
    }
    names
}

} // verus!
