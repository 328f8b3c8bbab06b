//! The profile registry file: an INI-style sections format.
//!
//! The grammar, over the file's characters: the file is a sequence of lines
//! separated by `\n`. Each line is trimmed of surrounding spaces, tabs and
//! carriage returns. A trimmed line is blank (skipped), a comment starting
//! with `;` or `#` (skipped), a section header `[name]` (opens a new
//! section), or a `key=value` entry added to the most recently opened
//! section (key and value trimmed again). An entry before any section
//! header, a header missing its closing bracket, and a line with no `=`
//! are all ignored.

use vstd::prelude::*;

verus! {

use vstd::string::StrSliceExecFns;

/// One `key=value` entry of a section, as the specification sees it.
#[verifier::ext_equal]
pub struct EntryModel {
    pub key: Seq<char>,
    pub value: Seq<char>,
}

/// One `[name]` section with its entries, as the specification sees it.
#[verifier::ext_equal]
pub struct SecModel {
    pub name: Seq<char>,
    pub entries: Seq<EntryModel>,
}

/// One `key=value` entry of a section.
pub struct Entry {
    pub key: String,
    pub value: String,
}

/// One `[name]` section with its entries, in file order.
pub struct Section {
    pub name: String,
    pub entries: Vec<Entry>,
}

impl View for Entry {
    type V = EntryModel;

    open spec fn view(&self) -> EntryModel {
        EntryModel { key: self.key@, value: self.value@ }
    }
}

impl View for Section {
    type V = SecModel;

    open spec fn view(&self) -> SecModel {
        SecModel { name: self.name@, entries: self.entries@.map_values(|e: Entry| e@) }
    }
}

/// The models of a sequence of parsed sections.
pub open spec fn secs_view(secs: Seq<Section>) -> Seq<SecModel> {
    secs.map_values(|s: Section| s@)
}

/// A character the grammar trims at line and field edges.
pub open spec fn is_space(c: char) -> bool {
    c == ' ' || c == '\t' || c == '\r'
}

/// The least index `i >= from` with `s[i] == c`, or `s.len()` if there is none.
pub open spec fn find_from(s: Seq<char>, c: char, from: int) -> int
    decreases s.len() - from,
{
    if from < 0 || from >= s.len() {
        s.len() as int
    } else if s[from] == c {
        from
    } else {
        find_from(s, c, from + 1)
    }
}

/// `find_from` stays within bounds, lands on `c`, and skips no earlier `c`.
pub proof fn lemma_find_from(s: Seq<char>, c: char, from: int)
    requires
        0 <= from <= s.len(),
    ensures
        from <= find_from(s, c, from) <= s.len(),
        find_from(s, c, from) < s.len() ==> s[find_from(s, c, from)] == c,
        forall|j: int| from <= j < find_from(s, c, from) ==> s[j] != c,
    decreases s.len() - from,
{
    if from < s.len() && s[from] != c {
        lemma_find_from(s, c, from + 1);
    }
}

/// The lines of `s` from position `from` on, split at `\n`.
pub open spec fn spec_lines(s: Seq<char>, from: int) -> Seq<Seq<char>>
    decreases s.len() - from,
    via spec_lines_decreases
{
    if from < 0 || from >= s.len() {
        seq![]
    } else {
        let i = find_from(s, '\n', from);
        if i >= s.len() {
            seq![s.subrange(from, s.len() as int)]
        } else {
            seq![s.subrange(from, i)] + spec_lines(s, i + 1)
        }
    }
}

#[via_fn]
proof fn spec_lines_decreases(s: Seq<char>, from: int) {
    if !(from < 0 || from >= s.len()) {
        lemma_find_from(s, '\n', from);
    }
}

/// The first index at or after `i` holding a non-space, or `s.len()`.
pub open spec fn skip_front(s: Seq<char>, i: int) -> int
    decreases s.len() - i,
{
    if 0 <= i < s.len() && is_space(s[i]) {
        skip_front(s, i + 1)
    } else {
        i
    }
}

/// One past the last index before `i` holding a non-space, or `0`.
pub open spec fn skip_back(s: Seq<char>, i: int) -> int
    decreases i,
{
    if 0 < i <= s.len() && is_space(s[i - 1]) {
        skip_back(s, i - 1)
    } else {
        i
    }
}

/// `s` without leading and trailing spaces, tabs and carriage returns.
pub open spec fn trim(s: Seq<char>) -> Seq<char> {
    let a = skip_front(s, 0);
    let b = skip_back(s, s.len() as int);
    if a <= b {
        s.subrange(a, b)
    } else {
        Seq::empty()
    }
}

/// The sections after reading one raw line into the registry parsed so far.
pub open spec fn apply_line(acc: Seq<SecModel>, raw: Seq<char>) -> Seq<SecModel> {
    let l = trim(raw);
    if l.len() == 0 {
        acc
    } else if l[0] == ';' || l[0] == '#' {
        acc
    } else if l[0] == '[' {
        if l.len() >= 2 && l[l.len() - 1] == ']' {
            acc.push(SecModel { name: l.subrange(1, l.len() - 1), entries: seq![] })
        } else {
            acc
        }
    } else {
        let k = find_from(l, '=', 0);
        if k >= l.len() || acc.len() == 0 {
            acc
        } else {
            let e = EntryModel {
                key: trim(l.subrange(0, k)),
                value: trim(l.subrange(k + 1, l.len() as int)),
            };
            let last = acc.last();
            acc.update(
                acc.len() - 1,
                SecModel { name: last.name, entries: last.entries.push(e) },
            )
        }
    }
}

/// The sections after reading every line of `ls`, front to back.
pub open spec fn fold_lines(acc: Seq<SecModel>, ls: Seq<Seq<char>>) -> Seq<SecModel>
    decreases ls.len(),
{
    if ls.len() == 0 {
        acc
    } else {
        fold_lines(apply_line(acc, ls[0]), ls.drop_first())
    }
}

/// The registry that the file text `s` denotes: its sections in file order.
pub open spec fn spec_registry(s: Seq<char>) -> Seq<SecModel> {
    fold_lines(seq![], spec_lines(s, 0))
}

/// Whether `c` is trimmed at line and field edges.
fn is_space_char(c: char) -> (r: bool)
    ensures
        r == is_space(c),
{
    c == ' ' || c == '\t' || c == '\r'
}

/// The least index `i >= from` with `s@[i] == c`, or the length of `s`.
pub fn find_char(s: &str, c: char, from: usize) -> (i: usize)
    requires
        from <= s@.len(),
    ensures
        i == find_from(s@, c, from as int),
        from <= i <= s@.len(),
{
    let n = s.unicode_len();
    let mut j = from;
    while j < n
        invariant
            from <= j <= n,
            n == s@.len(),
            find_from(s@, c, from as int) == find_from(s@, c, j as int),
        decreases n - j,
    {
        if s.get_char(j) == c {
            return j;
        }
        j += 1;
    }
    n
}

/// `s` without leading and trailing spaces, tabs and carriage returns.
pub fn trim_str<'a>(s: &'a str) -> (r: &'a str)
    ensures
        r@ == trim(s@),
{
    let n = s.unicode_len();
    let mut a: usize = 0;
    while a < n && is_space_char(s.get_char(a))
        invariant
            0 <= a <= n,
            n == s@.len(),
            skip_front(s@, 0) == skip_front(s@, a as int),
        decreases n - a,
    {
        a += 1;
    }
    let mut b: usize = n;
    while b > 0 && is_space_char(s.get_char(b - 1))
        invariant
            0 <= b <= n,
            n == s@.len(),
            skip_back(s@, n as int) == skip_back(s@, b as int),
        decreases b,
    {
        b -= 1;
    }
    if a <= b {
        s.substring_char(a, b)
    } else {
        proof {
            reveal_strlit("");
            assert(""@ =~= trim(s@));
        }
        ""
    }
}

/// Reads one raw line into the sections parsed so far.
fn apply_line_exec(secs: &mut Vec<Section>, raw: &str)
    ensures
        secs_view(final(secs)@) == apply_line(secs_view(old(secs)@), raw@),
{
    let l = trim_str(raw);
    let n = l.unicode_len();
    if n == 0 {
        return ;
    }
    let c0 = l.get_char(0);
    if c0 == ';' || c0 == '#' {
        return ;
    }
    if c0 == '[' {
        if n >= 2 && l.get_char(n - 1) == ']' {
            let name = l.substring_char(1, n - 1).to_owned();
            let sec = Section { name, entries: Vec::new() };
            let ghost old_view = secs_view(secs@);
            let ghost secv = sec@;
            secs.push(sec);
            proof {
                assert(secv.entries =~= Seq::<EntryModel>::empty());
                assert(secs_view(secs@) =~~= apply_line(old_view, raw@));
            }
        }
        return ;
    }
    let k = find_char(l, '=', 0);
    if k == n {
        return ;
    }
    if secs.len() == 0 {
        return ;
    }
    let key = trim_str(l.substring_char(0, k)).to_owned();
    let value = trim_str(l.substring_char(k + 1, n)).to_owned();
    let entry = Entry { key, value };
    let ghost old_view = secs_view(secs@);
    let ghost old_secs = secs@;
    let ghost ev = entry@;
    let mut last = secs.pop().unwrap();
    let ghost old_last = last@;
    last.entries.push(entry);
    secs.push(last);
    proof {
        assert(secs@ =~= old_secs.update(old_secs.len() - 1, secs@.last()));
        assert(secs@.last()@.entries =~~= old_last.entries.push(ev));
        assert(old_last =~~= old_view.last());
        assert(secs_view(secs@) =~~= apply_line(old_view, raw@));
    }
}

/// Reading the lines `seq![l] + rest` is reading `l`, then `rest`.
proof fn lemma_fold_step(acc: Seq<SecModel>, l: Seq<char>, rest: Seq<Seq<char>>)
    ensures
        fold_lines(acc, seq![l] + rest) == fold_lines(apply_line(acc, l), rest),
{
    let ls = seq![l] + rest;
    assert(ls[0] == l);
    assert(ls.drop_first() =~= rest);
}

/// Parses the registry file text into its sections, in file order.
pub fn parse_registry(text: &str) -> (r: Vec<Section>)
    ensures
        secs_view(r@) == spec_registry(text@),
{
    let ghost s = text@;
    let n = text.unicode_len();
    let mut pos: usize = 0;
    let mut secs: Vec<Section> = Vec::new();
    proof {
        assert(secs_view(secs@) =~= Seq::<SecModel>::empty());
    }
    while pos < n
        invariant
            pos <= n,
            n == s.len(),
            s == text@,
            spec_registry(s) == fold_lines(secs_view(secs@), spec_lines(s, pos as int)),
        decreases n - pos,
    {
        let i = find_char(text, '\n', pos);
        let line = text.substring_char(pos, i);
        let ghost before = secs_view(secs@);
        apply_line_exec(&mut secs, line);
        proof {
            if i < n {
                assert(spec_lines(s, pos as int) == seq![line@] + spec_lines(s, i + 1));
                lemma_fold_step(before, line@, spec_lines(s, i + 1));
            } else {
                assert(spec_lines(s, pos as int) == seq![line@]);
                assert(seq![line@] =~= seq![line@] + Seq::<Seq<char>>::empty());
                lemma_fold_step(before, line@, Seq::empty());
            }
        }
        pos = if i < n {
            i + 1
        } else {
            n
        };
    }
    proof {
        assert(spec_lines(s, n as int) =~= Seq::<Seq<char>>::empty());
    }
    secs
}

} // verus!
