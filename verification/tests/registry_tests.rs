use foxmarks::profiles::lookup_value;
use foxmarks::registry::parse_registry;

#[test]
fn parses_sections_and_entries() {
    let secs = parse_registry("[General]\nVersion=2\n[Profile0]\nName=default\nPath=abc\n");
    assert_eq!(secs.len(), 2);
    assert_eq!(secs[0].name, "General");
    assert_eq!(secs[0].entries.len(), 1);
    assert_eq!(secs[0].entries[0].key, "Version");
    assert_eq!(secs[0].entries[0].value, "2");
    assert_eq!(secs[1].name, "Profile0");
    assert_eq!(secs[1].entries[0].key, "Name");
    assert_eq!(secs[1].entries[0].value, "default");
    assert_eq!(secs[1].entries[1].key, "Path");
    assert_eq!(secs[1].entries[1].value, "abc");
}

#[test]
fn empty_text_has_no_sections() {
    assert_eq!(parse_registry("").len(), 0);
}

#[test]
fn skips_blank_and_comment_lines() {
    let secs = parse_registry("\n; comment\n# other\n[A]\n\n; more\nk=v\n");
    assert_eq!(secs.len(), 1);
    assert_eq!(secs[0].entries.len(), 1);
    assert_eq!(secs[0].entries[0].key, "k");
    assert_eq!(secs[0].entries[0].value, "v");
}

#[test]
fn trims_lines_keys_and_values() {
    let secs = parse_registry("  [A]  \r\n  Name  =  spaced out  \r\n");
    assert_eq!(secs.len(), 1);
    assert_eq!(secs[0].name, "A");
    assert_eq!(secs[0].entries[0].key, "Name");
    assert_eq!(secs[0].entries[0].value, "spaced out");
}

#[test]
fn ignores_entries_before_any_section() {
    let secs = parse_registry("stray=1\n[A]\nk=v\n");
    assert_eq!(secs.len(), 1);
    assert_eq!(secs[0].entries.len(), 1);
    assert_eq!(secs[0].entries[0].key, "k");
}

#[test]
fn ignores_unclosed_header_and_lines_without_equals() {
    let secs = parse_registry("[A]\n[broken\njust words\nk=v\n");
    assert_eq!(secs.len(), 1);
    assert_eq!(secs[0].name, "A");
    assert_eq!(secs[0].entries.len(), 1);
}

#[test]
fn value_keeps_later_equals_signs() {
    let secs = parse_registry("[A]\nk=a=b\n");
    assert_eq!(secs[0].entries[0].key, "k");
    assert_eq!(secs[0].entries[0].value, "a=b");
}

#[test]
fn last_line_without_newline_is_read() {
    let secs = parse_registry("[A]\nk=v");
    assert_eq!(secs.len(), 1);
    assert_eq!(secs[0].entries[0].value, "v");
}

#[test]
fn lookup_returns_first_duplicate() {
    let secs = parse_registry("[A]\nk=first\nk=second\n");
    let v = lookup_value(&secs[0].entries, "k").unwrap();
    assert_eq!(v, "first");
}

#[test]
fn lookup_missing_key_is_none() {
    let secs = parse_registry("[A]\nk=v\n");
    assert!(lookup_value(&secs[0].entries, "absent").is_none());
}
