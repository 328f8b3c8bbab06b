use foxmarks::bookmarks::{render_bookmark_line, render_bookmark_lines, snapshot_path, Bookmark};
use foxmarks::join_path;
use foxmarks::platform::{firefox_root, Platform};

#[test]
fn titled_bookmark_renders_title_tab_url() {
    let b = Bookmark { title: Some("Rust".to_string()), url: "https://rust-lang.org/".to_string() };
    assert_eq!(render_bookmark_line(&b), "Rust\thttps://rust-lang.org/");
}

#[test]
fn null_title_renders_placeholder_not_empty() {
    let b = Bookmark { title: None, url: "https://example.com/".to_string() };
    let line = render_bookmark_line(&b);
    assert_eq!(line, "No Title\thttps://example.com/");
    assert_ne!(line, "\thttps://example.com/");
}

#[test]
fn empty_title_is_kept_empty_not_replaced() {
    let b = Bookmark { title: Some(String::new()), url: "u".to_string() };
    assert_eq!(render_bookmark_line(&b), "\tu");
}

#[test]
fn lines_render_in_row_order() {
    let rows = vec![
        Bookmark { title: Some("A".to_string()), url: "ua".to_string() },
        Bookmark { title: None, url: "ub".to_string() },
    ];
    assert_eq!(render_bookmark_lines(&rows), vec!["A\tua".to_string(), "No Title\tub".to_string()]);
}

#[test]
fn snapshot_path_is_fixed_name_under_temp_dir() {
    assert_eq!(snapshot_path("/tmp"), "/tmp/firefox_places_copy.sqlite");
}

#[test]
fn join_path_inserts_one_separator() {
    assert_eq!(join_path("/a/b", "c"), "/a/b/c");
}

#[test]
fn firefox_root_per_platform() {
    assert_eq!(
        firefox_root(Platform::Windows, "C:/Users/u", "C:/Users/u/AppData/Roaming"),
        "C:/Users/u/AppData/Roaming/Mozilla/Firefox"
    );
    assert_eq!(
        firefox_root(Platform::MacOs, "/Users/u", "/Users/u/Library/Application Support"),
        "/Users/u/Library/Application Support/Firefox"
    );
    assert_eq!(firefox_root(Platform::Other, "/home/u", "/home/u/.local/share"), "/home/u/.mozilla/firefox");
}
