use foxmarks::bookmarks::{render_bookmark_lines, Bookmark};
use rusqlite::Connection;

const QUERY: &str = "SELECT b.title, p.url \
     FROM moz_bookmarks b \
     JOIN moz_places p ON b.fk = p.id \
     WHERE b.type = 1";

fn source_database() -> Connection {
    let conn = Connection::open_in_memory().unwrap();
    conn.execute_batch(
        "CREATE TABLE moz_places (id INTEGER PRIMARY KEY, url TEXT NOT NULL);
         CREATE TABLE moz_bookmarks (id INTEGER PRIMARY KEY, type INTEGER, fk INTEGER, title TEXT);
         INSERT INTO moz_places (id, url) VALUES (1, 'https://a.example/');
         INSERT INTO moz_places (id, url) VALUES (2, 'https://b.example/');
         INSERT INTO moz_places (id, url) VALUES (3, 'https://c.example/');
         INSERT INTO moz_bookmarks (id, type, fk, title) VALUES (1, 1, 1, 'Alpha');
         INSERT INTO moz_bookmarks (id, type, fk, title) VALUES (2, 2, NULL, 'A folder');
         INSERT INTO moz_bookmarks (id, type, fk, title) VALUES (3, 1, 2, NULL);
         INSERT INTO moz_bookmarks (id, type, fk, title) VALUES (4, 3, NULL, NULL);
         INSERT INTO moz_bookmarks (id, type, fk, title) VALUES (5, 1, 3, 'Gamma');
         INSERT INTO moz_bookmarks (id, type, fk, title) VALUES (6, 2, 1, 'Typed folder');",
    )
    .unwrap();
    conn
}

fn copy_database(src: &Connection) -> Connection {
    let mut dst = Connection::open_in_memory().unwrap();
    {
        let backup = rusqlite::backup::Backup::new(src, &mut dst).unwrap();
        backup
            .run_to_completion(16, std::time::Duration::from_millis(0), None)
            .unwrap();
    }
    dst
}

fn query_rows(conn: &Connection) -> Vec<(Option<String>, String)> {
    let mut stmt = conn.prepare(QUERY).unwrap();
    let rows = stmt
        .query_map([], |row| Ok((row.get(0)?, row.get(1)?)))
        .unwrap();
    let mut out: Vec<(Option<String>, String)> = rows.map(|r| r.unwrap()).collect();
    out.sort_by(|a, b| a.1.cmp(&b.1));
    out
}

#[test]
fn copy_then_query_returns_exactly_the_bookmark_rows() {
    let src = source_database();
    let copy = copy_database(&src);
    let rows = query_rows(&copy);
    assert_eq!(
        rows,
        vec![
            (Some("Alpha".to_string()), "https://a.example/".to_string()),
            (None, "https://b.example/".to_string()),
            (Some("Gamma".to_string()), "https://c.example/".to_string()),
        ]
    );
    // The copy returns the same rows as the source itself.
    assert_eq!(rows, query_rows(&src));
}

#[test]
fn folder_and_separator_rows_are_excluded() {
    let src = source_database();
    let copy = copy_database(&src);
    let rows = query_rows(&copy);
    assert_eq!(rows.len(), 3);
    assert!(rows.iter().all(|(t, _)| t.as_deref() != Some("A folder")));
    assert!(rows.iter().all(|(t, _)| t.as_deref() != Some("Typed folder")));
}

#[test]
fn queried_rows_render_with_placeholder_for_null_title() {
    let src = source_database();
    let copy = copy_database(&src);
    let bookmarks: Vec<Bookmark> = query_rows(&copy)
        .into_iter()
        .map(|(title, url)| Bookmark { title, url })
        .collect();
    let lines = render_bookmark_lines(&bookmarks);
    assert_eq!(
        lines,
        vec![
            "Alpha\thttps://a.example/".to_string(),
            "No Title\thttps://b.example/".to_string(),
            "Gamma\thttps://c.example/".to_string(),
        ]
    );
}
