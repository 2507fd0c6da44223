use credstore::store::{delete_matching, delete_matching_rows, read_all, records_from_rows,
    LoginRow};

fn row(url: &str, user: &str, t: i64) -> LoginRow {
    LoginRow {
        url: url.to_string(),
        username: user.to_string(),
        date_created: t,
        date_password_modified: t,
    }
}

fn scenario_store() -> (tempfile::TempDir, String) {
    let dir = tempfile::tempdir().unwrap();
    let path = dir.path().join("Login Data").to_str().unwrap().to_string();
    let conn = rusqlite::Connection::open(&path).unwrap();
    conn.execute_batch(
        "CREATE TABLE logins (signon_realm TEXT, username_value TEXT, \
         date_created INTEGER, date_password_modified INTEGER); \
         INSERT INTO logins VALUES ('https://example.com', 'alice', \
         13281837285000000, 13281837285000000);",
    )
    .unwrap();
    (dir, path)
}

#[test]
fn scenario_read_converts_the_stored_timestamps() {
    let (_dir, path) = scenario_store();
    let records = read_all(&path).unwrap();
    assert_eq!(records.len(), 1);
    assert_eq!(records[0].url, "https://example.com");
    assert_eq!(records[0].username, "alice");
    assert_eq!(records[0].date_created, 13281837285000000 / 1_000_000 - 11_644_473_600);
    assert_eq!(records[0].date_created, records[0].date_modified);
    assert_eq!(records[0].date_created, 1637363685);
}

#[test]
fn scenario_delete_removes_the_matching_row() {
    let (_dir, path) = scenario_store();
    let deleted = delete_matching(&path, "https://example.com", "alice").unwrap();
    assert_eq!(deleted, 1);
    let records = read_all(&path).unwrap();
    assert_eq!(records.len(), 0);
}

#[test]
fn second_delete_with_the_same_target_removes_nothing() {
    let (_dir, path) = scenario_store();
    let first = delete_matching(&path, "https://example.com", "alice").unwrap();
    assert_eq!(first, 1);
    let second = delete_matching(&path, "https://example.com", "alice").unwrap();
    assert_eq!(second, 0);
}

#[test]
fn delete_targets_the_exact_pair_only() {
    let (_dir, path) = scenario_store();
    assert_eq!(delete_matching(&path, "https://example.com", "bob").unwrap(), 0);
    assert_eq!(delete_matching(&path, "https://other.com", "alice").unwrap(), 0);
    assert_eq!(read_all(&path).unwrap().len(), 1);
}

#[test]
fn delete_removes_every_duplicate_of_the_pair() {
    let (_dir, path) = scenario_store();
    let conn = rusqlite::Connection::open(&path).unwrap();
    conn.execute_batch(
        "INSERT INTO logins VALUES ('https://example.com', 'alice', 1000000, 2000000);",
    )
    .unwrap();
    drop(conn);
    let deleted = delete_matching(&path, "https://example.com", "alice").unwrap();
    assert_eq!(deleted, 2);
}

#[test]
fn reading_a_file_that_is_no_store_is_query_failed() {
    let dir = tempfile::tempdir().unwrap();
    let path = dir.path().join("Login Data").to_str().unwrap().to_string();
    let conn = rusqlite::Connection::open(&path).unwrap();
    conn.execute_batch("CREATE TABLE other (x INTEGER);").unwrap();
    drop(conn);
    let e = read_all(&path).unwrap_err();
    assert_eq!(e.is_expected_absence(), false);
    assert!(e.message().starts_with("query failed: "));
    let e = delete_matching(&path, "a", "b").unwrap_err();
    assert!(e.message().starts_with("query failed: "));
}

#[test]
fn model_delete_keeps_order_and_counts_matches() {
    let rows = vec![
        row("https://example.com", "alice", 1_000_000),
        row("https://other.com", "bob", 2_000_000),
        row("https://example.com", "alice", 3_000_000),
    ];
    let (kept, deleted) = delete_matching_rows(&rows, "https://example.com", "alice");
    assert_eq!(deleted, 2);
    assert_eq!(kept.len(), 1);
    assert_eq!(kept[0].url, "https://other.com");
    assert_eq!(kept[0].username, "bob");
}

#[test]
fn model_delete_is_idempotent_in_effect() {
    let rows = vec![
        row("https://example.com", "alice", 1_000_000),
        row("https://example.com", "alice", 2_000_000),
    ];
    let (kept, deleted) = delete_matching_rows(&rows, "https://example.com", "alice");
    assert_eq!(deleted, 2);
    let (kept2, deleted2) = delete_matching_rows(&kept, "https://example.com", "alice");
    assert_eq!(deleted2, 0);
    assert_eq!(kept2.len(), kept.len());
}

#[test]
fn model_delete_of_an_absent_pair_is_a_no_op() {
    let rows = vec![row("https://example.com", "alice", 1_000_000)];
    let (kept, deleted) = delete_matching_rows(&rows, "https://example.com", "carol");
    assert_eq!(deleted, 0);
    assert_eq!(kept.len(), 1);
}

#[test]
fn conversion_maps_rows_field_for_field() {
    let rows = vec![row("https://a", "u", 13281837285000000), row("https://b", "v", 0)];
    let records = records_from_rows(&rows);
    assert_eq!(records.len(), 2);
    assert_eq!(records[0].url, "https://a");
    assert_eq!(records[0].username, "u");
    assert_eq!(records[0].date_created, 1637363685);
    assert_eq!(records[1].date_created, -11644473600);
}
