//! The credential store reader/mutator: opens a snapshot file as a
//! relational database, runs the one fixed select or the one fixed delete
//! statement against the `logins` table, and converts the store's native
//! timestamps to standard time.
//!
//! What the database calls return depends on what is on disk, so their
//! contracts only split the outcomes; the row-to-record conversion and the
//! deletion model are verified for every value the calls could hand back.

use vstd::prelude::*;
use crate::errors::AccessError;
use crate::timeconv::{webkit_to_unix_time, webkit_to_unix_spec};

verus! {

/// One row of the `logins` table, as stored: the site's signon realm, the
/// username, and the two native 1601-epoch microsecond timestamps.
#[derive(Debug)]
pub struct LoginRow {
    pub url: String,
    pub username: String,
    pub date_created: i64,
    pub date_password_modified: i64,
}

/// One credential record as callers see it: timestamps converted to
/// 1970-epoch seconds. Produced only by reading; never constructed
/// synthetically.
#[derive(Debug)]
pub struct Passwords {
    pub url: String,
    pub username: String,
    pub date_created: i64,
    pub date_modified: i64,
}

/// A row reduced to plain values: realm, username, and the two native
/// timestamps.
pub type RowValues = (Seq<char>, Seq<char>, int, int);

pub open spec fn row_view(r: LoginRow) -> RowValues {
    (r.url@, r.username@, r.date_created as int, r.date_password_modified as int)
}

pub open spec fn row_views(rows: Seq<LoginRow>) -> Seq<RowValues>
    decreases rows.len(),
{
    if rows.len() == 0 {
        Seq::empty()
    } else {
        row_views(rows.drop_last()).push(row_view(rows.last()))
    }
}

/// Whether a row's (realm, username) pair equals the deletion target.
pub open spec fn view_matches(v: RowValues, url: Seq<char>, username: Seq<char>) -> bool {
    v.0 == url && v.1 == username
}

/// The rows left after deleting every row whose (realm, username) pair
/// equals the target, order kept.
pub open spec fn remaining_views(rows: Seq<RowValues>, url: Seq<char>, username: Seq<char>) -> Seq<
    RowValues,
>
    decreases rows.len(),
{
    if rows.len() == 0 {
        rows
    } else {
        let front = remaining_views(rows.drop_last(), url, username);
        if view_matches(rows.last(), url, username) {
            front
        } else {
            front.push(rows.last())
        }
    }
}

/// How many rows the deletion target matches.
pub open spec fn matched_count(rows: Seq<RowValues>, url: Seq<char>, username: Seq<char>) -> nat
    decreases rows.len(),
{
    if rows.len() == 0 {
        0
    } else {
        matched_count(rows.drop_last(), url, username) + if view_matches(
            rows.last(),
            url,
            username,
        ) {
            1nat
        } else {
            0nat
        }
    }
}

/// Nothing matching the target survives the deletion.
pub proof fn lemma_remaining_views_unmatched(
    rows: Seq<RowValues>,
    url: Seq<char>,
    username: Seq<char>,
)
    ensures
        forall|i: int|
            0 <= i < remaining_views(rows, url, username).len() ==> !view_matches(
                remaining_views(rows, url, username)[i],
                url,
                username,
            ),
    decreases rows.len(),
{
    if rows.len() > 0 {
        let front = remaining_views(rows.drop_last(), url, username);
        lemma_remaining_views_unmatched(rows.drop_last(), url, username);
        if !view_matches(rows.last(), url, username) {
            let rem = remaining_views(rows, url, username);
            assert(rem == front.push(rows.last()));
            assert forall|i: int| 0 <= i < rem.len() implies !view_matches(rem[i], url, username) by {
                if i < rem.len() - 1 {
                    assert(rem[i] == front[i]);
                } else {
                    assert(rem[i] == rows.last());
                }
            }
        }
    }
}

/// Deleting from rows none of which match changes nothing and counts
/// nothing.
pub proof fn lemma_delete_unmatched_noop(rows: Seq<RowValues>, url: Seq<char>, username: Seq<char>)
    requires
        forall|i: int| 0 <= i < rows.len() ==> !view_matches(rows[i], url, username),
    ensures
        remaining_views(rows, url, username) == rows,
        matched_count(rows, url, username) == 0,
    decreases rows.len(),
{
    if rows.len() > 0 {
        assert(!view_matches(rows.last(), url, username));
        lemma_delete_unmatched_noop(rows.drop_last(), url, username);
        assert(rows.drop_last().push(rows.last()) =~= rows);
    }
}

/// Deletion is idempotent in effect: a second deletion with the same
/// (realm, username) target finds nothing left to match, so it removes
/// zero rows and leaves the store as the first deletion left it.
pub proof fn lemma_delete_matching_idempotent(
    rows: Seq<RowValues>,
    url: Seq<char>,
    username: Seq<char>,
)
    ensures
        matched_count(remaining_views(rows, url, username), url, username) == 0,
        remaining_views(remaining_views(rows, url, username), url, username) == remaining_views(
            rows,
            url,
            username,
        ),
{
    lemma_remaining_views_unmatched(rows, url, username);
    lemma_delete_unmatched_noop(remaining_views(rows, url, username), url, username);
}

/// Delete, in the materialized row model, every row whose (realm,
/// username) pair equals the target: the kept rows in their original
/// order, and the count of removed rows. This is the verified model of
/// what the fixed delete statement does to the table.
pub fn delete_matching_rows(rows: &Vec<LoginRow>, url: &str, username: &str) -> (r: (
    Vec<LoginRow>,
    usize,
))
    ensures
        row_views(r.0@) == remaining_views(row_views(rows@), url@, username@),
        r.1 == matched_count(row_views(rows@), url@, username@),
{
    let target_url: String = url.to_owned();
    let target_user: String = username.to_owned();
    let mut kept: Vec<LoginRow> = Vec::new();
    let mut count: usize = 0;
    let mut k: usize = 0;
    while k < rows.len()
        invariant
            0 <= k <= rows@.len(),
            count <= k,
            target_url@ == url@,
            target_user@ == username@,
            row_views(kept@) == remaining_views(row_views(rows@.subrange(0, k as int)), url@, username@),
            count == matched_count(row_views(rows@.subrange(0, k as int)), url@, username@),
        decreases rows@.len() - k,
    {
        proof {
            let prefix0 = rows@.subrange(0, k as int);
            let prefix1 = rows@.subrange(0, k + 1);
            assert(prefix1.drop_last() =~= prefix0);
            assert(prefix1.last() == rows@[k as int]);
            assert(row_views(prefix1) == row_views(prefix0).push(row_view(rows@[k as int])));
            assert(row_views(prefix1).drop_last() =~= row_views(prefix0));
            assert(row_views(prefix1).last() == row_view(rows@[k as int]));
        }
        if rows[k].url == target_url && rows[k].username == target_user {
            count = count + 1;
        } else {
            let row = LoginRow {
                url: rows[k].url.clone(),
                username: rows[k].username.clone(),
                date_created: rows[k].date_created,
                date_password_modified: rows[k].date_password_modified,
            };
            proof {
                assert(row_view(row) == row_view(rows@[k as int]));
            }
            let ghost prev_kept = kept@;
            kept.push(row);
            proof {
                assert(kept@.drop_last() =~= prev_kept);
            }
        }
        k = k + 1;
    }
    proof {
        assert(rows@.subrange(0, rows@.len() as int) =~= rows@);
    }
    (kept, count)
}

/// A record reduced to plain values: realm, username, and the two
/// converted 1970-epoch second counts.
pub open spec fn record_view(p: Passwords) -> (Seq<char>, Seq<char>, int, int) {
    (p.url@, p.username@, p.date_created as int, p.date_modified as int)
}

/// What conversion makes of one stored row.
pub open spec fn converted_view(v: RowValues) -> (Seq<char>, Seq<char>, int, int) {
    (v.0, v.1, webkit_to_unix_spec(v.2), webkit_to_unix_spec(v.3))
}

/// Convert materialized rows into credential records: the realm and
/// username carry over, and each native timestamp becomes a standard
/// 1970-epoch second count.
pub fn records_from_rows(rows: &Vec<LoginRow>) -> (r: Vec<Passwords>)
    ensures
        r@.len() == rows@.len(),
        forall|i: int|
            0 <= i < rows@.len() ==> record_view(r@[i]) == converted_view(row_view(rows@[i])),
{
    let mut out: Vec<Passwords> = Vec::new();
    let mut k: usize = 0;
    while k < rows.len()
        invariant
            0 <= k <= rows@.len(),
            out@.len() == k,
            forall|i: int|
                0 <= i < k ==> record_view(out@[i]) == converted_view(row_view(rows@[i])),
        decreases rows@.len() - k,
    {
        let created = webkit_to_unix_time(rows[k].date_created);
        let modified = webkit_to_unix_time(rows[k].date_password_modified);
        out.push(
            Passwords {
                url: rows[k].url.clone(),
                username: rows[k].username.clone(),
                date_created: created,
                date_modified: modified,
            },
        );
        k = k + 1;
    }
    out
}

#[verifier::external_type_specification]
#[verifier::external_body]
pub struct ExConnection(rusqlite::Connection);

/// Relies on `rusqlite::Connection::open`: opens the file at the given
/// path as a relational database. Whether it succeeds depends on what is
/// on disk, so only the outcome split is stated.
#[verifier::external_body]
fn open_login_database(path: &str) -> (r: Result<rusqlite::Connection, String>) {
    rusqlite::Connection::open(path).map_err(|e| e.to_string())
}

/// Relies on `rusqlite::Connection::prepare` and `Statement::query_map`:
/// runs the fixed projection over the `logins` table and materializes
/// every row before returning. What comes back depends on the file's
/// contents, so nothing is promised of the rows.
#[verifier::external_body]
fn select_login_rows(conn: &rusqlite::Connection) -> (r: Result<Vec<LoginRow>, String>) {
    conn.prepare(
        "SELECT signon_realm, username_value, date_created, date_password_modified FROM logins",
    ).and_then(|mut stmt| {
        let mapped = stmt.query_map([], |row| {
            Ok(LoginRow {
                url: row.get(0)?,
                username: row.get(1)?,
                date_created: row.get(2)?,
                date_password_modified: row.get(3)?,
            })
        })?;
        mapped.collect()
    }).map_err(|e| e.to_string())
}

/// Relies on `rusqlite::Connection::execute`: runs the fixed parameterized
/// delete keyed on the exact (realm, username) pair and returns the count
/// of removed rows as the database reports it.
#[verifier::external_body]
fn execute_delete(conn: &rusqlite::Connection, url: &str, username: &str) -> (r: Result<
    usize,
    String,
>) {
    conn.execute(
        "DELETE FROM logins WHERE signon_realm = ?1 AND username_value = ?2",
        [url, username],
    ).map_err(|e| e.to_string())
}

/// Read the `logins` table out of the snapshot at `snapshot_path` as it
/// is stored: the fixed projection, every row materialized and the
/// database connection dropped before the caller sees a row. What the
/// rows hold depends on the file, so nothing is promised of them; a
/// caller that needs the row-to-record relation, or the deletion model,
/// applies `records_from_rows` or `delete_matching_rows` to this result,
/// whose contracts are exact. A file that is not a valid store, or whose
/// table or columns are absent, is `QueryFailed`.
pub fn read_rows(snapshot_path: &str) -> (r: Result<Vec<LoginRow>, AccessError>)
    ensures
        r matches Err(e) ==> e is QueryFailed,
{
    let conn = match open_login_database(snapshot_path) {
        Ok(c) => c,
        Err(detail) => {
            return Err(AccessError::QueryFailed { detail });
        },
    };
    match select_login_rows(&conn) {
        Ok(rows) => Ok(rows),
        Err(detail) => Err(AccessError::QueryFailed { detail }),
    }
}

/// Read every credential record out of the snapshot at `snapshot_path`:
/// `read_rows`, with each native timestamp converted to standard time by
/// `records_from_rows`, whose contract pins the conversion of every row.
/// Nothing can be said here of which rows the file held, so the success
/// value carries no clause of its own; the verified content lives in the
/// two named functions.
pub fn read_all(snapshot_path: &str) -> (r: Result<Vec<Passwords>, AccessError>)
    ensures
        r matches Err(e) ==> e is QueryFailed,
{
    let rows = match read_rows(snapshot_path) {
        Ok(rows) => rows,
        Err(e) => {
            return Err(e);
        },
    };
    Ok(records_from_rows(&rows))
}

/// Delete from the snapshot every row whose (realm, username) pair equals
/// the target, and return how many rows went: zero is a valid, non-error
/// outcome meaning no row matched. A file that is not a valid store is
/// `QueryFailed`.
pub fn delete_matching(snapshot_path: &str, url: &str, username: &str) -> (r: Result<
    usize,
    AccessError,
>)
    ensures
        r matches Err(e) ==> e is QueryFailed,
{
    let conn = match open_login_database(snapshot_path) {
        Ok(c) => c,
        Err(detail) => {
            return Err(AccessError::QueryFailed { detail });
        },
    };
    match execute_delete(&conn, url, username) {
        Ok(n) => Ok(n),
        Err(detail) => Err(AccessError::QueryFailed { detail }),
    }
}

} // verus!
