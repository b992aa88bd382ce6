//! The flag repository: one SQLite connection, five operations.
//!
//! The connection is held exclusively by a [`Store`] and never exposed;
//! every SQL statement the repository runs sits in a trusted wrapper whose
//! contract describes the statement's effect on the table model of
//! [`crate::model`]. The repository functions on top are verified against
//! those contracts.

use vstd::prelude::*;

use crate::error::FeatureFlagError;
use crate::model::{
    contains_id, contains_name, count_id, count_name, decode_value, with_value_for_id,
    with_value_for_name, without_id, without_name, RowModel,
};

verus! {

#[verifier::external_type_specification]
#[verifier::external_body]
pub struct ExConnection(rusqlite::Connection);

/// The storage handle: exclusive ownership of one connection. Callers that
/// share a store serialize access around it themselves (the HTTP surface
/// keeps it behind an async mutex).
pub struct Store {
    conn: rusqlite::Connection,
}

/// The rows of the store's `flags` table, in the order a full table scan
/// (`SELECT id, name, value FROM flags`) returns them.
pub uninterp spec fn db_rows(db: Store) -> Seq<RowModel>;

/// Whether the store's database holds the `flags` table with the schema
/// that [`initialize_db`] creates (it does not on a fresh database).
pub uninterp spec fn db_has_flags_table(db: Store) -> bool;

impl Store {
    /// Wraps an already-opened connection (the surfaces open file-backed
    /// ones themselves). Nothing is known about such a store's table until
    /// [`initialize_db`] has run on it.
    pub fn from_connection(conn: rusqlite::Connection) -> Store {
        Store { conn }
    }
}

/// A row of the table as callers see it: the id the store assigned, the
/// name, and the stored integer decoded to a boolean.
#[derive(Debug)]
pub struct FlagWithID {
    pub id: i32,
    pub name: String,
    pub value: bool,
}

/// A flag as a caller describes it when creating one.
#[derive(Debug)]
pub struct Flag {
    pub name: String,
    pub value: bool,
}

/// Just a value, as the update route's request body carries it.
#[derive(Debug)]
pub struct FlagValue {
    pub value: bool,
}

/// Relies on `rusqlite::Connection::open_in_memory`: a fresh, empty
/// in-memory database, which holds no `flags` table yet.
#[verifier::external_body]
pub fn open_in_memory_db() -> (r: Result<Store, FeatureFlagError>)
    ensures
        r is Ok ==> !db_has_flags_table(r->Ok_0),
{
    match rusqlite::Connection::open_in_memory() {
        Ok(conn) => Ok(Store { conn }),
        Err(_) => Err(FeatureFlagError::ConnectionError),
    }
}

/// Drops any existing `flags` table and recreates it empty.
///
/// Relies on `rusqlite::Connection::execute_batch` running the `DROP TABLE`
/// and `CREATE TABLE` statements below: on success the table exists and has
/// no rows. On failure the schema may be in either state, so nothing is
/// promised beyond the error.
#[verifier::external_body]
pub fn initialize_db(db: &mut Store) -> (r: Result<(), FeatureFlagError>)
    ensures
        r is Ok ==> db_has_flags_table(*final(db)) && db_rows(*final(db)) == Seq::<RowModel>::empty(),
        r is Err ==> r->Err_0 == FeatureFlagError::SchemaError,
{
    db.conn
        .execute_batch(
            "DROP TABLE IF EXISTS flags;
            CREATE TABLE flags (
                id    INTEGER UNIQUE,
                name  TEXT NOT NULL UNIQUE,
                value INTEGER NOT NULL CHECK(value == 0 OR value == 1),
                PRIMARY KEY(id)
            );",
        )
        .map_err(|_| FeatureFlagError::SchemaError)
}

/// Relies on `rusqlite::Connection::execute` with
/// `INSERT INTO flags (name, value) VALUES (?1, ?2)`: on success exactly one
/// row was appended, carrying an id not in use before (SQLite assigns the
/// primary key one larger than the largest in use, so the new row scans
/// last; this takes the allocator's ordinary path, i.e. no row already
/// occupies the key type's largest value), and `execute` reports 1 changed
/// row; a statement that fails changes nothing; a
/// `SQLITE_CONSTRAINT_UNIQUE` failure (the only UNIQUE constraint a caller
/// can hit is the one on `name`) comes back as `ConflictError`, anything
/// else as `StoreError`.
#[verifier::external_body]
fn exec_insert_flag(db: &mut Store, name: &str, value: i32) -> (r: Result<
    usize,
    FeatureFlagError,
>)
    ensures
        db_has_flags_table(*final(db)) == db_has_flags_table(*old(db)),
        r is Ok ==> {
            &&& db_has_flags_table(*old(db))
            &&& r->Ok_0 == 1
            &&& !contains_name(db_rows(*old(db)), name@)
            &&& (value == 0 || value == 1)
            &&& exists|id: int|
                !contains_id(db_rows(*old(db)), id) && db_rows(*final(db)) == db_rows(
                    *old(db),
                ).push((id, name@, value as int))
        },
        r is Err ==> db_rows(*final(db)) == db_rows(*old(db)),
        r is Err && r->Err_0 == FeatureFlagError::ConflictError ==> db_has_flags_table(*old(db))
            && contains_name(db_rows(*old(db)), name@),
        r is Err ==> (r->Err_0 == FeatureFlagError::ConflictError || r->Err_0
            == FeatureFlagError::StoreError),
{
    match db.conn.execute("INSERT INTO flags (name, value) VALUES (?1, ?2)", (name, value)) {
        Ok(n) => Ok(n),
        Err(rusqlite::Error::SqliteFailure(e, _)) if e.extended_code
            == rusqlite::ffi::SQLITE_CONSTRAINT_UNIQUE => Err(FeatureFlagError::ConflictError),
        Err(_) => Err(FeatureFlagError::StoreError),
    }
}

/// Relies on `rusqlite::Connection::execute` with
/// `UPDATE flags SET value = ? WHERE name = ?`: on success every row with
/// the name holds the new value, everything else is untouched, and `execute`
/// reports how many rows matched; a failed statement changes nothing. The
/// schema's CHECK admits only 0 and 1, so success with a matching row means
/// the value was one of those.
#[verifier::external_body]
fn exec_update_by_name(db: &mut Store, name: &str, value: i32) -> (r: Result<
    usize,
    FeatureFlagError,
>)
    ensures
        db_has_flags_table(*final(db)) == db_has_flags_table(*old(db)),
        r is Ok ==> {
            &&& db_has_flags_table(*old(db))
            &&& db_rows(*final(db)) == with_value_for_name(db_rows(*old(db)), name@, value as int)
            &&& r->Ok_0 as int == count_name(db_rows(*old(db)), name@)
            &&& (count_name(db_rows(*old(db)), name@) > 0 ==> value == 0 || value == 1)
        },
        r is Err ==> db_rows(*final(db)) == db_rows(*old(db)),
        r is Err ==> r->Err_0 == FeatureFlagError::StoreError,
{
    db.conn
        .execute("UPDATE flags SET value = ? WHERE name = ?", (value, name))
        .map_err(|_| FeatureFlagError::StoreError)
}

/// Relies on `rusqlite::Connection::execute` with
/// `DELETE FROM flags WHERE name = ?`: on success the matching rows are gone
/// (order of the rest kept) and `execute` reports how many went; a failed
/// statement changes nothing.
#[verifier::external_body]
fn exec_delete_by_name(db: &mut Store, name: &str) -> (r: Result<usize, FeatureFlagError>)
    ensures
        db_has_flags_table(*final(db)) == db_has_flags_table(*old(db)),
        r is Ok ==> {
            &&& db_has_flags_table(*old(db))
            &&& db_rows(*final(db)) == without_name(db_rows(*old(db)), name@)
            &&& r->Ok_0 as int == count_name(db_rows(*old(db)), name@)
        },
        r is Err ==> db_rows(*final(db)) == db_rows(*old(db)),
        r is Err ==> r->Err_0 == FeatureFlagError::StoreError,
{
    db.conn
        .execute("DELETE FROM flags WHERE name = ?", (name,))
        .map_err(|_| FeatureFlagError::StoreError)
}

/// Relies on `rusqlite::Connection::query_row` with
/// `SELECT id, name, value FROM flags WHERE name = ?`: on success the
/// returned triple is one of the table's rows and its name is the queried
/// one (SQLite compares TEXT byte-for-byte); `QueryReturnedNoRows` means no
/// row carries the name and comes back as `NotFoundError`.
#[verifier::external_body]
fn query_flag_by_name(db: &Store, name: &str) -> (r: Result<(i64, String, i64), FeatureFlagError>)
    ensures
        r is Ok ==> {
            &&& db_has_flags_table(*db)
            &&& r->Ok_0.1@ == name@
            &&& exists|i: int|
                0 <= i < db_rows(*db).len() && #[trigger] db_rows(*db)[i] == (
                    r->Ok_0.0 as int,
                    name@,
                    r->Ok_0.2 as int,
                )
        },
        r is Err && r->Err_0 == FeatureFlagError::NotFoundError ==> db_has_flags_table(*db)
            && !contains_name(db_rows(*db), name@),
        r is Err ==> (r->Err_0 == FeatureFlagError::NotFoundError || r->Err_0
            == FeatureFlagError::StoreError),
{
    match db.conn.query_row(
        "SELECT id, name, value FROM flags WHERE name = ?",
        (name,),
        |row| Ok((row.get(0)?, row.get(1)?, row.get(2)?)),
    ) {
        Ok(t) => Ok(t),
        Err(rusqlite::Error::QueryReturnedNoRows) => Err(FeatureFlagError::NotFoundError),
        Err(_) => Err(FeatureFlagError::StoreError),
    }
}

/// Relies on `rusqlite::Statement::query_map` over
/// `SELECT id, name, value FROM flags`: on success the vector holds exactly
/// the table's rows, in scan order.
#[verifier::external_body]
fn query_all_rows(db: &Store) -> (r: Result<Vec<(i64, String, i64)>, FeatureFlagError>)
    ensures
        r is Ok ==> {
            &&& db_has_flags_table(*db)
            &&& r->Ok_0@.len() == db_rows(*db).len()
            &&& forall|i: int|
                0 <= i < db_rows(*db).len() ==> #[trigger] db_rows(*db)[i] == (
                    r->Ok_0@[i].0 as int,
                    r->Ok_0@[i].1@,
                    r->Ok_0@[i].2 as int,
                )
        },
        r is Err ==> r->Err_0 == FeatureFlagError::StoreError,
{
    let run = || -> rusqlite::Result<Vec<(i64, String, i64)>> {
        let mut stmt = db.conn.prepare("SELECT id, name, value FROM flags")?;
        let rows = stmt.query_map((), |row| Ok((row.get(0)?, row.get(1)?, row.get(2)?)))?;
        rows.collect()
    };
    run().map_err(|_| FeatureFlagError::StoreError)
}

/// Relies on `rusqlite::Statement::exists` over
/// `SELECT name, value FROM flags WHERE id = ?`: on success the boolean says
/// whether some row carries the id.
#[verifier::external_body]
pub(crate) fn query_id_exists(db: &Store, id: i64) -> (r: Result<bool, FeatureFlagError>)
    ensures
        r is Ok ==> db_has_flags_table(*db) && r->Ok_0 == contains_id(db_rows(*db), id as int),
        r is Err ==> r->Err_0 == FeatureFlagError::StoreError,
{
    let run = || -> rusqlite::Result<bool> {
        let mut stmt = db.conn.prepare("SELECT name, value FROM flags WHERE id = ?")?;
        stmt.exists((id,))
    };
    run().map_err(|_| FeatureFlagError::StoreError)
}

/// Relies on `rusqlite::Connection::execute` with
/// `UPDATE flags SET value = ? WHERE id = ?`, as [`exec_update_by_name`]
/// but keyed by id.
#[verifier::external_body]
pub(crate) fn exec_update_by_id(db: &mut Store, id: i64, value: i32) -> (r: Result<usize, FeatureFlagError>)
    ensures
        db_has_flags_table(*final(db)) == db_has_flags_table(*old(db)),
        r is Ok ==> {
            &&& db_has_flags_table(*old(db))
            &&& db_rows(*final(db)) == with_value_for_id(
                db_rows(*old(db)),
                id as int,
                value as int,
            )
            &&& r->Ok_0 as int == count_id(db_rows(*old(db)), id as int)
            &&& (count_id(db_rows(*old(db)), id as int) > 0 ==> value == 0 || value == 1)
        },
        r is Err ==> db_rows(*final(db)) == db_rows(*old(db)),
        r is Err ==> r->Err_0 == FeatureFlagError::StoreError,
{
    db.conn
        .execute("UPDATE flags SET value = ? WHERE id = ?", (value, id))
        .map_err(|_| FeatureFlagError::StoreError)
}

/// Relies on `rusqlite::Connection::execute` with
/// `DELETE FROM flags WHERE id = ?`, as [`exec_delete_by_name`] but keyed
/// by id.
#[verifier::external_body]
pub(crate) fn exec_delete_by_id(db: &mut Store, id: i64) -> (r: Result<usize, FeatureFlagError>)
    ensures
        db_has_flags_table(*final(db)) == db_has_flags_table(*old(db)),
        r is Ok ==> {
            &&& db_has_flags_table(*old(db))
            &&& db_rows(*final(db)) == without_id(db_rows(*old(db)), id as int)
            &&& r->Ok_0 as int == count_id(db_rows(*old(db)), id as int)
        },
        r is Err ==> db_rows(*final(db)) == db_rows(*old(db)),
        r is Err ==> r->Err_0 == FeatureFlagError::StoreError,
{
    db.conn
        .execute("DELETE FROM flags WHERE id = ?", (id,))
        .map_err(|_| FeatureFlagError::StoreError)
}

/// Creates a flag. On success exactly one row was appended (with a fresh,
/// store-assigned id) and the name was free before; `ConflictError` is
/// reported only for a name that already exists.
pub fn add_flag(db: &mut Store, name: String, value: i32) -> (r: Result<usize, FeatureFlagError>)
    ensures
        db_has_flags_table(*final(db)) == db_has_flags_table(*old(db)),
        r is Ok ==> {
            &&& db_has_flags_table(*old(db))
            &&& r->Ok_0 == 1
            &&& !contains_name(db_rows(*old(db)), name@)
            &&& (value == 0 || value == 1)
            &&& exists|id: int|
                !contains_id(db_rows(*old(db)), id) && db_rows(*final(db)) == db_rows(
                    *old(db),
                ).push((id, name@, value as int))
        },
        r is Err ==> db_rows(*final(db)) == db_rows(*old(db)),
        r is Err && r->Err_0 == FeatureFlagError::ConflictError ==> db_has_flags_table(*old(db))
            && contains_name(db_rows(*old(db)), name@),
        r is Err ==> (r->Err_0 == FeatureFlagError::ConflictError || r->Err_0
            == FeatureFlagError::StoreError),
{
    exec_insert_flag(db, name.as_str(), value)
}

/// Reads one flag by name. On success the returned flag is a row of the
/// table with that name, its stored value decoded (1 is true, anything else
/// false); `NotFoundError` is reported only when the table holds no such
/// row at all.
pub fn get_flag_by_name(db: &Store, name: String) -> (r: Result<FlagWithID, FeatureFlagError>)
    ensures
        r is Ok ==> {
            &&& db_has_flags_table(*db)
            &&& r->Ok_0.name@ == name@
            &&& exists|i: int|
                0 <= i < db_rows(*db).len() && #[trigger] db_rows(*db)[i] == (
                    r->Ok_0.id as int,
                    name@,
                    db_rows(*db)[i].2,
                ) && r->Ok_0.value == decode_value(db_rows(*db)[i].2)
        },
        r is Err && r->Err_0 == FeatureFlagError::NotFoundError ==> db_has_flags_table(*db)
            && !contains_name(db_rows(*db), name@),
        r is Err ==> (r->Err_0 == FeatureFlagError::NotFoundError || r->Err_0
            == FeatureFlagError::StoreError),
{
    let row = query_flag_by_name(db, name.as_str());
    match row {
        Ok(row) => {
            if row.0 < i32::MIN as i64 || row.0 > i32::MAX as i64 {
                // An id outside the callers' id type is an execution
                // failure, not a missing row.
                Err(FeatureFlagError::StoreError)
            } else {
                Ok(FlagWithID { id: row.0 as i32, name: row.1, value: row.2 == 1 })
            }
        },
        Err(e) => Err(e),
    }
}

/// Reads the whole table. On success the vector holds exactly the table's
/// rows, in table-scan order, each value decoded; an empty table gives an
/// empty vector, not an error.
pub fn get_all_flags(db: &Store) -> (r: Result<Vec<FlagWithID>, FeatureFlagError>)
    ensures
        r is Ok ==> {
            &&& db_has_flags_table(*db)
            &&& r->Ok_0@.len() == db_rows(*db).len()
            &&& forall|i: int|
                0 <= i < db_rows(*db).len() ==> {
                    &&& (#[trigger] r->Ok_0@[i]).id as int == db_rows(*db)[i].0
                    &&& r->Ok_0@[i].name@ == db_rows(*db)[i].1
                    &&& r->Ok_0@[i].value == decode_value(db_rows(*db)[i].2)
                }
        },
        r is Err ==> r->Err_0 == FeatureFlagError::StoreError,
{
    let raw = match query_all_rows(db) {
        Ok(raw) => raw,
        Err(e) => {
            return Err(e);
        },
    };
    let mut out: Vec<FlagWithID> = Vec::new();
    let mut i: usize = 0;
    while i < raw.len()
        invariant
            i <= raw.len(),
            db_has_flags_table(*db),
            raw@.len() == db_rows(*db).len(),
            forall|j: int|
                0 <= j < db_rows(*db).len() ==> #[trigger] db_rows(*db)[j] == (
                    raw@[j].0 as int,
                    raw@[j].1@,
                    raw@[j].2 as int,
                ),
            out@.len() == i,
            forall|j: int|
                0 <= j < i ==> {
                    &&& (#[trigger] out@[j]).id as int == db_rows(*db)[j].0
                    &&& out@[j].name@ == db_rows(*db)[j].1
                    &&& out@[j].value == decode_value(db_rows(*db)[j].2)
                },
        decreases raw.len() - i,
    {
        let row = &raw[i];
        if row.0 < i32::MIN as i64 || row.0 > i32::MAX as i64 {
            return Err(FeatureFlagError::StoreError);
        }
        out.push(FlagWithID { id: row.0 as i32, name: row.1.clone(), value: row.2 == 1 });
        i = i + 1;
    }
    Ok(out)
}

/// Deletes by name and reports how many rows went. Absence is not an
/// error: deleting a missing name succeeds with 0.
pub fn delete_flag_by_name(db: &mut Store, name: String) -> (r: Result<usize, FeatureFlagError>)
    ensures
        db_has_flags_table(*final(db)) == db_has_flags_table(*old(db)),
        r is Ok ==> {
            &&& db_has_flags_table(*old(db))
            &&& db_rows(*final(db)) == without_name(db_rows(*old(db)), name@)
            &&& r->Ok_0 as int == count_name(db_rows(*old(db)), name@)
        },
        r is Err ==> db_rows(*final(db)) == db_rows(*old(db)),
        r is Err ==> r->Err_0 == FeatureFlagError::StoreError,
{
    exec_delete_by_name(db, name.as_str())
}

/// Updates one flag's value by name, checking existence first (a read, then
/// a write — not atomic against other writers of a shared store). On a name
/// the table does not hold, nothing is mutated; `NotFoundError` is reported
/// only in that case.
pub fn update_flag(db: &mut Store, name: String, value: i32) -> (r: Result<
    usize,
    FeatureFlagError,
>)
    ensures
        db_has_flags_table(*final(db)) == db_has_flags_table(*old(db)),
        r is Ok ==> {
            &&& db_has_flags_table(*old(db))
            &&& contains_name(db_rows(*old(db)), name@)
            &&& db_rows(*final(db)) == with_value_for_name(db_rows(*old(db)), name@, value as int)
            &&& r->Ok_0 as int == count_name(db_rows(*old(db)), name@)
            &&& (count_name(db_rows(*old(db)), name@) > 0 ==> value == 0 || value == 1)
        },
        r is Err ==> db_rows(*final(db)) == db_rows(*old(db)),
        r is Err && r->Err_0 == FeatureFlagError::NotFoundError ==> db_has_flags_table(*old(db))
            && !contains_name(db_rows(*old(db)), name@),
        db_has_flags_table(*old(db)) && !contains_name(db_rows(*old(db)), name@) ==> !(r is Ok),
        r is Err ==> (r->Err_0 == FeatureFlagError::NotFoundError || r->Err_0
            == FeatureFlagError::StoreError),
{
    let found = get_flag_by_name(&*db, name.clone());
    match found {
        Ok(_) => exec_update_by_name(db, name.as_str(), value),
        Err(e) => Err(e),
    }
}

} // verus!
