//! The HTTP surface's decision cores: each route handler's work between
//! "request parsed" and "reply serialized" — run the repository call, pick
//! the status code, build the reply body.
//!
//! The async wiring (routing, JSON, the lock around the shared store) lives
//! outside the library and calls these with plain values.

use vstd::prelude::*;

use crate::commands::convert_bool_to_sqlite_bool;
use crate::db::{db_has_flags_table, db_rows, Flag, FlagValue, Store};
use crate::error::FeatureFlagError;
use crate::model::{contains_id, contains_name, with_value_for_id, without_id};

verus! {

/// The JSON body the create route replies with.
pub struct ResponseMessage {
    pub code: u16,
    pub message: String,
}

/// `POST /flags`: creates the flag and answers 201 with a message naming
/// it, or 400 (leaving the store unchanged) when the insert fails — always
/// 400 for a name that already exists.
pub fn create_flag(db: &mut Store, new_flag: Flag) -> (r: ResponseMessage)
    ensures
        db_has_flags_table(*final(db)) == db_has_flags_table(*old(db)),
        r.code == 201 || r.code == 400,
        r.code == 201 ==> {
            &&& db_has_flags_table(*old(db))
            &&& !contains_name(db_rows(*old(db)), new_flag.name@)
            &&& exists|id: int|
                !contains_id(db_rows(*old(db)), id) && db_rows(*final(db)) == db_rows(
                    *old(db),
                ).push(
                    (
                        id,
                        new_flag.name@,
                        if new_flag.value {
                            1int
                        } else {
                            0int
                        },
                    ),
                )
            &&& r.message@ == "Flag "@ + new_flag.name@ + " was created"@
        },
        r.code == 400 ==> db_rows(*final(db)) == db_rows(*old(db)),
        r.code == 400 ==> (r.message@ == FeatureFlagError::ConflictError.text_spec() || r.message@
            == FeatureFlagError::StoreError.text_spec()),
        db_has_flags_table(*old(db)) && contains_name(db_rows(*old(db)), new_flag.name@)
            ==> r.code == 400,
{
    let value = convert_bool_to_sqlite_bool(new_flag.value);
    let name = new_flag.name;
    match crate::db::add_flag(db, name.clone(), value) {
        Ok(_) => {
            let mut m = String::from_str("Flag ");
            m.append(name.as_str());
            m.append(" was created");
            ResponseMessage { code: 201, message: m }
        },
        Err(e) => ResponseMessage { code: 400, message: String::from_str(e.as_text()) },
    }
}

/// `PUT /flags/{id}`: checks existence first (a read, then a write — not
/// atomic against other tasks), answers 404 for an id the table does not
/// hold, 200 after storing the value, 500 (changing nothing) on an
/// execution failure.
pub fn update_flag(db: &mut Store, id: u64, flag_value: FlagValue) -> (status: u16)
    requires
        id <= i64::MAX as u64,
    ensures
        db_has_flags_table(*final(db)) == db_has_flags_table(*old(db)),
        status == 200 || status == 404 || status == 500,
        status == 200 ==> {
            &&& db_has_flags_table(*old(db))
            &&& contains_id(db_rows(*old(db)), id as int)
            &&& db_rows(*final(db)) == with_value_for_id(
                db_rows(*old(db)),
                id as int,
                if flag_value.value {
                    1int
                } else {
                    0int
                },
            )
        },
        status == 404 ==> db_has_flags_table(*old(db)) && !contains_id(
            db_rows(*old(db)),
            id as int,
        ) && db_rows(*final(db)) == db_rows(*old(db)),
        status == 500 ==> db_rows(*final(db)) == db_rows(*old(db)),
        db_has_flags_table(*old(db)) && contains_id(db_rows(*old(db)), id as int) ==> status
            != 404,
{
    let exist = match crate::db::query_id_exists(&*db, id as i64) {
        Ok(b) => b,
        Err(_) => {
            return 500;
        },
    };
    if !exist {
        return 404;
    }
    let value = convert_bool_to_sqlite_bool(flag_value.value);
    match crate::db::exec_update_by_id(db, id as i64, value) {
        Ok(_) => 200,
        Err(_) => 500,
    }
}

/// `DELETE /flags/{id}`: answers 204 once the matching row (if any) is
/// gone — there is no existence check, so deleting an absent id is still
/// 204 — and 500 (changing nothing) on an execution failure.
pub fn delete_flag(db: &mut Store, id: u64) -> (status: u16)
    ensures
        db_has_flags_table(*final(db)) == db_has_flags_table(*old(db)),
        status == 204 || status == 500,
        status == 204 ==> db_has_flags_table(*old(db)) && db_rows(*final(db)) == without_id(
            db_rows(*old(db)),
            id as int,
        ),
        status == 500 ==> db_rows(*final(db)) == db_rows(*old(db)),
{
    if id > i64::MAX as u64 {
        // The store's ids are 64-bit signed; a route id beyond them cannot
        // be bound into the statement.
        return 500;
    }
    match crate::db::exec_delete_by_id(db, id as i64) {
        Ok(_) => 204,
        Err(_) => 500,
    }
}

} // verus!
