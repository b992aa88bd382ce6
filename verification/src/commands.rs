//! The command surface: each subcommand runs one repository call and
//! renders the plain-text line(s) the CLI prints.
//!
//! Every function returns the rendered text; writing it to the output
//! stream is the caller's business.

use vstd::prelude::*;

use crate::db::{db_has_flags_table, db_rows, Store};
use crate::error::FeatureFlagError;
use crate::model::{
    contains_id, contains_name, count_name, decode_value, with_value_for_name, without_name,
    RowModel,
};
use crate::text::{
    bool_text, dec_str, fold_eq, is_space_char, lemma_trim_end_take, lemma_trim_start_skip,
    spec_bool_text, str_region_fold_eq, trim_end_spec, trim_spec, trim_start_spec, usize_to_string,
};

verus! {

/// The integer SQLite stores for a boolean.
pub fn convert_bool_to_sqlite_bool(value: bool) -> (r: i32)
    ensures
        r == (if value {
            1int
        } else {
            0int
        }),
{
    if value {
        1
    } else {
        0
    }
}

/// Reads a boolean argument: case-insensitive, whitespace-trimmed "true"
/// or "false", as the stored integer; anything else is rejected before any
/// database access.
pub fn valuate_value(arg: String) -> (r: Result<i32, String>)
    ensures
        r == Ok::<i32, String>(1) <==> fold_eq(trim_spec(arg@), "true"@),
        r == Ok::<i32, String>(0) <==> fold_eq(trim_spec(arg@), "false"@),
        r is Err ==> r->Err_0@ == "Value must be 'true' or 'false'"@,
{
    let s = arg.as_str();
    let n = s.unicode_len();
    let mut start: usize = 0;
    loop
        invariant
            n == s@.len(),
            start <= n,
            forall|j: int| 0 <= j < start ==> is_space_char(#[trigger] s@[j]),
        ensures
            start <= n,
            forall|j: int| 0 <= j < start ==> is_space_char(#[trigger] s@[j]),
            start == n || !is_space_char(s@[start as int]),
        decreases n - start,
    {
        if start == n {
            break ;
        }
        if !crate::text::is_space(s.get_char(start)) {
            break ;
        }
        start = start + 1;
    }
    let mut end: usize = n;
    loop
        invariant
            n == s@.len(),
            start <= end <= n,
            forall|j: int| end <= j < n ==> is_space_char(#[trigger] s@[j]),
        ensures
            start <= end <= n,
            forall|j: int| end <= j < n ==> is_space_char(#[trigger] s@[j]),
            end == start || !is_space_char(s@[end - 1]),
        decreases end,
    {
        if end == start {
            break ;
        }
        if !crate::text::is_space(s.get_char(end - 1)) {
            break ;
        }
        end = end - 1;
    }
    proof {
        lemma_trim_start_skip(s@, start as int);
        let t = s@.skip(start as int);
        if start < n {
            assert(t[0] == s@[start as int]);
        }
        assert(trim_start_spec(t) == t);
        lemma_trim_end_take(t, end - start);
        let u = t.take(end - start);
        if end > start {
            assert(u.last() == s@[end - 1]);
        }
        assert(trim_end_spec(u) == u);
        assert(u =~= s@.subrange(start as int, end as int));
        reveal_strlit("true");
        reveal_strlit("false");
    }
    if str_region_fold_eq(s, start, end, "true") {
        Ok(1)
    } else if str_region_fold_eq(s, start, end, "false") {
        Ok(0)
    } else {
        Err(String::from_str("Value must be 'true' or 'false'"))
    }
}

/// One line of the `all` listing.
pub open spec fn flag_line(name: Seq<char>, value: bool) -> Seq<char> {
    "flag: "@ + name + ": "@ + spec_bool_text(value) + "\n"@
}

/// The whole `all` listing: one line per row, in table order, then "Done".
pub open spec fn render_all(rows: Seq<RowModel>) -> Seq<char>
    decreases rows.len(),
{
    if rows.len() == 0 {
        "Done\n"@
    } else {
        flag_line(rows[0].1, decode_value(rows[0].2)) + render_all(rows.drop_first())
    }
}

/// Lists every flag. On success the text is exactly the listing of the
/// table's rows in table order.
pub fn all_flags_v2(db: &Store) -> (r: Result<String, FeatureFlagError>)
    ensures
        r is Ok ==> db_has_flags_table(*db) && r->Ok_0@ == render_all(db_rows(*db)),
        r is Err ==> r->Err_0 == FeatureFlagError::StoreError,
{
    let flags = match crate::db::get_all_flags(db) {
        Ok(f) => f,
        Err(e) => {
            return Err(e);
        },
    };
    let ghost rows = db_rows(*db);
    let mut out = String::new();
    proof {
        assert(rows.skip(0) =~= rows);
    }
    let mut i: usize = 0;
    while i < flags.len()
        invariant
            rows == db_rows(*db),
            flags@.len() == rows.len(),
            forall|j: int|
                0 <= j < rows.len() ==> {
                    &&& (#[trigger] flags@[j]).name@ == rows[j].1
                    &&& flags@[j].value == decode_value(rows[j].2)
                },
            i <= flags@.len(),
            render_all(rows) == out@ + render_all(rows.skip(i as int)),
        decreases flags@.len() - i,
    {
        let ghost out0 = out@;
        let f = &flags[i];
        out.append("flag: ");
        out.append(f.name.as_str());
        out.append(": ");
        out.append(bool_text(f.value));
        out.append("\n");
        proof {
            let tail = rows.skip(i as int);
            assert(tail[0] == rows[i as int]);
            assert(tail.drop_first() =~= rows.skip(i + 1));
            assert(render_all(tail) == flag_line(rows[i as int].1, decode_value(rows[i as int].2))
                + render_all(rows.skip(i + 1)));
            assert(out@ =~= out0 + flag_line(rows[i as int].1, decode_value(rows[i as int].2)));
            assert((out0 + flag_line(rows[i as int].1, decode_value(rows[i as int].2)))
                + render_all(rows.skip(i + 1)) =~= out0 + (flag_line(
                rows[i as int].1,
                decode_value(rows[i as int].2),
            ) + render_all(rows.skip(i + 1))));
        }
        i = i + 1;
    }
    proof {
        assert(rows.skip(rows.len() as int) =~= Seq::<RowModel>::empty());
    }
    out.append("Done\n");
    Ok(out)
}

/// What the `create` subcommand may leave behind and say: either the flag
/// was created (fresh name, fresh id, value stored) and the success line is
/// printed, or nothing changed and the failure line names the error —
/// `ConflictError` only for a name that already exists.
pub open spec fn create_outcome(
    old_rows: Seq<RowModel>,
    had_table: bool,
    new_rows: Seq<RowModel>,
    name: Seq<char>,
    value: int,
    out: Seq<char>,
) -> bool {
    ||| {
        &&& out == "Successfully added to the db\n"@
        &&& had_table
        &&& !contains_name(old_rows, name)
        &&& (value == 0 || value == 1)
        &&& exists|id: int|
            !contains_id(old_rows, id) && new_rows == old_rows.push((id, name, value))
    }
    ||| {
        &&& new_rows == old_rows
        &&& {
            ||| (out == "Failed to add to db: "@ + FeatureFlagError::ConflictError.text_spec()
                && had_table && contains_name(old_rows, name))
            ||| out == "Failed to add to db: "@ + FeatureFlagError::StoreError.text_spec()
        }
    }
}

/// Creates a flag and renders the outcome line.
pub fn create_flag(db: &mut Store, name: String, value: i32) -> (out: String)
    ensures
        db_has_flags_table(*final(db)) == db_has_flags_table(*old(db)),
        create_outcome(
            db_rows(*old(db)),
            db_has_flags_table(*old(db)),
            db_rows(*final(db)),
            name@,
            value as int,
            out@,
        ),
{
    match crate::db::add_flag(db, name, value) {
        Ok(_) => String::from_str("Successfully added to the db\n"),
        Err(e) => {
            let mut m = String::from_str("Failed to add to db: ");
            m.append(e.as_text());
            m
        },
    }
}

/// What the `update` subcommand may leave behind and say, in the same way:
/// `NotFoundError` exactly reports a missing name, and a failure mutates
/// nothing.
pub open spec fn update_outcome(
    old_rows: Seq<RowModel>,
    had_table: bool,
    new_rows: Seq<RowModel>,
    name: Seq<char>,
    value: int,
    out: Seq<char>,
) -> bool {
    ||| {
        &&& out == "Successfully updated the db\n"@
        &&& had_table
        &&& contains_name(old_rows, name)
        &&& new_rows == with_value_for_name(old_rows, name, value)
        &&& (count_name(old_rows, name) > 0 ==> value == 0 || value == 1)
    }
    ||| {
        &&& new_rows == old_rows
        &&& {
            ||| (out == "Failed to add to the db: "@ + FeatureFlagError::NotFoundError.text_spec()
                && had_table && !contains_name(old_rows, name))
            ||| out == "Failed to add to the db: "@ + FeatureFlagError::StoreError.text_spec()
        }
    }
}

/// Updates a flag's value by name and renders the outcome line.
pub fn update_flag(db: &mut Store, name: String, value: i32) -> (out: String)
    ensures
        db_has_flags_table(*final(db)) == db_has_flags_table(*old(db)),
        update_outcome(
            db_rows(*old(db)),
            db_has_flags_table(*old(db)),
            db_rows(*final(db)),
            name@,
            value as int,
            out@,
        ),
{
    match crate::db::update_flag(db, name, value) {
        Ok(_) => String::from_str("Successfully updated the db\n"),
        Err(e) => {
            let mut m = String::from_str("Failed to add to the db: ");
            m.append(e.as_text());
            m
        },
    }
}

/// Reads one flag and renders it, or reports that none was found. A name
/// the table does not hold always renders the not-found line.
pub fn get_flag(db: &Store, name: String) -> (out: String)
    ensures
        (exists|i: int|
            0 <= i < db_rows(*db).len() && (#[trigger] db_rows(*db)[i]).1 == name@ && out@
                == "Flag -- "@ + name@ + ": "@ + spec_bool_text(decode_value(db_rows(*db)[i].2))
                + "\n"@) || out@ == "No Flag Found\n"@,
        db_has_flags_table(*db) && !contains_name(db_rows(*db), name@) ==> out@
            == "No Flag Found\n"@,
{
    match crate::db::get_flag_by_name(db, name) {
        Ok(f) => {
            let mut m = String::from_str("Flag -- ");
            m.append(f.name.as_str());
            m.append(": ");
            m.append(bool_text(f.value));
            m.append("\n");
            m
        },
        Err(_) => String::from_str("No Flag Found\n"),
    }
}

/// What the `delete` subcommand may leave behind and say: either the rows
/// with the name are gone and the line counts them (0 for an absent name —
/// absence is not an error), or nothing changed and the failure line is
/// printed.
pub open spec fn delete_outcome(
    old_rows: Seq<RowModel>,
    had_table: bool,
    new_rows: Seq<RowModel>,
    name: Seq<char>,
    out: Seq<char>,
) -> bool {
    ||| {
        &&& had_table
        &&& new_rows == without_name(old_rows, name)
        &&& out == dec_str(count_name(old_rows, name) as nat) + " row deleted\n"@
    }
    ||| (new_rows == old_rows && out == "delete failed: "@
        + FeatureFlagError::StoreError.text_spec() + "\n"@)
}

/// Deletes a flag by name and renders the outcome line.
pub fn delete_flag(db: &mut Store, name: String) -> (out: String)
    ensures
        db_has_flags_table(*final(db)) == db_has_flags_table(*old(db)),
        delete_outcome(
            db_rows(*old(db)),
            db_has_flags_table(*old(db)),
            db_rows(*final(db)),
            name@,
            out@,
        ),
{
    match crate::db::delete_flag_by_name(db, name) {
        Ok(n) => {
            let mut m = usize_to_string(n);
            m.append(" row deleted\n");
            m
        },
        Err(e) => {
            let mut m = String::from_str("delete failed: ");
            m.append(e.as_text());
            m.append("\n");
            m
        },
    }
}

} // verus!
