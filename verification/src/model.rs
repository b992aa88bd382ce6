//! The mathematical model of the flags table.
//!
//! A table state is a sequence of rows in table-scan order; a row is
//! `(id, name, stored value)`. The stored value is the integer SQLite keeps:
//! the schema constrains it to 0 or 1, and it decodes to a boolean.

use vstd::prelude::*;

verus! {

/// One row of the flags table: `(id, name, stored integer value)`.
pub type RowModel = (int, Seq<char>, int);

/// How a stored integer decodes to a boolean: exactly 1 is true, anything
/// else (defensively) is false.
pub open spec fn decode_value(v: int) -> bool {
    v == 1
}

/// Whether some row carries the given name.
pub open spec fn contains_name(rows: Seq<RowModel>, name: Seq<char>) -> bool {
    exists|i: int| 0 <= i < rows.len() && (#[trigger] rows[i]).1 == name
}

/// Whether some row carries the given id.
pub open spec fn contains_id(rows: Seq<RowModel>, id: int) -> bool {
    exists|i: int| 0 <= i < rows.len() && (#[trigger] rows[i]).0 == id
}

/// The table after `UPDATE flags SET value = v WHERE name = n`: every row
/// with the name takes the new value, all others are untouched.
pub open spec fn with_value_for_name(rows: Seq<RowModel>, name: Seq<char>, v: int) -> Seq<
    RowModel,
> {
    Seq::new(
        rows.len(),
        |i: int|
            if rows[i].1 == name {
                (rows[i].0, rows[i].1, v)
            } else {
                rows[i]
            },
    )
}

/// The table after `UPDATE flags SET value = v WHERE id = k`.
pub open spec fn with_value_for_id(rows: Seq<RowModel>, id: int, v: int) -> Seq<RowModel> {
    Seq::new(
        rows.len(),
        |i: int|
            if rows[i].0 == id {
                (rows[i].0, rows[i].1, v)
            } else {
                rows[i]
            },
    )
}

/// The rows a delete-by-name leaves in place.
pub open spec fn keeps_other_names(name: Seq<char>) -> spec_fn(RowModel) -> bool {
    |r: RowModel| r.1 != name
}

/// The rows a delete-by-id leaves in place.
pub open spec fn keeps_other_ids(id: int) -> spec_fn(RowModel) -> bool {
    |r: RowModel| r.0 != id
}

/// The table after `DELETE FROM flags WHERE name = n`, order preserved.
pub open spec fn without_name(rows: Seq<RowModel>, name: Seq<char>) -> Seq<RowModel> {
    rows.filter(keeps_other_names(name))
}

/// The table after `DELETE FROM flags WHERE id = k`, order preserved.
pub open spec fn without_id(rows: Seq<RowModel>, id: int) -> Seq<RowModel> {
    rows.filter(keeps_other_ids(id))
}

/// How many rows carry the given name (what `DELETE ... WHERE name = n`
/// reports as its changed-row count).
pub open spec fn count_name(rows: Seq<RowModel>, name: Seq<char>) -> int {
    rows.len() - without_name(rows, name).len()
}

/// How many rows carry the given id.
pub open spec fn count_id(rows: Seq<RowModel>, id: int) -> int {
    rows.len() - without_id(rows, id).len()
}

/// The well-formedness the schema enforces on every table state: names are
/// unique, ids are unique, and each stored value is 0 or 1.
pub open spec fn wf_rows(rows: Seq<RowModel>) -> bool {
    &&& forall|i: int, j: int|
        0 <= i < j < rows.len() ==> (#[trigger] rows[i]).1 != (#[trigger] rows[j]).1
    &&& forall|i: int, j: int|
        0 <= i < j < rows.len() ==> (#[trigger] rows[i]).0 != (#[trigger] rows[j]).0
    &&& forall|i: int| 0 <= i < rows.len() ==> (#[trigger] rows[i]).2 == 0 || rows[i].2 == 1
}

/// After creating a flag under a name the table did not hold, the name is
/// present, and every row carrying it is exactly the created row — so a
/// lookup by that name finds the created flag with its stored value, and a
/// second create under the same name meets an existing row rather than a
/// free one.
pub proof fn lemma_created_flag_is_found(rows: Seq<RowModel>, id: int, name: Seq<char>, value: int)
    requires
        !contains_name(rows, name),
    ensures
        contains_name(rows.push((id, name, value)), name),
        forall|i: int|
            0 <= i < rows.push((id, name, value)).len() && (#[trigger] rows.push(
                (id, name, value),
            )[i]).1 == name ==> rows.push((id, name, value))[i] == (id, name, value),
{
    let rows2 = rows.push((id, name, value));
    assert(rows2[rows.len() as int] == (id, name, value));
    assert forall|i: int|
        0 <= i < rows2.len() && (#[trigger] rows2[i]).1 == name implies rows2[i] == (
        id,
        name,
        value,
    ) by {
        if i < rows.len() {
            assert(rows2[i] == rows[i]);
            assert(contains_name(rows, name));
        }
    }
}

proof fn lemma_without_name_keeps_all(rows: Seq<RowModel>, name: Seq<char>)
    requires
        forall|i: int| 0 <= i < rows.len() ==> (#[trigger] rows[i]).1 != name,
    ensures
        without_name(rows, name) == rows,
    decreases rows.len(),
{
    reveal(Seq::filter);
    if rows.len() == 0 {
        assert(without_name(rows, name) =~= rows);
    } else {
        let rest = rows.drop_last();
        assert(forall|i: int| 0 <= i < rest.len() ==> (#[trigger] rest[i]).1 != name);
        lemma_without_name_keeps_all(rest, name);
        assert(keeps_other_names(name)(rows.last()));
        assert(without_name(rows, name) =~= rows);
    }
}

proof fn lemma_count_when_contained(rows: Seq<RowModel>, name: Seq<char>)
    requires
        wf_rows(rows),
        contains_name(rows, name),
    ensures
        count_name(rows, name) == 1,
    decreases rows.len(),
{
    reveal(Seq::filter);
    let rest = rows.drop_last();
    let last = rows.last();
    if last.1 == name {
        assert forall|i: int| 0 <= i < rest.len() implies (#[trigger] rest[i]).1 != name by {
            assert(rest[i] == rows[i]);
            assert(rows[i].1 != rows[rows.len() - 1].1);
        }
        lemma_without_name_keeps_all(rest, name);
        assert(without_name(rows, name) == without_name(rest, name));
    } else {
        let w = choose|i: int| 0 <= i < rows.len() && (#[trigger] rows[i]).1 == name;
        assert(rest[w] == rows[w]);
        assert(contains_name(rest, name));
        assert(wf_rows(rest)) by {
            assert(forall|i: int| 0 <= i < rest.len() ==> #[trigger] rest[i] == rows[i]);
        }
        lemma_count_when_contained(rest, name);
        assert(without_name(rows, name) == without_name(rest, name).push(last));
    }
}

/// Deleting by name: an absent name removes nothing and counts 0 changed
/// rows — absence is not an error — while a present name (in a table whose
/// names are unique, as the schema enforces) removes exactly one row, and
/// afterwards the name is gone, so a lookup of it finds nothing.
pub proof fn lemma_delete_by_name(rows: Seq<RowModel>, name: Seq<char>)
    requires
        wf_rows(rows),
    ensures
        !contains_name(rows, name) ==> without_name(rows, name) == rows && count_name(rows, name)
            == 0,
        contains_name(rows, name) ==> count_name(rows, name) == 1,
        !contains_name(without_name(rows, name), name),
{
    if contains_name(rows, name) {
        lemma_count_when_contained(rows, name);
    } else {
        assert forall|i: int| 0 <= i < rows.len() implies (#[trigger] rows[i]).1 != name by {
            assert(!contains_name(rows, name));
        }
        lemma_without_name_keeps_all(rows, name);
    }
    let kept = without_name(rows, name);
    assert forall|i: int| 0 <= i < kept.len() implies (#[trigger] kept[i]).1 != name by {
        rows.lemma_filter_pred(keeps_other_names(name), i);
    }
}

} // verus!
